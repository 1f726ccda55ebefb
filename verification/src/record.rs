//! Records: insertion-ordered mappings from field names to scalar values.
//!
//! A record keeps its fields in the order in which they were first inserted
//! and never holds two fields of the same name. Its mathematical model is a
//! sequence of [`FieldView`]s; every contract in this crate that speaks of a
//! record speaks of that sequence.

use crate::scan::{first_index, lemma_first_index, lemma_first_index_is};
use vstd::prelude::*;

verus! {

/// The value held under one field name.
///
/// Numbers are kept as their decimal text, so that no precision is lost and
/// no rounding is ever applied to a rate. A nested array or object is kept as
/// its compact text and is never looked into.
#[derive(Debug, PartialEq, Eq)]
pub enum Scalar {
    Null,
    Bool(bool),
    Number(String),
    Text(String),
    Nested(String),
}

/// Mathematical value of a [`Scalar`].
pub enum ScalarView {
    Null,
    Bool(bool),
    Number(Seq<char>),
    Text(Seq<char>),
    Nested(Seq<char>),
}

impl View for Scalar {
    type V = ScalarView;

    open spec fn view(&self) -> ScalarView {
        match self {
            Scalar::Null => ScalarView::Null,
            Scalar::Bool(b) => ScalarView::Bool(*b),
            Scalar::Number(digits) => ScalarView::Number(digits@),
            Scalar::Text(text) => ScalarView::Text(text@),
            Scalar::Nested(text) => ScalarView::Nested(text@),
        }
    }
}

/// One named value of a record.
#[derive(Debug, PartialEq, Eq)]
pub struct Field {
    pub name: String,
    pub value: Scalar,
}

/// Mathematical value of a [`Field`].
pub struct FieldView {
    pub name: Seq<char>,
    pub value: ScalarView,
}

impl Clone for Scalar {
    fn clone(&self) -> (copy: Scalar)
        ensures
            copy@ == self@,
    {
        match self {
            Scalar::Null => Scalar::Null,
            Scalar::Bool(b) => Scalar::Bool(*b),
            Scalar::Number(digits) => Scalar::Number(digits.clone()),
            Scalar::Text(text) => Scalar::Text(text.clone()),
            Scalar::Nested(text) => Scalar::Nested(text.clone()),
        }
    }
}

impl View for Field {
    type V = FieldView;

    open spec fn view(&self) -> FieldView {
        FieldView { name: self.name@, value: self.value@ }
    }
}

impl Clone for Field {
    fn clone(&self) -> (copy: Field)
        ensures
            copy@ == self@,
    {
        Field { name: self.name.clone(), value: self.value.clone() }
    }
}

/// Mathematical value of a [`Record`]: its fields in order.
pub type RecordView = Seq<FieldView>;

/// No two fields of `fields` share a name.
pub open spec fn distinct_names(fields: RecordView) -> bool {
    forall|i: int, j: int|
        0 <= i < j < fields.len() ==> (#[trigger] fields[i]).name != (#[trigger] fields[j]).name
}

/// Index of the first field of `fields` that is called `name`.
pub open spec fn position_of(fields: RecordView, name: Seq<char>) -> Option<int> {
    first_index(fields, |field: FieldView| field.name == name)
}

/// The value that `fields` holds under `name`.
pub open spec fn value_of(fields: RecordView, name: Seq<char>) -> Option<ScalarView> {
    match position_of(fields, name) {
        Some(i) => Some(fields[i].value),
        None => None,
    }
}

/// The field names of `fields`, in field order.
pub open spec fn names_of(fields: RecordView) -> Seq<Seq<char>> {
    fields.map_values(|field: FieldView| field.name)
}

/// `fields` after `value` has been stored under `name`: an existing field of
/// that name keeps its place and takes the new value, a new name goes last.
pub open spec fn with_field(fields: RecordView, name: Seq<char>, value: ScalarView) -> RecordView {
    match position_of(fields, name) {
        Some(i) => fields.update(i, FieldView { name, value }),
        None => fields.push(FieldView { name, value }),
    }
}

/// The text that `fields` holds under the name `code`: the key by which a
/// record is looked up. A record without that field, or with a value there
/// that is not a text, has no code.
pub open spec fn code_of(fields: RecordView) -> Option<Seq<char>> {
    match value_of(fields, "code"@) {
        Some(ScalarView::Text(code)) => Some(code),
        _ => None,
    }
}

/// The characters of each text of `texts`.
pub open spec fn texts_of(texts: Seq<String>) -> Seq<Seq<char>> {
    texts.map_values(|text: String| text@)
}

/// `position_of` finds a field of the given name, finds the first one, and
/// finds nothing only where no field has that name.
pub proof fn lemma_position_of(fields: RecordView, name: Seq<char>)
    ensures
        match position_of(fields, name) {
            Some(i) => {
                &&& 0 <= i < fields.len()
                &&& fields[i].name == name
                &&& forall|j: int| 0 <= j < i ==> (#[trigger] fields[j]).name != name
            },
            None => forall|j: int| 0 <= j < fields.len() ==> (#[trigger] fields[j]).name != name,
        },
{
    lemma_first_index(fields, |field: FieldView| field.name == name);
}

/// The first field of a given name is the one that `position_of` finds.
pub proof fn lemma_position_of_first(fields: RecordView, name: Seq<char>, i: int)
    requires
        0 <= i < fields.len(),
        fields[i].name == name,
        forall|j: int| 0 <= j < i ==> (#[trigger] fields[j]).name != name,
    ensures
        position_of(fields, name) == Some(i),
{
    lemma_first_index_is(fields, |field: FieldView| field.name == name, i);
}

/// Storing a value keeps the names distinct.
pub proof fn lemma_with_field_distinct(fields: RecordView, name: Seq<char>, value: ScalarView)
    requires
        distinct_names(fields),
    ensures
        distinct_names(with_field(fields, name, value)),
{
    lemma_position_of(fields, name);
}

/// After storing a value under a name, that name yields the value, and every
/// other name yields what it did before.
pub proof fn lemma_with_field_value(
    fields: RecordView,
    name: Seq<char>,
    value: ScalarView,
    other: Seq<char>,
)
    ensures
        value_of(with_field(fields, name, value), name) == Some(value),
        other != name ==> value_of(with_field(fields, name, value), other) == value_of(
            fields,
            other,
        ),
{
    let after = with_field(fields, name, value);
    lemma_position_of(fields, name);
    lemma_position_of(fields, other);
    lemma_position_of(after, name);
    lemma_position_of(after, other);
    match position_of(fields, name) {
        Some(i) => {
            assert(after[i].name == name);
            assert(forall|j: int| 0 <= j < after.len() && j != i ==> after[j] == fields[j]);
        },
        None => {
            assert(after[fields.len() as int].name == name);
            assert(forall|j: int| 0 <= j < fields.len() ==> after[j] == fields[j]);
        },
    }
    if other != name {
        match position_of(fields, other) {
            Some(k) => {
                assert(after[k].name == other);
                assert(after[k].value == fields[k].value);
            },
            None => {},
        }
    }
}

/// An insertion-ordered mapping from field names to scalar values.
#[derive(Debug, PartialEq, Eq)]
pub struct Record {
    fields: Vec<Field>,
}

impl View for Record {
    type V = RecordView;

    closed spec fn view(&self) -> RecordView {
        self.fields@.map_values(|field: Field| field@)
    }
}

impl Clone for Record {
    fn clone(&self) -> (copy: Record)
        ensures
            copy@ == self@,
    {
        proof {
            use_type_invariant(self);
        }
        let mut fields: Vec<Field> = Vec::new();
        let mut i: usize = 0;
        while i < self.fields.len()
            invariant
                i <= self.fields.len(),
                fields@.len() == i,
                forall|j: int| 0 <= j < i ==> (#[trigger] fields@[j])@ == self@[j],
            decreases self.fields.len() - i,
        {
            fields.push(self.fields[i].clone());
            i += 1;
        }
        assert(fields@.map_values(|field: Field| field@) =~= self@);
        Record { fields }
    }
}

impl Record {
    #[verifier::type_invariant]
    spec fn well_formed(self) -> bool {
        distinct_names(self@)
    }

    /// A record without fields.
    pub fn new() -> (record: Record)
        ensures
            record@ == Seq::<FieldView>::empty(),
    {
        Record { fields: Vec::new() }
    }

    /// Number of fields.
    pub fn len(&self) -> (n: usize)
        ensures
            n == self@.len(),
    {
        self.fields.len()
    }

    /// The fields in order. No two of them share a name.
    pub fn fields(&self) -> (fields: &Vec<Field>)
        ensures
            fields@.map_values(|field: Field| field@) == self@,
            distinct_names(self@),
    {
        proof {
            use_type_invariant(self);
        }
        &self.fields
    }

    /// Position of the field called `name`.
    fn find(&self, name: &String) -> (found: Option<usize>)
        ensures
            match found {
                Some(i) => position_of(self@, name@) == Some(i as int) && i < self@.len(),
                None => position_of(self@, name@) is None,
            },
    {
        let mut i: usize = 0;
        while i < self.fields.len()
            invariant
                i <= self.fields.len(),
                forall|j: int| 0 <= j < i ==> (#[trigger] self@[j]).name != name@,
            decreases self.fields.len() - i,
        {
            if self.fields[i].name == *name {
                proof {
                    lemma_position_of_first(self@, name@, i as int);
                }
                return Some(i);
            }
            i += 1;
        }
        proof {
            lemma_position_of(self@, name@);
        }
        None
    }

    /// The value stored under `name`, if the record has such a field.
    pub fn get(&self, name: &str) -> (value: Option<&Scalar>)
        ensures
            match value {
                Some(scalar) => value_of(self@, name@) == Some(scalar@),
                None => value_of(self@, name@) is None,
            },
    {
        let wanted: String = name.to_owned();
        match self.find(&wanted) {
            Some(i) => Some(&self.fields[i].value),
            None => None,
        }
    }

    /// Stores `value` under `name`. A field of that name keeps its place and
    /// takes the new value; a new name is appended after all others.
    pub fn insert(&mut self, name: String, value: Scalar)
        ensures
            final(self)@ == with_field(old(self)@, name@, value@),
    {
        proof {
            use_type_invariant(&*self);
            lemma_with_field_distinct(self@, name@, value@);
        }
        let found = self.find(&name);
        let ghost after = with_field(self@, name@, value@);
        let mut fields: Vec<Field> = Vec::new();
        std::mem::swap(&mut fields, &mut self.fields);
        match found {
            Some(i) => {
                fields[i] = Field { name, value };
            },
            None => {
                fields.push(Field { name, value });
            },
        }
        assert(fields@.map_values(|field: Field| field@) =~= after);
        self.fields = fields;
    }

    /// The field names in field order.
    pub fn names(&self) -> (names: Vec<String>)
        ensures
            texts_of(names@) == names_of(self@),
            names@.len() == self@.len(),
            forall|i: int| 0 <= i < self@.len() ==> (#[trigger] names@[i])@ == self@[i].name,
    {
        let mut names: Vec<String> = Vec::new();
        let mut i: usize = 0;
        while i < self.fields.len()
            invariant
                i <= self.fields.len(),
                names@.len() == i,
                forall|j: int| 0 <= j < i ==> (#[trigger] names@[j])@ == self@[j].name,
            decreases self.fields.len() - i,
        {
            names.push(self.fields[i].name.clone());
            i += 1;
        }
        assert(texts_of(names@) =~= names_of(self@));
        names
    }

    /// The text stored under the name `code`.
    pub fn code(&self) -> (code: Option<&String>)
        ensures
            match code {
                Some(text) => code_of(self@) == Some(text@),
                None => code_of(self@) is None,
            },
    {
        match self.get("code") {
            Some(Scalar::Text(text)) => Some(text),
            _ => None,
        }
    }
}

} // verus!
