//! The three read-only queries on a snapshot: list every row, look one row
//! up by its code, and describe the columns.

use crate::record::{code_of, names_of, texts_of, Record, RecordView};
use crate::scan::{first_index, lemma_first_index, lemma_first_index_is};
use crate::snapshot::{views_of, Snapshot, SnapshotView};
use vstd::prelude::*;

verus! {

/// Every row of a snapshot, with their number.
#[derive(Debug, PartialEq, Eq)]
pub struct Rows<'a> {
    pub rows: &'a Vec<Record>,
    pub total: usize,
}

/// Lists the records of `snapshot` in snapshot order and counts them.
pub fn get_rows<'a>(snapshot: &'a Snapshot) -> (page: Rows<'a>)
    ensures
        views_of(page.rows@) == snapshot@,
        page.total == snapshot@.len(),
{
    let rows = snapshot.records();
    Rows { rows, total: rows.len() }
}

/// Index of the first record of `snapshot` whose code is exactly `key`.
pub open spec fn row_index(snapshot: SnapshotView, key: Seq<char>) -> Option<int> {
    first_index(snapshot, |record: RecordView| code_of(record) == Some(key))
}

/// The first record of `snapshot` whose code is exactly `key`.
pub open spec fn row_of(snapshot: SnapshotView, key: Seq<char>) -> Option<RecordView> {
    match row_index(snapshot, key) {
        Some(i) => Some(snapshot[i]),
        None => None,
    }
}

/// `row_index` names a record with the wanted code that has no such record
/// before it, and names none only where no record has that code.
pub proof fn lemma_row_index(snapshot: SnapshotView, key: Seq<char>)
    ensures
        match row_index(snapshot, key) {
            Some(i) => {
                &&& 0 <= i < snapshot.len()
                &&& code_of(snapshot[i]) == Some(key)
                &&& forall|j: int| 0 <= j < i ==> code_of(#[trigger] snapshot[j]) != Some(key)
            },
            None => forall|j: int|
                0 <= j < snapshot.len() ==> code_of(#[trigger] snapshot[j]) != Some(key),
        },
{
    lemma_first_index(snapshot, |record: RecordView| code_of(record) == Some(key));
}

/// Looks up the first record, in snapshot order, whose code equals `key`
/// character for character. Records without a code never match.
pub fn get_row<'a>(snapshot: &'a Snapshot, key: &str) -> (row: Option<&'a Record>)
    ensures
        match row {
            Some(record) => row_of(snapshot@, key@) == Some(record@),
            None => row_of(snapshot@, key@) is None,
        },
{
    let wanted: String = key.to_owned();
    let records = snapshot.records();
    let mut i: usize = 0;
    while i < records.len()
        invariant
            i <= records.len(),
            views_of(records@) == snapshot@,
            wanted@ == key@,
            forall|j: int| 0 <= j < i ==> code_of(#[trigger] snapshot@[j]) != Some(key@),
        decreases records.len() - i,
    {
        let record = &records[i];
        assert(record@ == snapshot@[i as int]);
        let hit = match record.code() {
            Some(code) => *code == wanted,
            None => false,
        };
        if hit {
            proof {
                lemma_first_index_is(
                    snapshot@,
                    |record: RecordView| code_of(record) == Some(key@),
                    i as int,
                );
            }
            return Some(record);
        }
        i += 1;
    }
    proof {
        lemma_row_index(snapshot@, key@);
    }
    None
}

/// Description of the one entity that a snapshot holds.
#[derive(Debug, PartialEq, Eq)]
pub struct SchemaDescriptor {
    pub name: String,
    pub title: String,
    pub id_column: String,
    pub primary_key: Vec<String>,
    pub columns: Vec<String>,
}

/// Mathematical value of a [`SchemaDescriptor`].
pub struct SchemaView {
    pub name: Seq<char>,
    pub title: Seq<char>,
    pub id_column: Seq<char>,
    pub primary_key: Seq<Seq<char>>,
    pub columns: Seq<Seq<char>>,
}

impl View for SchemaDescriptor {
    type V = SchemaView;

    open spec fn view(&self) -> SchemaView {
        SchemaView {
            name: self.name@,
            title: self.title@,
            id_column: self.id_column@,
            primary_key: texts_of(self.primary_key@),
            columns: texts_of(self.columns@),
        }
    }
}

/// The schema of `snapshot`: none for an empty snapshot, else the entity
/// `currency`, identified by `code`, whose columns are the field names of
/// the first record in that record's own field order.
pub open spec fn schema_of(snapshot: SnapshotView) -> Option<SchemaView> {
    if snapshot.len() == 0 {
        None
    } else {
        Some(
            SchemaView {
                name: "currency"@,
                title: "Currency"@,
                id_column: "code"@,
                primary_key: Seq::empty(),
                columns: names_of(snapshot[0]),
            },
        )
    }
}

/// Describes the columns of `snapshot` from its first record. An empty
/// snapshot has no schema; that is an answer, not a failure.
pub fn get_meta_data(snapshot: &Snapshot) -> (schema: Option<SchemaDescriptor>)
    ensures
        match schema {
            Some(entity) => schema_of(snapshot@) == Some(entity@),
            None => schema_of(snapshot@) is None,
        },
{
    match snapshot.get(0) {
        None => None,
        Some(first) => {
            let entity = SchemaDescriptor {
                name: "currency".to_owned(),
                title: "Currency".to_owned(),
                id_column: "code".to_owned(),
                primary_key: Vec::new(),
                columns: first.names(),
            };
            assert(texts_of(entity.primary_key@) =~= Seq::<Seq<char>>::empty());
            Some(entity)
        },
    }
}

} // verus!
