//! From request parameters to answers.
//!
//! A request arrives as a record of parameters. [`handle_get`] reads the
//! `action` and says what is to be done; a lookup key arrives as the text of
//! an envelope, which the host decodes and [`lookup_plan`] reads; and
//! [`answer`] runs a query on the snapshot and pairs the result with its
//! status. [`handle_dmd`] plans the pass-through of a stored document.

use crate::query::{
    get_meta_data, get_row, get_rows, row_of, schema_of, Rows, SchemaDescriptor, SchemaView,
};
use crate::record::{code_of, value_of, Record, RecordView, Scalar, ScalarView};
use crate::snapshot::{views_of, Snapshot, SnapshotView};
use vstd::prelude::*;

verus! {

/// Said where a request names no action.
pub const ACTION_MISSING: &'static str = "action missing";

/// Said where a request names an action that does not exist.
pub const ACTION_NOT_FOUND: &'static str = "action not found";

/// Said where a lookup comes without a usable key.
pub const INVALID_KEY: &'static str = "invalid key";

/// Said where no record has the code that was asked for.
pub const CURRENCY_NOT_FOUND: &'static str = "Currency not found";

/// Said where a document is asked for without its name.
pub const FILE_NOT_FOUND: &'static str = "File not found";

/// Said where the named document does not exist.
pub const INVALID_PATH: &'static str = "Invalid path";

/// Directory of the stored documents, before expansion by the host.
pub const DOCUMENT_DIR: &'static str = "$POPATH/../projects/portfolio_6";

/// The status that goes out with an answer.
#[derive(Clone, Copy, Debug, PartialEq, Eq, Structural)]
pub enum Status {
    Success,
    NotFound,
    NotAcceptable,
}

impl Status {
    /// The number of the status on the wire.
    pub open spec fn spec_code(self) -> u16 {
        match self {
            Status::Success => 200,
            Status::NotFound => 404,
            Status::NotAcceptable => 406,
        }
    }

    /// The number of the status on the wire.
    #[verifier::when_used_as_spec(spec_code)]
    pub fn code(self) -> (code: u16)
        ensures
            code == self.spec_code(),
    {
        match self {
            Status::Success => 200,
            Status::NotFound => 404,
            Status::NotAcceptable => 406,
        }
    }
}

/// A query on the snapshot.
#[derive(Debug, PartialEq, Eq)]
pub enum Query {
    /// Every row.
    Rows,
    /// The row with this code.
    Row { code: String },
    /// The schema.
    Meta,
}

/// Mathematical value of a [`Query`].
pub enum QueryView {
    Rows,
    Row { code: Seq<char> },
    Meta,
}

impl View for Query {
    type V = QueryView;

    open spec fn view(&self) -> QueryView {
        match self {
            Query::Rows => QueryView::Rows,
            Query::Row { code } => QueryView::Row { code: code@ },
            Query::Meta => QueryView::Meta,
        }
    }
}

/// Why a request is turned down before any query runs.
#[derive(Clone, Copy, Debug, PartialEq, Eq, Structural)]
pub enum Refusal {
    ActionMissing,
    ActionNotFound,
    InvalidKey,
}

impl Refusal {
    /// The status that a refusal goes out with.
    pub open spec fn spec_status(self) -> Status {
        match self {
            Refusal::ActionMissing => Status::NotFound,
            Refusal::ActionNotFound => Status::NotFound,
            Refusal::InvalidKey => Status::NotAcceptable,
        }
    }

    /// The words that a refusal goes out with.
    pub open spec fn spec_message(self) -> Seq<char> {
        match self {
            Refusal::ActionMissing => ACTION_MISSING@,
            Refusal::ActionNotFound => ACTION_NOT_FOUND@,
            Refusal::InvalidKey => INVALID_KEY@,
        }
    }

    /// The status that a refusal goes out with.
    #[verifier::when_used_as_spec(spec_status)]
    pub fn status(self) -> (status: Status)
        ensures
            status == self.spec_status(),
    {
        match self {
            Refusal::ActionMissing => Status::NotFound,
            Refusal::ActionNotFound => Status::NotFound,
            Refusal::InvalidKey => Status::NotAcceptable,
        }
    }

    /// The words that a refusal goes out with.
    pub fn message(self) -> (message: &'static str)
        ensures
            message@ == self.spec_message(),
    {
        match self {
            Refusal::ActionMissing => ACTION_MISSING,
            Refusal::ActionNotFound => ACTION_NOT_FOUND,
            Refusal::InvalidKey => INVALID_KEY,
        }
    }
}

/// What is to be done about a request.
#[derive(Debug, PartialEq, Eq)]
pub enum Plan {
    /// Run this query on the snapshot.
    Run(Query),
    /// Decode this text, the envelope of a lookup key, and hand what it
    /// holds to [`lookup_plan`].
    Decode { envelope: String },
    /// Turn the request down.
    Refuse(Refusal),
}

/// Mathematical value of a [`Plan`].
pub enum PlanView {
    Run(QueryView),
    Decode { envelope: Seq<char> },
    Refuse(Refusal),
}

impl View for Plan {
    type V = PlanView;

    open spec fn view(&self) -> PlanView {
        match self {
            Plan::Run(query) => PlanView::Run(query@),
            Plan::Decode { envelope } => PlanView::Decode { envelope: envelope@ },
            Plan::Refuse(refusal) => PlanView::Refuse(*refusal),
        }
    }
}

/// The plan for a request with these parameters. A request without an
/// `action` is turned down as missing one. `getRows` and `getMeta` run
/// their queries. `getRow` needs a `key` that is a text, the envelope to
/// decode; without one the key is invalid. Any other action, or one that is
/// no text, is not found.
pub open spec fn plan_of(payload: RecordView) -> PlanView {
    match value_of(payload, "action"@) {
        None => PlanView::Refuse(Refusal::ActionMissing),
        Some(ScalarView::Text(action)) => if action == "getRows"@ {
            PlanView::Run(QueryView::Rows)
        } else if action == "getRow"@ {
            match value_of(payload, "key"@) {
                Some(ScalarView::Text(envelope)) => PlanView::Decode { envelope },
                _ => PlanView::Refuse(Refusal::InvalidKey),
            }
        } else if action == "getMeta"@ {
            PlanView::Run(QueryView::Meta)
        } else {
            PlanView::Refuse(Refusal::ActionNotFound)
        },
        Some(_) => PlanView::Refuse(Refusal::ActionNotFound),
    }
}

/// The query for a lookup whose envelope decoded to `envelope`, or did not
/// decode at all: the lookup of the envelope's code, and a refusal of the
/// key where there is no envelope or no code in it.
pub open spec fn lookup_of(envelope: Option<RecordView>) -> Result<QueryView, Refusal> {
    match envelope {
        Some(fields) => match code_of(fields) {
            Some(code) => Ok(QueryView::Row { code }),
            None => Err(Refusal::InvalidKey),
        },
        None => Err(Refusal::InvalidKey),
    }
}

/// Whether `text` reads exactly `word`.
fn reads(text: &String, word: &str) -> (same: bool)
    ensures
        same == (text@ == word@),
{
    let wanted: String = word.to_owned();
    *text == wanted
}

/// Plans what to do about a request from its parameters.
pub fn handle_get(payload: &Record) -> (plan: Plan)
    ensures
        plan@ == plan_of(payload@),
{
    match payload.get("action") {
        None => Plan::Refuse(Refusal::ActionMissing),
        Some(Scalar::Text(action)) => {
            if reads(action, "getRows") {
                Plan::Run(Query::Rows)
            } else if reads(action, "getRow") {
                match payload.get("key") {
                    Some(Scalar::Text(envelope)) => Plan::Decode { envelope: envelope.clone() },
                    _ => Plan::Refuse(Refusal::InvalidKey),
                }
            } else if reads(action, "getMeta") {
                Plan::Run(Query::Meta)
            } else {
                Plan::Refuse(Refusal::ActionNotFound)
            }
        },
        Some(_) => Plan::Refuse(Refusal::ActionNotFound),
    }
}

/// Plans a lookup from its decoded envelope; `None` stands for an envelope
/// that could not be decoded.
pub fn lookup_plan(envelope: Option<&Record>) -> (plan: Result<Query, Refusal>)
    ensures
        match plan {
            Ok(query) => lookup_of(
                match envelope {
                    Some(fields) => Some(fields@),
                    None => None,
                },
            ) == Ok::<QueryView, Refusal>(query@),
            Err(refusal) => lookup_of(
                match envelope {
                    Some(fields) => Some(fields@),
                    None => None,
                },
            ) == Err::<QueryView, Refusal>(refusal),
        },
{
    match envelope {
        Some(fields) => match fields.code() {
            Some(code) => Ok(Query::Row { code: code.clone() }),
            None => Err(Refusal::InvalidKey),
        },
        None => Err(Refusal::InvalidKey),
    }
}

/// What goes out in answer to a request.
#[derive(Debug, PartialEq, Eq)]
pub enum Body<'a> {
    Rows(Rows<'a>),
    Row(&'a Record),
    Meta(Option<SchemaDescriptor>),
    Message(&'static str),
}

/// Mathematical value of a [`Body`].
pub enum BodyView {
    Rows { rows: SnapshotView, total: nat },
    Row(RecordView),
    Meta(Option<SchemaView>),
    Message(Seq<char>),
}

impl<'a> View for Body<'a> {
    type V = BodyView;

    open spec fn view(&self) -> BodyView {
        match self {
            Body::Rows(page) => BodyView::Rows {
                rows: views_of(page.rows@),
                total: page.total as nat,
            },
            Body::Row(record) => BodyView::Row(record@),
            Body::Meta(schema) => BodyView::Meta(
                match schema {
                    Some(entity) => Some(entity@),
                    None => None,
                },
            ),
            Body::Message(words) => BodyView::Message(words@),
        }
    }
}

/// An answer with its status.
#[derive(Debug, PartialEq, Eq)]
pub struct Response<'a> {
    pub status: Status,
    pub body: Body<'a>,
}

/// Mathematical value of a [`Response`].
pub struct ResponseView {
    pub status: Status,
    pub body: BodyView,
}

impl<'a> View for Response<'a> {
    type V = ResponseView;

    open spec fn view(&self) -> ResponseView {
        ResponseView { status: self.status, body: self.body@ }
    }
}

/// The answer to `query` on `snapshot`. Rows and schema always succeed. A
/// lookup succeeds with the first record of that code, and is not
/// acceptable where no record has it.
pub open spec fn answer_of(query: QueryView, snapshot: SnapshotView) -> ResponseView {
    match query {
        QueryView::Rows => ResponseView {
            status: Status::Success,
            body: BodyView::Rows { rows: snapshot, total: snapshot.len() },
        },
        QueryView::Row { code } => match row_of(snapshot, code) {
            Some(record) => ResponseView { status: Status::Success, body: BodyView::Row(record) },
            None => ResponseView {
                status: Status::NotAcceptable,
                body: BodyView::Message(CURRENCY_NOT_FOUND@),
            },
        },
        QueryView::Meta => ResponseView {
            status: Status::Success,
            body: BodyView::Meta(schema_of(snapshot)),
        },
    }
}

/// The answer that turns a request down.
pub open spec fn refusal_of(refusal: Refusal) -> ResponseView {
    ResponseView { status: refusal.spec_status(), body: BodyView::Message(refusal.spec_message()) }
}

/// Runs `query` on `snapshot` and pairs the result with its status.
pub fn answer<'a>(query: &Query, snapshot: &'a Snapshot) -> (response: Response<'a>)
    ensures
        response@ == answer_of(query@, snapshot@),
{
    match query {
        Query::Rows => Response { status: Status::Success, body: Body::Rows(get_rows(snapshot)) },
        Query::Row { code } => match get_row(snapshot, code.as_str()) {
            Some(record) => Response { status: Status::Success, body: Body::Row(record) },
            None => Response {
                status: Status::NotAcceptable,
                body: Body::Message(CURRENCY_NOT_FOUND),
            },
        },
        Query::Meta => Response { status: Status::Success, body: Body::Meta(get_meta_data(snapshot)) },
    }
}

/// Words a refusal as an answer.
pub fn refuse(refusal: Refusal) -> (response: Response<'static>)
    ensures
        response@ == refusal_of(refusal),
{
    Response { status: refusal.status(), body: Body::Message(refusal.message()) }
}

/// What is to be done about a request for a stored document.
#[derive(Debug, PartialEq, Eq)]
pub enum DocumentPlan {
    /// Read the document `name` below the directory `dir`.
    Read { dir: &'static str, name: String },
    /// Answer with these words.
    Reply(&'static str),
}

/// Mathematical value of a [`DocumentPlan`].
pub enum DocumentPlanView {
    Read { dir: Seq<char>, name: Seq<char> },
    Reply(Seq<char>),
}

impl View for DocumentPlan {
    type V = DocumentPlanView;

    open spec fn view(&self) -> DocumentPlanView {
        match self {
            DocumentPlan::Read { dir, name } => DocumentPlanView::Read { dir: dir@, name: name@ },
            DocumentPlan::Reply(words) => DocumentPlanView::Reply(words@),
        }
    }
}

/// The plan for a document request with these parameters: the document
/// named by the text under `dmd`, and a reply that the file is not found
/// where there is no such text.
pub open spec fn document_plan_of(payload: RecordView) -> DocumentPlanView {
    match value_of(payload, "dmd"@) {
        Some(ScalarView::Text(name)) => DocumentPlanView::Read { dir: DOCUMENT_DIR@, name },
        _ => DocumentPlanView::Reply(FILE_NOT_FOUND@),
    }
}

/// Plans the pass-through of a stored document from the request's
/// parameters. Where the host then finds no document of that name, the
/// answer is [`INVALID_PATH`].
pub fn handle_dmd(payload: &Record) -> (plan: DocumentPlan)
    ensures
        plan@ == document_plan_of(payload@),
{
    match payload.get("dmd") {
        Some(Scalar::Text(name)) => DocumentPlan::Read { dir: DOCUMENT_DIR, name: name.clone() },
        _ => DocumentPlan::Reply(FILE_NOT_FOUND),
    }
}

} // verus!
