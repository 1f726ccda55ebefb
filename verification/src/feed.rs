//! The remote rate feed: what a transfer from it may look like and which
//! transfers yield a snapshot.
//!
//! The feed document is an object whose members are the records. A member's
//! key is not taken to be the record's code and is dropped; only the order of
//! the members is kept.

use crate::record::{Record, RecordView};
use crate::snapshot::{views_of, Snapshot, SnapshotView};
use vstd::prelude::*;

verus! {

/// Address of the daily rate feed.
pub const FEED_URL: &'static str = "http://www.floatrates.com/daily/dkk.json";

/// Why a fetch of the feed gave no snapshot.
#[derive(Clone, Copy, Debug, PartialEq, Eq, Structural)]
pub enum RemoteFetchError {
    /// The feed could not be reached or the transfer broke off.
    Network,
    /// The feed answered with a status outside the success range.
    Status(u16),
    /// The answer's body was not a document of records.
    Decode,
}

/// One member of the feed document.
#[derive(Debug, PartialEq, Eq)]
pub struct Entry {
    pub key: String,
    pub record: Record,
}

/// Mathematical value of an [`Entry`].
pub struct EntryView {
    pub key: Seq<char>,
    pub record: RecordView,
}

impl View for Entry {
    type V = EntryView;

    open spec fn view(&self) -> EntryView {
        EntryView { key: self.key@, record: self.record@ }
    }
}

/// A decoded feed document: its members in document order.
#[derive(Debug, PartialEq, Eq)]
pub struct Document {
    pub entries: Vec<Entry>,
}

impl View for Document {
    type V = Seq<EntryView>;

    open spec fn view(&self) -> Seq<EntryView> {
        self.entries@.map_values(|entry: Entry| entry@)
    }
}

/// What came back from one request to the feed.
#[derive(Debug, PartialEq, Eq)]
pub enum Transfer {
    /// No answer arrived.
    Failed,
    /// An answer arrived; `body` is absent where it could not be decoded.
    Completed { status: u16, body: Option<Document> },
}

/// Mathematical value of a [`Transfer`].
pub enum TransferView {
    Failed,
    Completed { status: u16, body: Option<Seq<EntryView>> },
}

impl View for Transfer {
    type V = TransferView;

    open spec fn view(&self) -> TransferView {
        match self {
            Transfer::Failed => TransferView::Failed,
            Transfer::Completed { status, body } => TransferView::Completed {
                status: *status,
                body: match body {
                    Some(document) => Some(document@),
                    None => None,
                },
            },
        }
    }
}

/// What a fetch ends in: the snapshot it brought, or the reason for none.
pub type FetchOutcome = Result<Snapshot, RemoteFetchError>;

/// Mathematical value of a [`FetchOutcome`].
pub type FetchOutcomeView = Result<SnapshotView, RemoteFetchError>;

/// The mathematical value of `outcome`.
pub open spec fn outcome_view(outcome: FetchOutcome) -> FetchOutcomeView {
    match outcome {
        Ok(snapshot) => Ok(snapshot@),
        Err(error) => Err(error),
    }
}

/// The records of `document` in document order, keys dropped.
pub open spec fn records_of(document: Seq<EntryView>) -> SnapshotView {
    document.map_values(|entry: EntryView| entry.record)
}

/// Statuses that count as success.
pub open spec fn is_success(status: u16) -> bool {
    200 <= status <= 299
}

/// What `transfer` yields: no answer is a network failure, an answer outside
/// the success range is refused with its status, a body that is no document
/// is a decode failure, and anything else yields the document's records.
pub open spec fn received(transfer: TransferView) -> FetchOutcomeView {
    match transfer {
        TransferView::Failed => Err(RemoteFetchError::Network),
        TransferView::Completed { status, body } => if !is_success(status) {
            Err(RemoteFetchError::Status(status))
        } else {
            match body {
                None => Err(RemoteFetchError::Decode),
                Some(document) => Ok(records_of(document)),
            }
        },
    }
}

/// Builds the snapshot of `document`: every record, in document order.
pub fn into_snapshot(document: Document) -> (snapshot: Snapshot)
    ensures
        snapshot@ == records_of(document@),
{
    let ghost wanted = records_of(document@);
    let mut records: Vec<Record> = Vec::new();
    for entry in iter: document.entries
        invariant
            iter.seq().map_values(|entry: Entry| entry@.record) == wanted,
            records@.len() == iter.index(),
            forall|j: int| 0 <= j < iter.index() ==> (#[trigger] records@[j])@ == wanted[j],
    {
        records.push(entry.record);
    }
    assert(views_of(records@) =~= wanted);
    Snapshot::new(records)
}

/// Turns what came back from one request into a snapshot, or says why there
/// is none. Nothing is retried here.
pub fn receive(transfer: Transfer) -> (outcome: FetchOutcome)
    ensures
        outcome_view(outcome) == received(transfer@),
{
    match transfer {
        Transfer::Failed => Err(RemoteFetchError::Network),
        Transfer::Completed { status, body } => {
            if status < 200 || status > 299 {
                Err(RemoteFetchError::Status(status))
            } else {
                match body {
                    None => Err(RemoteFetchError::Decode),
                    Some(document) => Ok(into_snapshot(document)),
                }
            }
        },
    }
}

} // verus!
