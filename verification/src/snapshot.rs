//! Snapshots: the records of one feed document, in document order.

use crate::record::{Record, RecordView};
use vstd::prelude::*;

verus! {

/// Mathematical value of a [`Snapshot`]: its records in order.
pub type SnapshotView = Seq<RecordView>;

/// The mathematical value of each record of `records`.
pub open spec fn views_of(records: Seq<Record>) -> SnapshotView {
    records.map_values(|record: Record| record@)
}

/// An ordered sequence of records. Once made, a snapshot is only read.
#[derive(Debug, PartialEq, Eq)]
pub struct Snapshot {
    records: Vec<Record>,
}

impl View for Snapshot {
    type V = SnapshotView;

    closed spec fn view(&self) -> SnapshotView {
        views_of(self.records@)
    }
}

impl Snapshot {
    /// The snapshot that holds `records` in the given order.
    pub fn new(records: Vec<Record>) -> (snapshot: Snapshot)
        ensures
            snapshot@ == views_of(records@),
    {
        Snapshot { records }
    }

    /// The records in snapshot order.
    pub fn records(&self) -> (records: &Vec<Record>)
        ensures
            views_of(records@) == self@,
            records@.len() == self@.len(),
    {
        &self.records
    }

    /// Number of records.
    pub fn len(&self) -> (n: usize)
        ensures
            n == self@.len(),
    {
        self.records.len()
    }

    /// The record at position `i`.
    pub fn get(&self, i: usize) -> (record: Option<&Record>)
        ensures
            match record {
                Some(found) => i < self@.len() && found@ == self@[i as int],
                None => i >= self@.len(),
            },
    {
        if i < self.records.len() {
            Some(&self.records[i])
        } else {
            None
        }
    }
}

impl Clone for Snapshot {
    fn clone(&self) -> (copy: Snapshot)
        ensures
            copy@ == self@,
    {
        let mut records: Vec<Record> = Vec::new();
        let mut i: usize = 0;
        while i < self.records.len()
            invariant
                i <= self.records.len(),
                records@.len() == i,
                forall|j: int| 0 <= j < i ==> (#[trigger] records@[j])@ == self@[j],
            decreases self.records.len() - i,
        {
            records.push(self.records[i].clone());
            i += 1;
        }
        assert(views_of(records@) =~= self@);
        Snapshot { records }
    }
}

} // verus!
