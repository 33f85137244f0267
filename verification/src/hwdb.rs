//! The hardware-database handle.
//!
//! The hardware database maps a modalias-like key to a list of declarative
//! properties.  A query borrows the handle exclusively for its lifetime —
//! the backend supports one active query at a time, and the borrow makes a
//! second one impossible to hold — and walks its results through the
//! generic list iterator, with every entry guaranteed to carry a value.

use vstd::prelude::*;

verus! {

use crate::iterator::{Entry, KeyValueIterator, all_entries_valued, clone_entries, key_value_iterator};
use crate::udev::Udev;
use crate::util::str_eq;

/// One hardware-database record: a modalias key and the properties it
/// declares.
pub struct HwdbRecord {
    pub modalias: String,
    pub properties: Vec<Entry>,
}

/// A well-formed record carries a non-empty value with every property, as
/// the backend guarantees for hardware-database entries.
pub open spec fn hwdb_record_wf(r: HwdbRecord) -> bool {
    forall|i: int|
        0 <= i < r.properties@.len() ==> (#[trigger] r.properties@[i].value matches Some(v)
            && v@.len() > 0)
}

/// The properties of the first record keyed by `modalias`, or the empty
/// list where no record matches: an unknown key is not an error.
pub open spec fn hwdb_lookup(records: Seq<HwdbRecord>, modalias: Seq<char>) -> Seq<Entry>
    decreases records.len(),
{
    if records.len() == 0 {
        Seq::empty()
    } else if records[0].modalias@ == modalias {
        records[0].properties@
    } else {
        hwdb_lookup(records.drop_first(), modalias)
    }
}

/// A scan that has passed `i` records without a key match resolves the
/// query where the rest of the list does.
pub proof fn lemma_hwdb_lookup_skip(records: Seq<HwdbRecord>, modalias: Seq<char>, i: int)
    requires
        0 <= i <= records.len(),
        forall|j: int| 0 <= j < i ==> records[j].modalias@ != modalias,
    ensures
        hwdb_lookup(records, modalias) == hwdb_lookup(records.skip(i), modalias),
    decreases i,
{
    if i > 0 {
        let rest = records.drop_first();
        assert(rest =~= records.skip(1));
        assert forall|j: int| 0 <= j < i - 1 implies rest[j].modalias@ != modalias by {
            assert(rest[j] == records[j + 1]);
        };
        lemma_hwdb_lookup_skip(rest, modalias, i - 1);
        assert(rest.skip(i - 1) =~= records.skip(i));
    } else {
        assert(records.skip(0) =~= records);
    }
}

/// A query on a well-formed database yields only pairs whose values are
/// present and non-empty, and a key no record carries yields the empty
/// list rather than an error.
pub proof fn lemma_query_values(records: Seq<HwdbRecord>, modalias: Seq<char>)
    requires
        forall|k: int| 0 <= k < records.len() ==> hwdb_record_wf(#[trigger] records[k]),
    ensures
        all_entries_valued(hwdb_lookup(records, modalias)),
        forall|i: int|
            0 <= i < hwdb_lookup(records, modalias).len() ==> (#[trigger] hwdb_lookup(
                records,
                modalias,
            )[i].value matches Some(v) && v@.len() > 0),
        (forall|k: int| 0 <= k < records.len() ==> records[k].modalias@ != modalias)
            ==> hwdb_lookup(records, modalias) == Seq::<Entry>::empty(),
    decreases records.len(),
{
    if records.len() > 0 {
        let rest = records.drop_first();
        assert forall|k: int| 0 <= k < rest.len() implies hwdb_record_wf(#[trigger] rest[k]) by {
            assert(rest[k] == records[k + 1]);
        };
        lemma_query_values(rest, modalias);
        if records[0].modalias@ == modalias {
            assert(hwdb_record_wf(records[0]));
        } else {
            assert forall|k: int| 0 <= k < rest.len() implies rest[k] == records[k + 1] by {};
        }
    }
}

/// A handle on the hardware database, borrowing its context.
pub struct Hwdb<'u> {
    pub udev: &'u Udev,
}

/// Wraps an opened hardware database.
pub fn hwdb<'u>(udev: &'u Udev) -> (r: Hwdb<'u>)
    ensures
        r.udev == udev,
{
    Hwdb { udev }
}

/// One query's results: the properties the database declares for the key
/// it was asked about.  The query keeps the database handle exclusively
/// borrowed for its own lifetime.
pub struct HwdbQuery<'h, 'u> {
    pub hwdb: &'h Hwdb<'u>,
    pub entries: Vec<Entry>,
}

/// The other name a hardware-database query goes by.
pub type Query<'h, 'u> = HwdbQuery<'h, 'u>;

impl<'u> Hwdb<'u> {
    /// The context this handle was created from.
    pub fn udev(&self) -> (r: &'u Udev)
        ensures
            r == self.udev,
    {
        self.udev
    }

    /// Queries the database for a modalias key.  Only one query can exist
    /// at a time: the query holds the exclusive borrow this method takes.
    pub fn query<'s>(&'s mut self, modalias: &str) -> (r: HwdbQuery<'s, 'u>)
        ensures
            *final(self) == *old(self),
            r.hwdb == *old(self),
            r.entries@ == hwdb_lookup(old(self).udev.hwdb_records@, modalias@),
    {
        let records = &self.udev.hwdb_records;
        let mut i: usize = 0;
        while i < records.len()
            invariant
                *self == *old(self),
                records@ == old(self).udev.hwdb_records@,
                i <= records@.len(),
                forall|j: int| 0 <= j < i ==> records@[j].modalias@ != modalias@,
            decreases records@.len() - i,
        {
            if str_eq(modalias, &records[i].modalias) {
                proof {
                    lemma_hwdb_lookup_skip(records@, modalias@, i as int);
                    assert(records@.skip(i as int)[0] == records@[i as int]);
                    assert(records@.skip(i as int).len() > 0);
                    assert(hwdb_lookup(records@.skip(i as int), modalias@) == records@[i as int].properties@);
                }
                let entries = clone_entries(&records[i].properties);
                return HwdbQuery { hwdb: self, entries };
            }
            i = i + 1;
        }
        proof {
            lemma_hwdb_lookup_skip(records@, modalias@, records@.len() as int);
            assert(records@.skip(records@.len() as int) =~= Seq::<HwdbRecord>::empty());
        }
        HwdbQuery { hwdb: self, entries: Vec::new() }
    }
}

impl<'h, 'u> HwdbQuery<'h, 'u> {
    /// Walks the properties this query returned as mandatory key/value
    /// pairs; hardware-database entries always carry a value.
    pub fn iter<'s>(&'s self) -> (r: KeyValueIterator<'s, HwdbQuery<'h, 'u>>)
        requires
            all_entries_valued(self.entries@),
        ensures
            r.iter.parent == self,
            r.iter.pos == 0,
            r.iter.entries@ == self.entries@,
    {
        key_value_iterator(self, clone_entries(&self.entries))
    }
}

} // verus!
