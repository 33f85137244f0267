//! Generic walk over a native singly-linked list of name/value entries.
//!
//! Every list the backend exposes — device tags, properties, attribute
//! names, device links, enumeration results, hardware-database records —
//! has the same shape: a chain of entries carrying a name and an optional
//! value.  One cursor type walks them all, lazily, forward-only and
//! non-restartably; the projections that call sites need (names only,
//! paths, mandatory key/value pairs) are thin wrappers over it.

use vstd::prelude::*;

verus! {

/// One node of a native list: a name and an optional value, copied out of
/// the backend's memory so the walk is independent of native lifetimes.
pub struct Entry {
    pub name: String,
    pub value: Option<String>,
}

impl Clone for Entry {
    fn clone(&self) -> (r: Self)
        ensures
            r == *self,
    {
        Entry {
            name: self.name.clone(),
            value: match &self.value {
                Some(v) => Some(v.clone()),
                None => None,
            },
        }
    }
}

/// Clones a whole entry list, preserving it exactly.
pub fn clone_entries(v: &Vec<Entry>) -> (r: Vec<Entry>)
    ensures
        r@ == v@,
{
    let mut out: Vec<Entry> = Vec::new();
    let mut i: usize = 0;
    while i < v.len()
        invariant
            i <= v@.len(),
            out@ == v@.take(i as int),
        decreases v@.len() - i,
    {
        out.push(v[i].clone());
        i = i + 1;
        proof {
            assert(out@ =~= v@.take(i as int));
        }
    }
    proof {
        assert(v@.take(v@.len() as int) =~= v@);
    }
    out
}

/// Position of the first entry of `entries` whose name reads `name`, or
/// the length of the list when no entry carries that name.
pub open spec fn find_index(entries: Seq<Entry>, name: Seq<char>) -> int
    decreases entries.len(),
{
    if entries.len() == 0 {
        0
    } else if entries[0].name@ == name {
        0
    } else {
        1 + find_index(entries.drop_first(), name)
    }
}

/// The first entry of `entries` whose name reads `name`, if any.
pub open spec fn find_entry(entries: Seq<Entry>, name: Seq<char>) -> Option<Entry> {
    if find_index(entries, name) < entries.len() {
        Some(entries[find_index(entries, name)])
    } else {
        None
    }
}

/// The first-match position lies within the list or just past it, carries
/// the sought name where it exists, and no earlier entry carries it.
pub proof fn lemma_find_index_bounds(entries: Seq<Entry>, name: Seq<char>)
    ensures
        0 <= find_index(entries, name) <= entries.len(),
        find_index(entries, name) < entries.len() ==> entries[find_index(
            entries,
            name,
        )].name@ == name,
        forall|j: int| 0 <= j < find_index(entries, name) ==> entries[j].name@ != name,
    decreases entries.len(),
{
    if entries.len() == 0 {
    } else if entries[0].name@ == name {
    } else {
        let rest = entries.drop_first();
        lemma_find_index_bounds(rest, name);
        assert forall|j: int| 0 <= j < find_index(entries, name) implies entries[j].name@
            != name by {
            if j > 0 {
                assert(rest[j - 1] == entries[j]);
            }
        };
    }
}

/// A scan that has passed `i` entries without a name match finds its first
/// match where the rest of the list does.
pub proof fn lemma_find_index_skip(entries: Seq<Entry>, name: Seq<char>, i: int)
    requires
        0 <= i <= entries.len(),
        forall|j: int| 0 <= j < i ==> entries[j].name@ != name,
    ensures
        find_index(entries, name) == i + find_index(entries.skip(i), name),
    decreases i,
{
    if i == 0 {
        assert(entries.skip(0) =~= entries);
    } else {
        let rest = entries.drop_first();
        assert(rest =~= entries.skip(1));
        assert forall|j: int| 0 <= j < i - 1 implies rest[j].name@ != name by {
            assert(rest[j] == entries[j + 1]);
        };
        lemma_find_index_skip(rest, name, i - 1);
        assert(rest.skip(i - 1) =~= entries.skip(i));
    }
}

/// Replacing an entry by one of the same name does not move any first-match
/// position.
pub proof fn lemma_find_index_update_same_name(s: Seq<Entry>, i: int, e: Entry, n: Seq<char>)
    requires
        0 <= i < s.len(),
        e.name@ == s[i].name@,
    ensures
        find_index(s.update(i, e), n) == find_index(s, n),
    decreases s.len(),
{
    let t = s.update(i, e);
    if i == 0 {
        if s[0].name@ != n {
            assert(t.drop_first() =~= s.drop_first());
        }
    } else {
        assert(t[0] == s[0]);
        if s[0].name@ != n {
            assert(t.drop_first() =~= s.drop_first().update(i - 1, e));
            lemma_find_index_update_same_name(s.drop_first(), i - 1, e, n);
        }
    }
}

/// The name-only entry list a plain list of names reads as: one entry per
/// name, with no values.
pub open spec fn name_entries(v: Seq<String>) -> Seq<Entry> {
    Seq::new(v.len(), |i: int| Entry { name: v[i], value: None })
}

/// Materializes a list of names as a value-less entry list.
pub fn names_to_entries(v: &Vec<String>) -> (r: Vec<Entry>)
    ensures
        r@ == name_entries(v@),
{
    let mut out: Vec<Entry> = Vec::new();
    let mut i: usize = 0;
    while i < v.len()
        invariant
            i <= v@.len(),
            out@.len() == i,
            forall|j: int| 0 <= j < i ==> out@[j].name == v@[j] && out@[j].value is None,
        decreases v@.len() - i,
    {
        out.push(Entry { name: v[i].clone(), value: None });
        i = i + 1;
    }
    proof {
        assert(out@ =~= name_entries(v@));
    }
    out
}

/// The generic list cursor: an owner reference plus the entries of the
/// native list it walks and the position of the next entry to yield.
pub struct UdevIterator<'p, T> {
    pub parent: &'p T,
    pub entries: Vec<Entry>,
    pub pos: usize,
}

impl<'p, T> UdevIterator<'p, T> {
    /// The entries this cursor has not yet yielded, in order.
    pub open spec fn remaining(self) -> Seq<Entry> {
        if self.pos <= self.entries@.len() {
            self.entries@.skip(self.pos as int)
        } else {
            Seq::empty()
        }
    }

    /// Yields the next entry's name and optional value, or nothing once the
    /// cursor has reached the terminal state.  The sequence is finite,
    /// forward-only and not restartable.
    pub fn next(&mut self) -> (r: Option<(String, Option<String>)>)
        ensures
            old(self).pos >= old(self).entries@.len() ==> r is None && *final(self) == *old(self),
            old(self).pos < old(self).entries@.len() ==> {
                &&& final(self).pos == old(self).pos + 1
                &&& final(self).entries == old(self).entries
                &&& final(self).parent == old(self).parent
                &&& r matches Some(p) && p.0 == old(self).entries@[old(self).pos as int].name
                    && p.1 == old(self).entries@[old(self).pos as int].value
            },
    {
        if self.pos < self.entries.len() {
            let e = &self.entries[self.pos];
            let name = e.name.clone();
            let value = match &e.value {
                Some(v) => Some(v.clone()),
                None => None,
            };
            self.pos = self.pos + 1;
            Some((name, value))
        } else {
            None
        }
    }

    /// Drains the cursor, returning every remaining entry in order.
    ///
    /// A fresh cursor over an empty list returns nothing; a fresh cursor
    /// over a list of length K returns exactly those K entries, and any two
    /// fresh cursors over the same list return the same sequence.
    pub fn collect_entries(&mut self) -> (r: Vec<Entry>)
        ensures
            r@ == old(self).remaining(),
            final(self).remaining() == Seq::<Entry>::empty(),
    {
        let mut out: Vec<Entry> = Vec::new();
        loop
            invariant
                self.parent == old(self).parent,
                self.entries == old(self).entries,
                old(self).pos <= self.pos,
                out@ + self.remaining() == old(self).remaining(),
            decreases self.entries@.len() - self.pos,
        {
            let ghost prev = *self;
            let ghost out0 = out@;
            match self.next() {
                Some(p) => {
                    out.push(Entry { name: p.0, value: p.1 });
                    proof {
                        let e = prev.entries@[prev.pos as int];
                        assert(out@.last() == e);
                        assert(prev.remaining() =~= seq![e] + self.remaining());
                        assert(out@ + self.remaining() =~= out0 + prev.remaining());
                    }
                },
                None => {
                    proof {
                        assert(self.remaining() =~= Seq::<Entry>::empty());
                        assert(out@ =~= out@ + self.remaining());
                    }
                    return out;
                },
            }
        }
    }
}

/// Walking a native list yields exactly its entries: a fresh cursor has
/// the whole list ahead of it, so a cursor over an empty list yields
/// nothing, one over a list of length K yields its K entries, and two
/// fresh cursors over the same list yield the same sequence.
pub proof fn lemma_fresh_cursor_yields_list<'p, T>(a: UdevIterator<'p, T>, b: UdevIterator<'p, T>)
    requires
        a.pos == 0,
        b.pos == 0,
        a.entries@ == b.entries@,
    ensures
        a.remaining() == a.entries@,
        a.remaining() == b.remaining(),
{
    assert(a.remaining() =~= a.entries@);
    assert(b.remaining() =~= b.entries@);
}

/// Builds the generic cursor over a materialized native list.
pub fn iterator<'a, T>(parent: &'a T, entries: Vec<Entry>) -> (r: UdevIterator<'a, T>)
    ensures
        r.parent == parent,
        r.entries == entries,
        r.pos == 0,
{
    UdevIterator { parent, entries, pos: 0 }
}

/// A cursor projected to entry names read as filesystem paths.
pub struct PathIterator<'a, T> {
    pub iter: UdevIterator<'a, T>,
}

/// Builds a path cursor over a materialized native list.
pub fn path_iterator<'a, T>(parent: &'a T, entries: Vec<Entry>) -> (r: PathIterator<'a, T>)
    ensures
        r.iter.parent == parent,
        r.iter.entries == entries,
        r.iter.pos == 0,
{
    PathIterator { iter: iterator(parent, entries) }
}

impl<'a, T> PathIterator<'a, T> {
    /// Yields the next entry's name as path text, or nothing at the end.
    pub fn next(&mut self) -> (r: Option<String>)
        ensures
            old(self).iter.pos >= old(self).iter.entries@.len() ==> r is None && *final(self) == *old(
                self,
            ),
            old(self).iter.pos < old(self).iter.entries@.len() ==> {
                &&& final(self).iter.pos == old(self).iter.pos + 1
                &&& final(self).iter.entries == old(self).iter.entries
                &&& final(self).iter.parent == old(self).iter.parent
                &&& r matches Some(p) && p == old(self).iter.entries@[old(self).iter.pos as int].name
            },
    {
        match self.iter.next() {
            Some(p) => Some(p.0),
            None => None,
        }
    }
}

/// A cursor projected to entry names alone.
pub struct KeyIterator<'a, T> {
    pub iter: UdevIterator<'a, T>,
}

/// Builds a name cursor over a materialized native list.
pub fn key_iterator<'a, T>(parent: &'a T, entries: Vec<Entry>) -> (r: KeyIterator<'a, T>)
    ensures
        r.iter.parent == parent,
        r.iter.entries == entries,
        r.iter.pos == 0,
{
    KeyIterator { iter: iterator(parent, entries) }
}

impl<'a, T> KeyIterator<'a, T> {
    /// Yields the next entry's name, or nothing at the end.
    pub fn next(&mut self) -> (r: Option<String>)
        ensures
            old(self).iter.pos >= old(self).iter.entries@.len() ==> r is None && *final(self) == *old(
                self,
            ),
            old(self).iter.pos < old(self).iter.entries@.len() ==> {
                &&& final(self).iter.pos == old(self).iter.pos + 1
                &&& final(self).iter.entries == old(self).iter.entries
                &&& final(self).iter.parent == old(self).iter.parent
                &&& r matches Some(p) && p == old(self).iter.entries@[old(self).iter.pos as int].name
            },
    {
        match self.iter.next() {
            Some(p) => Some(p.0),
            None => None,
        }
    }
}

/// Every entry of the list carries a value, as the backend guarantees for
/// lists whose projections claim values are mandatory.
pub open spec fn all_entries_valued(entries: Seq<Entry>) -> bool {
    forall|i: int| 0 <= i < entries.len() ==> entries[i].value is Some
}

/// A cursor projected to mandatory key/value pairs.  It may only be built
/// over a list whose entries all carry values; an entry without one would
/// be an internal-invariant violation of the backend, not a recoverable
/// state.
pub struct KeyValueIterator<'a, T> {
    pub iter: UdevIterator<'a, T>,
}

/// Builds a key/value cursor over a materialized native list whose entries
/// all carry values.
pub fn key_value_iterator<'a, T>(parent: &'a T, entries: Vec<Entry>) -> (r: KeyValueIterator<
    'a,
    T,
>)
    requires
        all_entries_valued(entries@),
    ensures
        r.iter.parent == parent,
        r.iter.entries == entries,
        r.iter.pos == 0,
{
    KeyValueIterator { iter: iterator(parent, entries) }
}

impl<'a, T> KeyValueIterator<'a, T> {
    /// Yields the next entry as a key/value pair, or nothing at the end.
    pub fn next(&mut self) -> (r: Option<(String, String)>)
        requires
            all_entries_valued(old(self).iter.entries@),
        ensures
            old(self).iter.pos >= old(self).iter.entries@.len() ==> r is None && *final(self) == *old(
                self,
            ),
            old(self).iter.pos < old(self).iter.entries@.len() ==> {
                &&& final(self).iter.pos == old(self).iter.pos + 1
                &&& final(self).iter.entries == old(self).iter.entries
                &&& final(self).iter.parent == old(self).iter.parent
                &&& r matches Some(p) && p.0 == old(self).iter.entries@[old(
                    self,
                ).iter.pos as int].name && Some(p.1) == old(self).iter.entries@[old(
                    self,
                ).iter.pos as int].value
            },
    {
        match self.iter.next() {
            Some(p) => {
                match p.1 {
                    Some(v) => Some((p.0, v)),
                    None => None,  // unreachable: every entry carries a value
                }
            },
            None => None,
        }
    }
}

/// A cursor projected to key/optional-value pairs.
pub struct KeyOptValueIterator<'a, T> {
    pub iter: UdevIterator<'a, T>,
}

/// Builds a key/optional-value cursor over a materialized native list.
pub fn key_opt_value_iterator<'a, T>(parent: &'a T, entries: Vec<Entry>) -> (r: KeyOptValueIterator<
    'a,
    T,
>)
    ensures
        r.iter.parent == parent,
        r.iter.entries == entries,
        r.iter.pos == 0,
{
    KeyOptValueIterator { iter: iterator(parent, entries) }
}

impl<'a, T> KeyOptValueIterator<'a, T> {
    /// Yields the next entry's name and optional value, or nothing at the
    /// end.
    pub fn next(&mut self) -> (r: Option<(String, Option<String>)>)
        ensures
            old(self).iter.pos >= old(self).iter.entries@.len() ==> r is None && *final(self) == *old(
                self,
            ),
            old(self).iter.pos < old(self).iter.entries@.len() ==> {
                &&& final(self).iter.pos == old(self).iter.pos + 1
                &&& final(self).iter.entries == old(self).iter.entries
                &&& final(self).iter.parent == old(self).iter.parent
                &&& r matches Some(p) && p.0 == old(self).iter.entries@[old(
                    self,
                ).iter.pos as int].name && p.1 == old(self).iter.entries@[old(
                    self,
                ).iter.pos as int].value
            },
    {
        self.iter.next()
    }
}

} // verus!
