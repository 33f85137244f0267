//! The device enumerator.
//!
//! An enumerator accumulates filter constraints builder-style — each
//! filter method consumes the handle and returns it with one more
//! constraint — and scans populate its result list with the sysfs paths
//! of matching devices, additively: scanning twice, or scanning both
//! devices and subsystems, unions the result sets.  Within one filter
//! kind repeated constraints are alternatives; across kinds they all
//! bind.  The parent constraint is the one exception to accumulation: a
//! new parent replaces the old one, and clearing it removes it.
//!
//! Matching is defined over the filter list as a set, so the order in
//! which commuting filters were applied cannot change a scan's outcome.

use vstd::prelude::*;

verus! {

use crate::device::{
    Device,
    DeviceRecord,
    contains_str,
    record_eq,
    self_or_ancestor_has_syspath,
    subsystem_is,
};
use crate::iterator::{Entry, PathIterator, name_entries, names_to_entries, path_iterator};
use crate::udev::{Udev, lookup_syspath};
use crate::util::str_eq;

/// One filter constraint accumulated on an enumerator.
pub enum Filter {
    /// Include devices of this subsystem.
    Subsystem(String),
    /// Exclude devices of this subsystem.
    NotSubsystem(String),
    /// Include devices carrying this attribute, with this value where one
    /// is given.
    Attribute(String, Option<String>),
    /// Exclude devices carrying this attribute, with this value where one
    /// is given.
    NotAttribute(String, Option<String>),
    /// Include devices carrying this property, with this value where one
    /// is given.
    Property(String, Option<String>),
    /// Include devices carrying this tag.
    Tag(String),
    /// Include only devices the backend has initialized.
    Initialized,
    /// Include devices with this device name.
    Sysname(String),
}

/// The entry satisfies an optional value constraint: no constraint, or a
/// present value reading the constrained text.
pub open spec fn entry_value_is(e: Entry, v: Option<String>) -> bool {
    match v {
        None => true,
        Some(x) => e.value matches Some(y) && y@ == x@,
    }
}

/// Some entry of the list carries the name `k` and satisfies the value
/// constraint `v`.
pub open spec fn has_entry_matching(entries: Seq<Entry>, k: Seq<char>, v: Option<String>) -> bool {
    exists|i: int|
        0 <= i < entries.len() && (#[trigger] entries[i]).name@ == k && entry_value_is(
            entries[i],
            v,
        )
}

/// Where any subsystem filter was given, one of them names the device's
/// subsystem.
pub open spec fn subsystem_clause(d: DeviceRecord, fs: Seq<Filter>) -> bool {
    (exists|i: int| 0 <= i < fs.len() && (#[trigger] fs[i]) is Subsystem) ==> exists|i: int|
        0 <= i < fs.len() && ((#[trigger] fs[i]) matches Filter::Subsystem(s) && subsystem_is(
            d,
            s@,
        ))
}

/// No exclusion filter names the device's subsystem.
pub open spec fn not_subsystem_clause(d: DeviceRecord, fs: Seq<Filter>) -> bool {
    forall|i: int|
        0 <= i < fs.len() ==> ((#[trigger] fs[i]) matches Filter::NotSubsystem(s)
            ==> !subsystem_is(d, s@))
}

/// Where any attribute filter was given, the device satisfies one of
/// them.
pub open spec fn attribute_clause(d: DeviceRecord, fs: Seq<Filter>) -> bool {
    (exists|i: int| 0 <= i < fs.len() && (#[trigger] fs[i]) is Attribute) ==> exists|i: int|
        0 <= i < fs.len() && ((#[trigger] fs[i]) matches Filter::Attribute(k, v)
            && has_entry_matching(d.sysattrs@, k@, v))
}

/// The device satisfies no attribute exclusion.
pub open spec fn not_attribute_clause(d: DeviceRecord, fs: Seq<Filter>) -> bool {
    forall|i: int|
        0 <= i < fs.len() ==> ((#[trigger] fs[i]) matches Filter::NotAttribute(k, v)
            ==> !has_entry_matching(d.sysattrs@, k@, v))
}

/// Where any property filter was given, the device satisfies one of
/// them.
pub open spec fn property_clause(d: DeviceRecord, fs: Seq<Filter>) -> bool {
    (exists|i: int| 0 <= i < fs.len() && (#[trigger] fs[i]) is Property) ==> exists|i: int|
        0 <= i < fs.len() && ((#[trigger] fs[i]) matches Filter::Property(k, v)
            && has_entry_matching(d.properties@, k@, v))
}

/// Where any tag filter was given, the device carries one of the tags.
pub open spec fn tag_clause(d: DeviceRecord, fs: Seq<Filter>) -> bool {
    (exists|i: int| 0 <= i < fs.len() && (#[trigger] fs[i]) is Tag) ==> exists|i: int|
        0 <= i < fs.len() && ((#[trigger] fs[i]) matches Filter::Tag(t) && contains_str(
            d.tags@,
            t@,
        ))
}

/// Where initialization was required, the device is initialized.
pub open spec fn initialized_clause(d: DeviceRecord, fs: Seq<Filter>) -> bool {
    (exists|i: int| 0 <= i < fs.len() && (#[trigger] fs[i]) is Initialized) ==> d.initialized
}

/// Where any device-name filter was given, one of them names the device.
pub open spec fn sysname_clause(d: DeviceRecord, fs: Seq<Filter>) -> bool {
    (exists|i: int| 0 <= i < fs.len() && (#[trigger] fs[i]) is Sysname) ==> exists|i: int|
        0 <= i < fs.len() && ((#[trigger] fs[i]) matches Filter::Sysname(n) && d.sysname@ == n@)
}

/// The device satisfies every accumulated filter: within each filter
/// kind the constraints are alternatives — one of them must hold, where
/// any were given — and exclusions rule the device out whenever one of
/// them holds.  Only the filters' presence and text matter, not their
/// order.
pub open spec fn matches_filters(d: DeviceRecord, fs: Seq<Filter>) -> bool {
    &&& subsystem_clause(d, fs)
    &&& not_subsystem_clause(d, fs)
    &&& attribute_clause(d, fs)
    &&& not_attribute_clause(d, fs)
    &&& property_clause(d, fs)
    &&& tag_clause(d, fs)
    &&& initialized_clause(d, fs)
    &&& sysname_clause(d, fs)
}

/// The device satisfies the accumulated filters and, where a parent
/// constraint stands, is the constrained device or one of its
/// descendants.
pub open spec fn matches(d: DeviceRecord, fs: Seq<Filter>, parent: Option<String>) -> bool {
    matches_filters(d, fs) && (parent matches Some(p) ==> self_or_ancestor_has_syspath(d, p@))
}

/// The sysfs paths of the devices of `devs` that a scan adds, in order:
/// those on the scanned side — subsystem entries for a subsystem scan,
/// ordinary devices otherwise — that satisfy the filters.
pub open spec fn matching_paths(
    devs: Seq<DeviceRecord>,
    fs: Seq<Filter>,
    parent: Option<String>,
    subsystem_scan: bool,
) -> Seq<String>
    decreases devs.len(),
{
    if devs.len() == 0 {
        Seq::empty()
    } else {
        let rest = matching_paths(devs.drop_first(), fs, parent, subsystem_scan);
        if devs[0].subsystem_entry == subsystem_scan && matches(devs[0], fs, parent) {
            seq![devs[0].syspath] + rest
        } else {
            rest
        }
    }
}

/// A device enumerator: a borrowed context, the accumulated filters, the
/// current parent constraint, and the result list scans have built up.
pub struct Enumerator<'u> {
    pub udev: &'u Udev,
    pub filters: Vec<Filter>,
    /// The sysfs path of the parent constraint, if one stands.
    pub parent: Option<String>,
    /// Accumulated sysfs paths of matched devices.
    pub results: Vec<String>,
}

/// Wraps a freshly created native enumerator.
pub fn enumerator<'u>(udev: &'u Udev) -> (r: Enumerator<'u>)
    ensures
        r.udev == udev,
        r.filters@ == Seq::<Filter>::empty(),
        r.parent is None,
        r.results@ == Seq::<String>::empty(),
{
    Enumerator { udev, filters: Vec::new(), parent: None, results: Vec::new() }
}

impl<'u> Enumerator<'u> {
    /// The context this handle was created from.
    pub fn udev(&self) -> (r: &'u Udev)
        ensures
            r == self.udev,
    {
        self.udev
    }

    /// Include devices of this subsystem: future scans add devices that
    /// match it or a subsystem given earlier.
    pub fn match_subsystem(self, subsystem: &str) -> (r: Enumerator<'u>)
        ensures
            r.udev == self.udev,
            r.parent == self.parent,
            r.results == self.results,
            r.filters@.len() == self.filters@.len() + 1,
            r.filters@.take(self.filters@.len() as int) == self.filters@,
            r.filters@.last() matches Filter::Subsystem(s) && s@ == subsystem@,
    {
        let mut e = self;
        e.filters.push(Filter::Subsystem(subsystem.to_owned()));
        proof {
            assert(e.filters@.take(self.filters@.len() as int) =~= self.filters@);
        }
        e
    }

    /// Exclude devices of this subsystem from every future scan.
    pub fn match_not_subsystem(self, subsystem: &str) -> (r: Enumerator<'u>)
        ensures
            r.udev == self.udev,
            r.parent == self.parent,
            r.results == self.results,
            r.filters@.len() == self.filters@.len() + 1,
            r.filters@.take(self.filters@.len() as int) == self.filters@,
            r.filters@.last() matches Filter::NotSubsystem(s) && s@ == subsystem@,
    {
        let mut e = self;
        e.filters.push(Filter::NotSubsystem(subsystem.to_owned()));
        proof {
            assert(e.filters@.take(self.filters@.len() as int) =~= self.filters@);
        }
        e
    }

    /// Include devices carrying this attribute, with the given value
    /// where one is named.
    pub fn match_attribute(self, attr: &str, value: Option<&str>) -> (r: Enumerator<'u>)
        ensures
            r.udev == self.udev,
            r.parent == self.parent,
            r.results == self.results,
            r.filters@.len() == self.filters@.len() + 1,
            r.filters@.take(self.filters@.len() as int) == self.filters@,
            r.filters@.last() matches Filter::Attribute(k, v) && k@ == attr@ && opt_text_is(
                v,
                value,
            ),
    {
        let mut e = self;
        e.filters.push(Filter::Attribute(attr.to_owned(), own_opt(value)));
        proof {
            assert(e.filters@.take(self.filters@.len() as int) =~= self.filters@);
        }
        e
    }

    /// Exclude devices carrying this attribute, with the given value
    /// where one is named.
    pub fn match_not_attribute(self, attr: &str, value: Option<&str>) -> (r: Enumerator<'u>)
        ensures
            r.udev == self.udev,
            r.parent == self.parent,
            r.results == self.results,
            r.filters@.len() == self.filters@.len() + 1,
            r.filters@.take(self.filters@.len() as int) == self.filters@,
            r.filters@.last() matches Filter::NotAttribute(k, v) && k@ == attr@ && opt_text_is(
                v,
                value,
            ),
    {
        let mut e = self;
        e.filters.push(Filter::NotAttribute(attr.to_owned(), own_opt(value)));
        proof {
            assert(e.filters@.take(self.filters@.len() as int) =~= self.filters@);
        }
        e
    }

    /// Include devices carrying this property, with the given value
    /// where one is named.
    pub fn match_property(self, property: &str, value: Option<&str>) -> (r: Enumerator<'u>)
        ensures
            r.udev == self.udev,
            r.parent == self.parent,
            r.results == self.results,
            r.filters@.len() == self.filters@.len() + 1,
            r.filters@.take(self.filters@.len() as int) == self.filters@,
            r.filters@.last() matches Filter::Property(k, v) && k@ == property@ && opt_text_is(
                v,
                value,
            ),
    {
        let mut e = self;
        e.filters.push(Filter::Property(property.to_owned(), own_opt(value)));
        proof {
            assert(e.filters@.take(self.filters@.len() as int) =~= self.filters@);
        }
        e
    }

    /// Constrain future scans to the given device and its descendants.
    /// Unlike every other filter, a parent constraint replaces the
    /// previous one.
    pub fn match_parent(self, parent: &Device) -> (r: Enumerator<'u>)
        ensures
            r.udev == self.udev,
            r.filters == self.filters,
            r.results == self.results,
            r.parent matches Some(p) && p@ == parent.dev.syspath@,
    {
        let mut e = self;
        e.parent = Some(parent.dev.syspath.clone());
        e
    }

    /// Remove the parent constraint: future scans add devices regardless
    /// of their parents.
    pub fn clear_parent(self) -> (r: Enumerator<'u>)
        ensures
            r.udev == self.udev,
            r.filters == self.filters,
            r.results == self.results,
            r.parent is None,
    {
        let mut e = self;
        e.parent = None;
        e
    }

    /// Include devices carrying this tag.
    pub fn match_tag(self, tag: &str) -> (r: Enumerator<'u>)
        ensures
            r.udev == self.udev,
            r.parent == self.parent,
            r.results == self.results,
            r.filters@.len() == self.filters@.len() + 1,
            r.filters@.take(self.filters@.len() as int) == self.filters@,
            r.filters@.last() matches Filter::Tag(t) && t@ == tag@,
    {
        let mut e = self;
        e.filters.push(Filter::Tag(tag.to_owned()));
        proof {
            assert(e.filters@.take(self.filters@.len() as int) =~= self.filters@);
        }
        e
    }

    /// Include only devices the backend has initialized.
    pub fn match_is_initialized(self) -> (r: Enumerator<'u>)
        ensures
            r.udev == self.udev,
            r.parent == self.parent,
            r.results == self.results,
            r.filters@.len() == self.filters@.len() + 1,
            r.filters@.take(self.filters@.len() as int) == self.filters@,
            r.filters@.last() is Initialized,
    {
        let mut e = self;
        e.filters.push(Filter::Initialized);
        proof {
            assert(e.filters@.take(self.filters@.len() as int) =~= self.filters@);
        }
        e
    }

    /// Include devices with this device name: future scans add devices
    /// that match it or a name given earlier.
    pub fn match_sysname(self, sysname: &str) -> (r: Enumerator<'u>)
        ensures
            r.udev == self.udev,
            r.parent == self.parent,
            r.results == self.results,
            r.filters@.len() == self.filters@.len() + 1,
            r.filters@.take(self.filters@.len() as int) == self.filters@,
            r.filters@.last() matches Filter::Sysname(n) && n@ == sysname@,
    {
        let mut e = self;
        e.filters.push(Filter::Sysname(sysname.to_owned()));
        proof {
            assert(e.filters@.take(self.filters@.len() as int) =~= self.filters@);
        }
        e
    }

    /// Manually add a device to the results, bypassing the filters; the
    /// backend keeps the list in dependency order.
    pub fn add_device(self, device: &Device) -> (r: Enumerator<'u>)
        ensures
            r.udev == self.udev,
            r.filters == self.filters,
            r.parent == self.parent,
            r.results@.len() == self.results@.len() + 1,
            r.results@.take(self.results@.len() as int) == self.results@,
            r.results@.last()@ == device.dev.syspath@,
    {
        let mut e = self;
        e.results.push(device.dev.syspath.clone());
        proof {
            assert(e.results@.take(self.results@.len() as int) =~= self.results@);
        }
        e
    }
}

/// The optional owned text reads the same as the optional borrowed text.
pub open spec fn opt_text_is(v: Option<String>, s: Option<&str>) -> bool {
    match (v, s) {
        (None, None) => true,
        (Some(x), Some(y)) => x@ == y@,
        _ => false,
    }
}

fn own_opt(s: Option<&str>) -> (r: Option<String>)
    ensures
        opt_text_is(r, s),
{
    match s {
        Some(x) => Some(x.to_owned()),
        None => None,
    }
}

fn subsystem_is_exec(d: &DeviceRecord, s: &String) -> (r: bool)
    ensures
        r == subsystem_is(*d, s@),
{
    match &d.subsystem {
        Some(x) => *x == *s,
        None => false,
    }
}

fn entry_matches_exec(e: &Entry, k: &String, v: &Option<String>) -> (r: bool)
    ensures
        r == (e.name@ == k@ && entry_value_is(*e, *v)),
{
    let name_ok = e.name == *k;
    let val_ok = match v {
        None => true,
        Some(x) => match &e.value {
            Some(y) => *y == *x,
            None => false,
        },
    };
    name_ok && val_ok
}

fn has_entry_matching_exec(entries: &Vec<Entry>, k: &String, v: &Option<String>) -> (r: bool)
    ensures
        r == has_entry_matching(entries@, k@, *v),
{
    let mut i: usize = 0;
    while i < entries.len()
        invariant
            i <= entries@.len(),
            forall|j: int|
                0 <= j < i ==> !((#[trigger] entries@[j]).name@ == k@ && entry_value_is(
                    entries@[j],
                    *v,
                )),
        decreases entries@.len() - i,
    {
        if entry_matches_exec(&entries[i], k, v) {
            proof {
                assert(entries@[i as int].name@ == k@ && entry_value_is(entries@[i as int], *v));
            }
            return true;
        }
        i = i + 1;
    }
    false
}

fn tags_contain(d: &DeviceRecord, t: &String) -> (r: bool)
    ensures
        r == contains_str(d.tags@, t@),
{
    let mut i: usize = 0;
    while i < d.tags.len()
        invariant
            i <= d.tags@.len(),
            forall|j: int| 0 <= j < i ==> d.tags@[j]@ != t@,
        decreases d.tags@.len() - i,
    {
        if str_eq(t.as_str(), &d.tags[i]) {
            proof {
                assert(d.tags@[i as int]@ == t@);
            }
            return true;
        }
        i = i + 1;
    }
    false
}

fn ancestor_path_exec(d: &DeviceRecord, p: &String) -> (r: bool)
    ensures
        r == self_or_ancestor_has_syspath(*d, p@),
    decreases *d,
{
    if d.syspath == *p {
        true
    } else {
        match &d.parent {
            Some(b) => ancestor_path_exec(&**b, p),
            None => false,
        }
    }
}

fn device_matches(d: &DeviceRecord, fs: &Vec<Filter>, parent: &Option<String>) -> (r: bool)
    ensures
        r == matches(*d, fs@, *parent),
{
    let mut has_sub = false;
    let mut sub_ok = false;
    let mut not_sub_ok = true;
    let mut has_attr = false;
    let mut attr_ok = false;
    let mut not_attr_ok = true;
    let mut has_prop = false;
    let mut prop_ok = false;
    let mut has_tag = false;
    let mut tag_ok = false;
    let mut need_init = false;
    let mut has_name = false;
    let mut name_ok = false;
    let mut i: usize = 0;
    while i < fs.len()
        invariant
            i <= fs@.len(),
            has_sub == exists|j: int| 0 <= j < i && (#[trigger] fs@[j]) is Subsystem,
            sub_ok == exists|j: int|
                0 <= j < i && ((#[trigger] fs@[j]) matches Filter::Subsystem(s) && subsystem_is(
                    *d,
                    s@,
                )),
            not_sub_ok == forall|j: int|
                0 <= j < i ==> ((#[trigger] fs@[j]) matches Filter::NotSubsystem(s)
                    ==> !subsystem_is(*d, s@)),
            has_attr == exists|j: int| 0 <= j < i && (#[trigger] fs@[j]) is Attribute,
            attr_ok == exists|j: int|
                0 <= j < i && ((#[trigger] fs@[j]) matches Filter::Attribute(k, v)
                    && has_entry_matching(d.sysattrs@, k@, v)),
            not_attr_ok == forall|j: int|
                0 <= j < i ==> ((#[trigger] fs@[j]) matches Filter::NotAttribute(k, v)
                    ==> !has_entry_matching(d.sysattrs@, k@, v)),
            has_prop == exists|j: int| 0 <= j < i && (#[trigger] fs@[j]) is Property,
            prop_ok == exists|j: int|
                0 <= j < i && ((#[trigger] fs@[j]) matches Filter::Property(k, v)
                    && has_entry_matching(d.properties@, k@, v)),
            has_tag == exists|j: int| 0 <= j < i && (#[trigger] fs@[j]) is Tag,
            tag_ok == exists|j: int|
                0 <= j < i && ((#[trigger] fs@[j]) matches Filter::Tag(t) && contains_str(
                    d.tags@,
                    t@,
                )),
            need_init == exists|j: int| 0 <= j < i && (#[trigger] fs@[j]) is Initialized,
            has_name == exists|j: int| 0 <= j < i && (#[trigger] fs@[j]) is Sysname,
            name_ok == exists|j: int|
                0 <= j < i && ((#[trigger] fs@[j]) matches Filter::Sysname(n) && d.sysname@
                    == n@),
        decreases fs@.len() - i,
    {
        match &fs[i] {
            Filter::Subsystem(s) => {
                has_sub = true;
                if subsystem_is_exec(d, s) {
                    sub_ok = true;
                }
            },
            Filter::NotSubsystem(s) => {
                if subsystem_is_exec(d, s) {
                    not_sub_ok = false;
                }
            },
            Filter::Attribute(k, v) => {
                has_attr = true;
                if has_entry_matching_exec(&d.sysattrs, k, v) {
                    attr_ok = true;
                }
            },
            Filter::NotAttribute(k, v) => {
                if has_entry_matching_exec(&d.sysattrs, k, v) {
                    not_attr_ok = false;
                }
            },
            Filter::Property(k, v) => {
                has_prop = true;
                if has_entry_matching_exec(&d.properties, k, v) {
                    prop_ok = true;
                }
            },
            Filter::Tag(t) => {
                has_tag = true;
                if tags_contain(d, t) {
                    tag_ok = true;
                }
            },
            Filter::Initialized => {
                need_init = true;
            },
            Filter::Sysname(n) => {
                has_name = true;
                if str_eq(d.sysname.as_str(), n) {
                    name_ok = true;
                }
            },
        }
        i = i + 1;
    }
    let filters_pass = (!has_sub || sub_ok) && not_sub_ok && (!has_attr || attr_ok) && not_attr_ok
        && (!has_prop || prop_ok) && (!has_tag || tag_ok) && (!need_init || d.initialized) && (
    !has_name || name_ok);
    let parent_pass = match parent {
        Some(p) => ancestor_path_exec(d, p),
        None => true,
    };
    filters_pass && parent_pass
}

/// Appending one device to the scanned list extends the scan's result by
/// that device's path exactly when it is on the scanned side and matches.
proof fn lemma_matching_paths_snoc(
    devs: Seq<DeviceRecord>,
    d: DeviceRecord,
    fs: Seq<Filter>,
    parent: Option<String>,
    subsystem_scan: bool,
)
    ensures
        matching_paths(devs.push(d), fs, parent, subsystem_scan) == matching_paths(
            devs,
            fs,
            parent,
            subsystem_scan,
        ) + (if d.subsystem_entry == subsystem_scan && matches(d, fs, parent) {
            seq![d.syspath]
        } else {
            Seq::<String>::empty()
        }),
    decreases devs.len(),
{
    let whole = devs.push(d);
    let added: Seq<String> = if d.subsystem_entry == subsystem_scan && matches(d, fs, parent) {
        seq![d.syspath]
    } else {
        Seq::empty()
    };
    if devs.len() == 0 {
        assert(whole[0] == d);
        assert(whole.drop_first() =~= Seq::<DeviceRecord>::empty());
        assert(matching_paths(Seq::<DeviceRecord>::empty(), fs, parent, subsystem_scan)
            =~= Seq::<String>::empty());
        assert(matching_paths(devs, fs, parent, subsystem_scan) + added =~= added);
        assert(matching_paths(whole, fs, parent, subsystem_scan) =~= added);
    } else {
        assert(whole[0] == devs[0]);
        assert(whole.drop_first() =~= devs.drop_first().push(d));
        lemma_matching_paths_snoc(devs.drop_first(), d, fs, parent, subsystem_scan);
        if devs[0].subsystem_entry == subsystem_scan && matches(devs[0], fs, parent) {
            assert(matching_paths(whole, fs, parent, subsystem_scan) =~= matching_paths(
                devs,
                fs,
                parent,
                subsystem_scan,
            ) + added);
        }
    }
}

impl<'u> Enumerator<'u> {
    fn scan(self, subsystem_scan: bool) -> (r: Enumerator<'u>)
        ensures
            r.udev == self.udev,
            r.filters == self.filters,
            r.parent == self.parent,
            r.results@ == self.results@ + matching_paths(
                self.udev.devices@,
                self.filters@,
                self.parent,
                subsystem_scan,
            ),
    {
        let ghost orig = self;
        let mut e = self;
        let u: &Udev = e.udev;
        let mut i: usize = 0;
        while i < u.devices.len()
            invariant
                e.udev == orig.udev,
                u == orig.udev,
                e.filters == orig.filters,
                e.parent == orig.parent,
                i <= u.devices@.len(),
                e.results@ == orig.results@ + matching_paths(
                    u.devices@.take(i as int),
                    orig.filters@,
                    orig.parent,
                    subsystem_scan,
                ),
            decreases u.devices@.len() - i,
        {
            let side = u.devices[i].subsystem_entry == subsystem_scan;
            if side && device_matches(&u.devices[i], &e.filters, &e.parent) {
                e.results.push(u.devices[i].syspath.clone());
            }
            proof {
                assert(u.devices@.take(i + 1) =~= u.devices@.take(i as int).push(
                    u.devices@[i as int],
                ));
                lemma_matching_paths_snoc(
                    u.devices@.take(i as int),
                    u.devices@[i as int],
                    orig.filters@,
                    orig.parent,
                    subsystem_scan,
                );
                assert(e.results@ =~= orig.results@ + matching_paths(
                    u.devices@.take(i + 1),
                    orig.filters@,
                    orig.parent,
                    subsystem_scan,
                ));
            }
            i = i + 1;
        }
        proof {
            assert(u.devices@.take(u.devices@.len() as int) =~= u.devices@);
        }
        e
    }

    /// Scans sysfs for subsystems satisfying every accumulated
    /// constraint, adding them to the result list: results accumulate
    /// across scans.
    pub fn scan_subsystems(self) -> (r: Enumerator<'u>)
        ensures
            r.udev == self.udev,
            r.filters == self.filters,
            r.parent == self.parent,
            r.results@ == self.results@ + matching_paths(
                self.udev.devices@,
                self.filters@,
                self.parent,
                true,
            ),
    {
        self.scan(true)
    }

    /// Scans sysfs for devices satisfying every accumulated constraint,
    /// adding them to the result list: results accumulate across scans,
    /// and scanning both devices and subsystems unions the two sets.
    pub fn scan_devices(self) -> (r: Enumerator<'u>)
        ensures
            r.udev == self.udev,
            r.filters == self.filters,
            r.parent == self.parent,
            r.results@ == self.results@ + matching_paths(
                self.udev.devices@,
                self.filters@,
                self.parent,
                false,
            ),
    {
        self.scan(false)
    }

    /// Walks the accumulated results in dependency order, resolving each
    /// path into a fresh device handle.  The enumerator is not
    /// prepopulated: without a scan or a manually added device the
    /// iterator is empty.
    pub fn iter<'e>(&'e self) -> (r: DeviceIterator<'e, 'u>)
        ensures
            r.enumerator == self,
            r.pos == 0,
    {
        DeviceIterator { enumerator: self, pos: 0 }
    }

    /// Walks the accumulated result paths without resolving devices.
    pub fn iter_paths<'e>(&'e self) -> (r: PathIterator<'e, Enumerator<'u>>)
        ensures
            r.iter.parent == self,
            r.iter.pos == 0,
            r.iter.entries@ == name_entries(self.results@),
    {
        path_iterator(self, names_to_entries(&self.results))
    }
}

/// The position of the first result path at or past `from` that resolves
/// to a device, if any.
pub open spec fn first_resolvable(
    devs: Seq<DeviceRecord>,
    paths: Seq<String>,
    from: int,
) -> Option<int>
    decreases paths.len() - from,
{
    if from < 0 || from >= paths.len() {
        None
    } else if lookup_syspath(devs, paths[from]@) is Some {
        Some(from)
    } else {
        first_resolvable(devs, paths, from + 1)
    }
}

/// Walks an enumerator's results, yielding a fresh device handle for
/// each path that still resolves; paths whose devices have gone away —
/// removed between scan and iteration — are skipped silently.
pub struct DeviceIterator<'e, 'u> {
    pub enumerator: &'e Enumerator<'u>,
    pub pos: usize,
}

impl<'e, 'u> DeviceIterator<'e, 'u> {
    /// Resolves and yields the next present device, or nothing once the
    /// remaining paths resolve to no device at all.
    pub fn next(&mut self) -> (r: Option<Device<'u>>)
        ensures
            final(self).enumerator == old(self).enumerator,
            ({
                let en = old(self).enumerator;
                let fr = first_resolvable(en.udev.devices@, en.results@, old(self).pos as int);
                &&& (fr is None ==> r is None && final(self).pos >= en.results@.len())
                &&& (fr matches Some(ix) ==> r matches Some(dev) && dev.udev == en.udev && (
                lookup_syspath(en.udev.devices@, en.results@[ix]@) matches Some(rec) && record_eq(
                    dev.dev,
                    rec,
                )) && final(self).pos == ix + 1)
            }),
    {
        let en = self.enumerator;
        let mut i: usize = self.pos;
        while i < en.results.len()
            invariant
                self.enumerator == en,
                en == old(self).enumerator,
                old(self).pos <= i,
                first_resolvable(en.udev.devices@, en.results@, old(self).pos as int)
                    == first_resolvable(en.udev.devices@, en.results@, i as int),
            decreases en.results@.len() - i,
        {
            match en.udev.device(en.results[i].as_str()) {
                Some(dev) => {
                    proof {
                        assert(first_resolvable(en.udev.devices@, en.results@, i as int) == Some(
                            i as int,
                        ));
                    }
                    self.pos = i + 1;
                    return Some(dev);
                },
                None => {
                    proof {
                        assert(first_resolvable(en.udev.devices@, en.results@, i as int)
                            == first_resolvable(en.udev.devices@, en.results@, i + 1));
                    }
                    i = i + 1;
                },
            }
        }
        self.pos = i;
        None
    }
}

/// The two optional texts read the same.
pub open spec fn opt_str_eq(a: Option<String>, b: Option<String>) -> bool {
    match (a, b) {
        (None, None) => true,
        (Some(x), Some(y)) => x@ == y@,
        _ => false,
    }
}

/// The two filters constrain the same thing with the same text.
pub open spec fn filter_eq(a: Filter, b: Filter) -> bool {
    match (a, b) {
        (Filter::Subsystem(x), Filter::Subsystem(y)) => x@ == y@,
        (Filter::NotSubsystem(x), Filter::NotSubsystem(y)) => x@ == y@,
        (Filter::Attribute(k1, v1), Filter::Attribute(k2, v2)) => k1@ == k2@ && opt_str_eq(v1, v2),
        (Filter::NotAttribute(k1, v1), Filter::NotAttribute(k2, v2)) => k1@ == k2@ && opt_str_eq(
            v1,
            v2,
        ),
        (Filter::Property(k1, v1), Filter::Property(k2, v2)) => k1@ == k2@ && opt_str_eq(v1, v2),
        (Filter::Tag(x), Filter::Tag(y)) => x@ == y@,
        (Filter::Initialized, Filter::Initialized) => true,
        (Filter::Sysname(x), Filter::Sysname(y)) => x@ == y@,
        _ => false,
    }
}

/// Some filter of `fs` means the same as `f`.
pub open spec fn has_counterpart(f: Filter, fs: Seq<Filter>) -> bool {
    exists|j: int| 0 <= j < fs.len() && filter_eq(f, #[trigger] fs[j])
}

/// The two filter lists hold the same constraints, in whatever order and
/// multiplicity: every filter of each list has a counterpart in the
/// other.
pub open spec fn same_filters(a: Seq<Filter>, b: Seq<Filter>) -> bool {
    &&& (forall|f: Filter| #[trigger] a.contains(f) ==> has_counterpart(f, b))
    &&& (forall|f: Filter| #[trigger] b.contains(f) ==> has_counterpart(f, a))
}

proof fn lemma_has_entry_matching_congr(
    entries: Seq<Entry>,
    k: Seq<char>,
    v1: Option<String>,
    v2: Option<String>,
)
    requires
        opt_str_eq(v1, v2),
    ensures
        has_entry_matching(entries, k, v1) == has_entry_matching(entries, k, v2),
{
    assert forall|i: int| 0 <= i < entries.len() implies entry_value_is(
        #[trigger] entries[i],
        v1,
    ) == entry_value_is(entries[i], v2) by {};
    if has_entry_matching(entries, k, v1) {
        let i = choose|i: int|
            0 <= i < entries.len() && (#[trigger] entries[i]).name@ == k && entry_value_is(
                entries[i],
                v1,
            );
        assert(entries[i].name@ == k && entry_value_is(entries[i], v2));
    }
    if has_entry_matching(entries, k, v2) {
        let i = choose|i: int|
            0 <= i < entries.len() && (#[trigger] entries[i]).name@ == k && entry_value_is(
                entries[i],
                v2,
            );
        assert(entries[i].name@ == k && entry_value_is(entries[i], v1));
    }
}

proof fn lemma_subsystem_clause_transfer(d: DeviceRecord, a: Seq<Filter>, b: Seq<Filter>)
    requires
        same_filters(a, b),
        subsystem_clause(d, a),
    ensures
        subsystem_clause(d, b),
{
    if exists|j: int| 0 <= j < b.len() && (#[trigger] b[j]) is Subsystem {
        let j0 = choose|j: int| 0 <= j < b.len() && (#[trigger] b[j]) is Subsystem;
        assert(b.contains(b[j0]));
        let i0 = choose|i: int| 0 <= i < a.len() && filter_eq(b[j0], #[trigger] a[i]);
        assert(a[i0] is Subsystem);
        let i1 = choose|i: int|
            0 <= i < a.len() && ((#[trigger] a[i]) matches Filter::Subsystem(s) && subsystem_is(
                d,
                s@,
            ));
        assert(a.contains(a[i1]));
        let j1 = choose|j: int| 0 <= j < b.len() && filter_eq(a[i1], #[trigger] b[j]);
        assert(b[j1] matches Filter::Subsystem(s) && subsystem_is(d, s@));
    }
}

proof fn lemma_not_subsystem_clause_transfer(d: DeviceRecord, a: Seq<Filter>, b: Seq<Filter>)
    requires
        same_filters(a, b),
        not_subsystem_clause(d, a),
    ensures
        not_subsystem_clause(d, b),
{
    assert forall|j: int|
        0 <= j < b.len() implies ((#[trigger] b[j]) matches Filter::NotSubsystem(s)
        ==> !subsystem_is(d, s@)) by {
        if b[j] is NotSubsystem {
            assert(b.contains(b[j]));
            let i = choose|i: int| 0 <= i < a.len() && filter_eq(b[j], #[trigger] a[i]);
            assert(a[i] matches Filter::NotSubsystem(x) ==> !subsystem_is(d, x@));
        }
    };
}

proof fn lemma_attribute_clause_transfer(d: DeviceRecord, a: Seq<Filter>, b: Seq<Filter>)
    requires
        same_filters(a, b),
        attribute_clause(d, a),
    ensures
        attribute_clause(d, b),
{
    if exists|j: int| 0 <= j < b.len() && (#[trigger] b[j]) is Attribute {
        let j0 = choose|j: int| 0 <= j < b.len() && (#[trigger] b[j]) is Attribute;
        assert(b.contains(b[j0]));
        let i0 = choose|i: int| 0 <= i < a.len() && filter_eq(b[j0], #[trigger] a[i]);
        assert(a[i0] is Attribute);
        let i1 = choose|i: int|
            0 <= i < a.len() && ((#[trigger] a[i]) matches Filter::Attribute(k, v)
                && has_entry_matching(d.sysattrs@, k@, v));
        assert(a.contains(a[i1]));
        let j1 = choose|j: int| 0 <= j < b.len() && filter_eq(a[i1], #[trigger] b[j]);
        match (a[i1], b[j1]) {
            (Filter::Attribute(k1, v1), Filter::Attribute(k2, v2)) => {
                lemma_has_entry_matching_congr(d.sysattrs@, k1@, v1, v2);
                assert(b[j1] matches Filter::Attribute(k, v) && has_entry_matching(
                    d.sysattrs@,
                    k@,
                    v,
                ));
            },
            _ => {},
        }
    }
}

proof fn lemma_not_attribute_clause_transfer(d: DeviceRecord, a: Seq<Filter>, b: Seq<Filter>)
    requires
        same_filters(a, b),
        not_attribute_clause(d, a),
    ensures
        not_attribute_clause(d, b),
{
    assert forall|j: int|
        0 <= j < b.len() implies ((#[trigger] b[j]) matches Filter::NotAttribute(k, v)
        ==> !has_entry_matching(d.sysattrs@, k@, v)) by {
        if b[j] is NotAttribute {
            assert(b.contains(b[j]));
            let i = choose|i: int| 0 <= i < a.len() && filter_eq(b[j], #[trigger] a[i]);
            match (a[i], b[j]) {
                (Filter::NotAttribute(k1, v1), Filter::NotAttribute(k2, v2)) => {
                    lemma_has_entry_matching_congr(d.sysattrs@, k1@, v1, v2);
                    assert(!has_entry_matching(d.sysattrs@, k1@, v1));
                },
                _ => {},
            }
        }
    };
}

proof fn lemma_property_clause_transfer(d: DeviceRecord, a: Seq<Filter>, b: Seq<Filter>)
    requires
        same_filters(a, b),
        property_clause(d, a),
    ensures
        property_clause(d, b),
{
    if exists|j: int| 0 <= j < b.len() && (#[trigger] b[j]) is Property {
        let j0 = choose|j: int| 0 <= j < b.len() && (#[trigger] b[j]) is Property;
        assert(b.contains(b[j0]));
        let i0 = choose|i: int| 0 <= i < a.len() && filter_eq(b[j0], #[trigger] a[i]);
        assert(a[i0] is Property);
        let i1 = choose|i: int|
            0 <= i < a.len() && ((#[trigger] a[i]) matches Filter::Property(k, v)
                && has_entry_matching(d.properties@, k@, v));
        assert(a.contains(a[i1]));
        let j1 = choose|j: int| 0 <= j < b.len() && filter_eq(a[i1], #[trigger] b[j]);
        match (a[i1], b[j1]) {
            (Filter::Property(k1, v1), Filter::Property(k2, v2)) => {
                lemma_has_entry_matching_congr(d.properties@, k1@, v1, v2);
                assert(b[j1] matches Filter::Property(k, v) && has_entry_matching(
                    d.properties@,
                    k@,
                    v,
                ));
            },
            _ => {},
        }
    }
}

proof fn lemma_tag_clause_transfer(d: DeviceRecord, a: Seq<Filter>, b: Seq<Filter>)
    requires
        same_filters(a, b),
        tag_clause(d, a),
    ensures
        tag_clause(d, b),
{
    if exists|j: int| 0 <= j < b.len() && (#[trigger] b[j]) is Tag {
        let j0 = choose|j: int| 0 <= j < b.len() && (#[trigger] b[j]) is Tag;
        assert(b.contains(b[j0]));
        let i0 = choose|i: int| 0 <= i < a.len() && filter_eq(b[j0], #[trigger] a[i]);
        assert(a[i0] is Tag);
        let i1 = choose|i: int|
            0 <= i < a.len() && ((#[trigger] a[i]) matches Filter::Tag(t) && contains_str(
                d.tags@,
                t@,
            ));
        assert(a.contains(a[i1]));
        let j1 = choose|j: int| 0 <= j < b.len() && filter_eq(a[i1], #[trigger] b[j]);
        assert(b[j1] matches Filter::Tag(t) && contains_str(d.tags@, t@));
    }
}

proof fn lemma_initialized_clause_transfer(d: DeviceRecord, a: Seq<Filter>, b: Seq<Filter>)
    requires
        same_filters(a, b),
        initialized_clause(d, a),
    ensures
        initialized_clause(d, b),
{
    if exists|j: int| 0 <= j < b.len() && (#[trigger] b[j]) is Initialized {
        let j0 = choose|j: int| 0 <= j < b.len() && (#[trigger] b[j]) is Initialized;
        assert(b.contains(b[j0]));
        let i0 = choose|i: int| 0 <= i < a.len() && filter_eq(b[j0], #[trigger] a[i]);
        assert(a[i0] is Initialized);
    }
}

proof fn lemma_sysname_clause_transfer(d: DeviceRecord, a: Seq<Filter>, b: Seq<Filter>)
    requires
        same_filters(a, b),
        sysname_clause(d, a),
    ensures
        sysname_clause(d, b),
{
    if exists|j: int| 0 <= j < b.len() && (#[trigger] b[j]) is Sysname {
        let j0 = choose|j: int| 0 <= j < b.len() && (#[trigger] b[j]) is Sysname;
        assert(b.contains(b[j0]));
        let i0 = choose|i: int| 0 <= i < a.len() && filter_eq(b[j0], #[trigger] a[i]);
        assert(a[i0] is Sysname);
        let i1 = choose|i: int|
            0 <= i < a.len() && ((#[trigger] a[i]) matches Filter::Sysname(n) && d.sysname@ == n@);
        assert(a.contains(a[i1]));
        let j1 = choose|j: int| 0 <= j < b.len() && filter_eq(a[i1], #[trigger] b[j]);
        assert(b[j1] matches Filter::Sysname(n) && d.sysname@ == n@);
    }
}

proof fn lemma_matches_filters_transfer(d: DeviceRecord, a: Seq<Filter>, b: Seq<Filter>)
    requires
        same_filters(a, b),
        matches_filters(d, a),
    ensures
        matches_filters(d, b),
{
    lemma_subsystem_clause_transfer(d, a, b);
    lemma_not_subsystem_clause_transfer(d, a, b);
    lemma_attribute_clause_transfer(d, a, b);
    lemma_not_attribute_clause_transfer(d, a, b);
    lemma_property_clause_transfer(d, a, b);
    lemma_tag_clause_transfer(d, a, b);
    lemma_initialized_clause_transfer(d, a, b);
    lemma_sysname_clause_transfer(d, a, b);
}

/// Two filter chains holding the same constraints accept exactly the same
/// devices, whatever the order the constraints were applied in.
pub proof fn lemma_matches_order_irrelevant(
    d: DeviceRecord,
    a: Seq<Filter>,
    b: Seq<Filter>,
    parent: Option<String>,
)
    requires
        same_filters(a, b),
    ensures
        matches(d, a, parent) == matches(d, b, parent),
{
    if matches_filters(d, a) {
        lemma_matches_filters_transfer(d, a, b);
    }
    if matches_filters(d, b) {
        lemma_matches_filters_transfer(d, b, a);
    }
}

/// Two filter chains holding the same constraints scan exactly the same
/// result list: filter order cannot change a scan's outcome.
pub proof fn lemma_scan_order_irrelevant(
    devs: Seq<DeviceRecord>,
    a: Seq<Filter>,
    b: Seq<Filter>,
    parent: Option<String>,
    subsystem_scan: bool,
)
    requires
        same_filters(a, b),
    ensures
        matching_paths(devs, a, parent, subsystem_scan) == matching_paths(
            devs,
            b,
            parent,
            subsystem_scan,
        ),
    decreases devs.len(),
{
    if devs.len() > 0 {
        lemma_matches_order_irrelevant(devs[0], a, b, parent);
        lemma_scan_order_irrelevant(devs.drop_first(), a, b, parent, subsystem_scan);
    }
}

/// Every path a scan adds belongs to a device on the scanned side that
/// satisfies every accumulated filter: a subsystem-filtered scan yields
/// only devices of that subsystem.
pub proof fn lemma_scan_sound(
    devs: Seq<DeviceRecord>,
    fs: Seq<Filter>,
    parent: Option<String>,
    subsystem_scan: bool,
)
    ensures
        forall|p: String|
            #[trigger] matching_paths(devs, fs, parent, subsystem_scan).contains(p) ==> exists|
                i: int,
            |
                0 <= i < devs.len() && devs[i].syspath == p && devs[i].subsystem_entry
                    == subsystem_scan && matches(devs[i], fs, parent),
    decreases devs.len(),
{
    if devs.len() > 0 {
        let rest = devs.drop_first();
        lemma_scan_sound(rest, fs, parent, subsystem_scan);
        let whole = matching_paths(devs, fs, parent, subsystem_scan);
        let rest_paths = matching_paths(rest, fs, parent, subsystem_scan);
        assert forall|p: String| #[trigger] whole.contains(p) implies exists|i: int|
            0 <= i < devs.len() && devs[i].syspath == p && devs[i].subsystem_entry
                == subsystem_scan && matches(devs[i], fs, parent) by {
            if devs[0].subsystem_entry == subsystem_scan && matches(devs[0], fs, parent) {
                assert(whole == seq![devs[0].syspath] + rest_paths);
                let w = choose|w: int| 0 <= w < whole.len() && whole[w] == p;
                if w == 0 {
                    assert(devs[0].syspath == p && devs[0].subsystem_entry == subsystem_scan
                        && matches(devs[0], fs, parent));
                } else {
                    assert(rest_paths[w - 1] == p);
                    assert(rest_paths.contains(p));
                    let i = choose|i: int|
                        0 <= i < rest.len() && rest[i].syspath == p && rest[i].subsystem_entry
                            == subsystem_scan && matches(rest[i], fs, parent);
                    assert(rest[i] == devs[i + 1]);
                    assert(devs[i + 1].syspath == p && devs[i + 1].subsystem_entry
                        == subsystem_scan && matches(devs[i + 1], fs, parent));
                }
            } else {
                assert(whole == rest_paths);
                assert(rest_paths.contains(p));
                let i = choose|i: int|
                    0 <= i < rest.len() && rest[i].syspath == p && rest[i].subsystem_entry
                        == subsystem_scan && matches(rest[i], fs, parent);
                assert(rest[i] == devs[i + 1]);
                assert(devs[i + 1].syspath == p && devs[i + 1].subsystem_entry == subsystem_scan
                    && matches(devs[i + 1], fs, parent));
            }
        };
    }
}

} // verus!
