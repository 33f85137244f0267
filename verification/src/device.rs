//! Device handles.
//!
//! A device handle pairs a borrowed context with the plain-value record of
//! one native device object: its identifying paths and names, its optional
//! classification fields, its tag, property, attribute and device-link
//! lists, and its chain of ancestors.  Accessors surface the record's
//! fields exactly as the backend defines them — sentinel values read as
//! absence, numeric text is parsed, and attribute reads and writes go
//! through the record's attribute list.

use vstd::prelude::*;

verus! {

use crate::iterator::{
    Entry,
    KeyIterator,
    KeyOptValueIterator,
    PathIterator,
    clone_entries,
    find_entry,
    find_index,
    key_iterator,
    key_opt_value_iterator,
    lemma_find_index_bounds,
    lemma_find_index_skip,
    lemma_find_index_update_same_name,
    name_entries,
    names_to_entries,
    path_iterator,
};
use crate::udev::Udev;
use crate::util::{IoError, all_digits, clone_strings, dec_val, parse_decimal, str_eq};
use vstd::pervasive::VecAdditionalExecFns;

/// A device number, the backend's packed major/minor pair.  Zero is the
/// sentinel for "no device number".
pub type Devnum = u64;

/// The namespace a device number lives in: character or block devices.
#[derive(Clone, Copy, PartialEq, Eq, Structural)]
pub enum DeviceType {
    CharDev,
    BlockDev,
}

impl DeviceType {
    /// The letter the backend uses to name this namespace, as a C
    /// character: `c` for character devices, `b` for block devices.
    pub fn to_char(self) -> (r: i8)
        ensures
            self is CharDev ==> r == 99,
            self is BlockDev ==> r == 98,
    {
        match self {
            DeviceType::CharDev => 99,
            DeviceType::BlockDev => 98,
        }
    }
}

/// The other name the device-number namespace goes by.
pub type Type = DeviceType;

/// The plain-value mirror of one native device object: everything the
/// handle layer reads from the backend about a device, copied out so the
/// logic over it is independent of native memory.
pub struct DeviceRecord {
    /// Path below `/sys`; always present.
    pub devpath: String,
    /// Full sysfs path; always present and unique per device.
    pub syspath: String,
    /// Device name, e.g. `tty0`; always present.
    pub sysname: String,
    pub subsystem: Option<String>,
    pub devtype: Option<String>,
    /// Trailing number of the device name, as text.
    pub sysnum: Option<String>,
    /// Device number; zero when the device has none.
    pub devnum: Devnum,
    /// Namespace of `devnum`, where one applies.
    pub kind: Option<DeviceType>,
    pub driver: Option<String>,
    /// Device node below `/dev`, where one exists.
    pub devnode: Option<String>,
    pub initialized: bool,
    /// Microseconds since the backend initialized the device; zero is the
    /// sentinel for "unknown".
    pub usec_since_initialized: u64,
    /// Event action text; set only on devices received from a monitor.
    pub action: Option<String>,
    /// Event sequence number; set only on devices received from a monitor.
    pub seqnum: u64,
    pub tags: Vec<String>,
    pub properties: Vec<Entry>,
    /// Sysfs attributes with their current values.
    pub sysattrs: Vec<Entry>,
    pub devlinks: Vec<String>,
    /// Whether this entry names a subsystem rather than a device, so that
    /// subsystem scans rather than device scans yield it.
    pub subsystem_entry: bool,
    /// The device's parent in the sysfs tree, with its own ancestors.
    pub parent: Option<Box<DeviceRecord>>,
}

/// The two records read the same: they agree on every field, on the
/// contents of their lists, and their parent chains read the same.  This
/// is what a fresh handle on the same native object preserves.
pub open spec fn record_eq(a: DeviceRecord, b: DeviceRecord) -> bool
    decreases a,
{
    &&& a.devpath == b.devpath
    &&& a.syspath == b.syspath
    &&& a.sysname == b.sysname
    &&& a.subsystem == b.subsystem
    &&& a.devtype == b.devtype
    &&& a.sysnum == b.sysnum
    &&& a.devnum == b.devnum
    &&& a.kind == b.kind
    &&& a.driver == b.driver
    &&& a.devnode == b.devnode
    &&& a.initialized == b.initialized
    &&& a.usec_since_initialized == b.usec_since_initialized
    &&& a.action == b.action
    &&& a.seqnum == b.seqnum
    &&& a.tags@ == b.tags@
    &&& a.properties@ == b.properties@
    &&& a.sysattrs@ == b.sysattrs@
    &&& a.devlinks@ == b.devlinks@
    &&& a.subsystem_entry == b.subsystem_entry
    &&& (match (a.parent, b.parent) {
        (Some(x), Some(y)) => record_eq(*x, *y),
        (None, None) => true,
        _ => false,
    })
}

fn clone_record(d: &DeviceRecord) -> (r: DeviceRecord)
    ensures
        record_eq(r, *d),
    decreases *d,
{
    DeviceRecord {
        devpath: d.devpath.clone(),
        syspath: d.syspath.clone(),
        sysname: d.sysname.clone(),
        subsystem: clone_opt_string(&d.subsystem),
        devtype: clone_opt_string(&d.devtype),
        sysnum: clone_opt_string(&d.sysnum),
        devnum: d.devnum,
        kind: match d.kind {
            Some(k) => Some(k),
            None => None,
        },
        driver: clone_opt_string(&d.driver),
        devnode: clone_opt_string(&d.devnode),
        initialized: d.initialized,
        usec_since_initialized: d.usec_since_initialized,
        action: clone_opt_string(&d.action),
        seqnum: d.seqnum,
        tags: clone_strings(&d.tags),
        properties: clone_entries(&d.properties),
        sysattrs: clone_entries(&d.sysattrs),
        devlinks: clone_strings(&d.devlinks),
        subsystem_entry: d.subsystem_entry,
        parent: match &d.parent {
            Some(b) => Some(Box::new(clone_record(&**b))),
            None => None,
        },
    }
}

fn clone_opt_string(o: &Option<String>) -> (r: Option<String>)
    ensures
        r == *o,
{
    match o {
        Some(s) => Some(s.clone()),
        None => None,
    }
}

impl Clone for DeviceRecord {
    fn clone(&self) -> (r: Self)
        ensures
            record_eq(r, *self),
    {
        clone_record(self)
    }
}

/// The record's subsystem is present and reads `sub`.
pub open spec fn subsystem_is(d: DeviceRecord, sub: Seq<char>) -> bool {
    match d.subsystem {
        Some(s) => s@ == sub,
        None => false,
    }
}

/// The record's devtype is present and reads `dt`.
pub open spec fn devtype_is(d: DeviceRecord, dt: Seq<char>) -> bool {
    match d.devtype {
        Some(s) => s@ == dt,
        None => false,
    }
}

/// The record matches a subsystem constraint and, where one is given, a
/// devtype constraint.
pub open spec fn matches_subsystem_devtype(
    d: DeviceRecord,
    sub: Seq<char>,
    dt: Option<Seq<char>>,
) -> bool {
    subsystem_is(d, sub) && match dt {
        Some(t) => devtype_is(d, t),
        None => true,
    }
}

/// The nearest strict ancestor of `d` matching the given subsystem and
/// optional devtype, if any.
pub open spec fn ancestor_matching(
    d: DeviceRecord,
    sub: Seq<char>,
    dt: Option<Seq<char>>,
) -> Option<DeviceRecord>
    decreases d,
{
    match d.parent {
        None => None,
        Some(b) => {
            if matches_subsystem_devtype(*b, sub, dt) {
                Some(*b)
            } else {
                ancestor_matching(*b, sub, dt)
            }
        },
    }
}

/// `d` or one of its ancestors has the sysfs path `path`.
pub open spec fn self_or_ancestor_has_syspath(d: DeviceRecord, path: Seq<char>) -> bool
    decreases d,
{
    d.syspath@ == path || match d.parent {
        None => false,
        Some(b) => self_or_ancestor_has_syspath(*b, path),
    }
}

/// Some string of `v` reads `s`.
pub open spec fn contains_str(v: Seq<String>, s: Seq<char>) -> bool {
    exists|i: int| 0 <= i < v.len() && v[i]@ == s
}

/// A handle on one native device object, borrowing the context it was
/// created from.  Each handle stands for exactly one native reference,
/// whatever the path that created it; releasing the handle releases
/// exactly that one reference.
pub struct Device<'u> {
    pub udev: &'u Udev,
    pub dev: DeviceRecord,
}

/// Wraps a device record looked up by the native layer, or nothing where
/// the lookup returned null.
pub fn device<'u>(udev: &'u Udev, dev: Option<DeviceRecord>) -> (r: Option<Device<'u>>)
    ensures
        dev is None ==> r is None,
        dev matches Some(d) ==> (r matches Some(h) && h.udev == udev && h.dev == d),
{
    match dev {
        Some(d) => Some(Device { udev, dev: d }),
        None => None,
    }
}

/// The record behind a device handle.
pub fn device_get_dev<'s, 'u>(device: &'s Device<'u>) -> (r: &'s DeviceRecord)
    ensures
        *r == device.dev,
{
    &device.dev
}

impl<'u> Device<'u> {
    /// The context this handle was created from.
    pub fn udev(&self) -> (r: &'u Udev)
        ensures
            r == self.udev,
    {
        self.udev
    }

    /// The device's parent, as a fresh handle on its own native reference;
    /// absence is not an error.
    pub fn parent(&self) -> (r: Option<Device<'u>>)
        ensures
            self.dev.parent is None ==> r is None,
            self.dev.parent matches Some(p) ==> (r matches Some(d) && d.udev == self.udev
                && record_eq(d.dev, *p)),
    {
        match &self.dev.parent {
            Some(b) => Some(Device { udev: self.udev, dev: (**b).clone() }),
            None => None,
        }
    }

    /// The nearest ancestor with the given subsystem, as a fresh handle;
    /// absence is not an error.
    pub fn parent_with_subsystem(&self, subsystem: &str) -> (r: Option<Device<'u>>)
        ensures
            ancestor_matching(self.dev, subsystem@, None) is None ==> r is None,
            ancestor_matching(self.dev, subsystem@, None) matches Some(p) ==> (r matches Some(d)
                && d.udev == self.udev && record_eq(d.dev, p)),
    {
        let sub: String = subsystem.to_owned();
        let no_devtype: Option<String> = None;
        match ancestor_matching_exec(&self.dev, &sub, &no_devtype) {
            Some(p) => Some(Device { udev: self.udev, dev: p.clone() }),
            None => None,
        }
    }

    /// The nearest ancestor with the given subsystem and devtype, as a
    /// fresh handle; absence is not an error.
    pub fn parent_with_subsystem_devtype(&self, subsystem: &str, devtype: &str) -> (r: Option<
        Device<'u>,
    >)
        ensures
            ancestor_matching(self.dev, subsystem@, Some(devtype@)) is None ==> r is None,
            ancestor_matching(self.dev, subsystem@, Some(devtype@)) matches Some(p) ==> (r
                matches Some(d) && d.udev == self.udev && record_eq(d.dev, p)),
    {
        let sub: String = subsystem.to_owned();
        let dt: Option<String> = Some(devtype.to_owned());
        match ancestor_matching_exec(&self.dev, &sub, &dt) {
            Some(p) => Some(Device { udev: self.udev, dev: p.clone() }),
            None => None,
        }
    }

    /// Reads a sysfs attribute.  An attribute that is missing, or present
    /// without a value, is an application-level failure at this boundary,
    /// not a benign absence.
    pub fn attribute<'s>(&'s self, attr: &str) -> (r: Result<&'s str, IoError>)
        ensures
            match find_entry(self.dev.sysattrs@, attr@) {
                Some(e) => match e.value {
                    Some(v) => r matches Ok(t) && t@ == v@,
                    None => r matches Err(err) && err is NotFound,
                },
                None => r matches Err(err) && err is NotFound,
            },
    {
        let mut i: usize = 0;
        while i < self.dev.sysattrs.len()
            invariant
                i <= self.dev.sysattrs@.len(),
                forall|j: int| 0 <= j < i ==> self.dev.sysattrs@[j].name@ != attr@,
            decreases self.dev.sysattrs@.len() - i,
        {
            if str_eq(attr, &self.dev.sysattrs[i].name) {
                proof {
                    lemma_find_index_skip(self.dev.sysattrs@, attr@, i as int);
                    assert(self.dev.sysattrs@.skip(i as int)[0] == self.dev.sysattrs@[i as int]);
                    assert(find_entry(self.dev.sysattrs@, attr@) == Some(
                        self.dev.sysattrs@[i as int],
                    ));
                }
                return match &self.dev.sysattrs[i].value {
                    Some(v) => Ok(v.as_str()),
                    None => Err(IoError::NotFound),
                };
            }
            i = i + 1;
        }
        proof {
            lemma_find_index_skip(self.dev.sysattrs@, attr@, self.dev.sysattrs@.len() as int);
            assert(self.dev.sysattrs@.skip(self.dev.sysattrs@.len() as int)
                =~= Seq::<Entry>::empty());
        }
        Err(IoError::NotFound)
    }

    /// Writes a sysfs attribute.  The write succeeds exactly on the
    /// attributes the device carries; afterwards the attribute reads back
    /// the written value, and every other attribute is untouched.
    pub fn set_attribute(&mut self, attr: &str, value: &str) -> (r: Result<(), IoError>)
        ensures
            find_entry(old(self).dev.sysattrs@, attr@) is None ==> (r matches Err(e) && e
                is NotFound && *final(self) == *old(self)),
            find_entry(old(self).dev.sysattrs@, attr@) is Some ==> {
                let i = find_index(old(self).dev.sysattrs@, attr@);
                &&& r is Ok
                &&& final(self).udev == old(self).udev
                &&& final(self).dev == (DeviceRecord {
                    sysattrs: final(self).dev.sysattrs,
                    ..old(self).dev
                })
                &&& final(self).dev.sysattrs@.len() == old(self).dev.sysattrs@.len()
                &&& final(self).dev.sysattrs@[i].name == old(self).dev.sysattrs@[i].name
                &&& (final(self).dev.sysattrs@[i].value matches Some(v) && v@ == value@)
                &&& forall|j: int|
                    0 <= j < old(self).dev.sysattrs@.len() && j != i
                        ==> final(self).dev.sysattrs@[j] == old(self).dev.sysattrs@[j]
            },
    {
        let ghost entries0 = self.dev.sysattrs@;
        let mut i: usize = 0;
        while i < self.dev.sysattrs.len()
            invariant
                self.dev.sysattrs@ == entries0,
                *self == *old(self),
                i <= entries0.len(),
                forall|j: int| 0 <= j < i ==> entries0[j].name@ != attr@,
            decreases entries0.len() - i,
        {
            if str_eq(attr, &self.dev.sysattrs[i].name) {
                proof {
                    lemma_find_index_skip(entries0, attr@, i as int);
                    assert(entries0.skip(i as int)[0] == entries0[i as int]);
                }
                let name = self.dev.sysattrs[i].name.clone();
                self.dev.sysattrs.set(i, Entry { name, value: Some(value.to_owned()) });
                return Ok(());
            }
            i = i + 1;
        }
        proof {
            lemma_find_index_skip(entries0, attr@, entries0.len() as int);
            assert(entries0.skip(entries0.len() as int) =~= Seq::<Entry>::empty());
        }
        Err(IoError::NotFound)
    }

    /// The path to the device below `/sys`.
    pub fn devpath<'s>(&'s self) -> (r: &'s str)
        ensures
            r@ == self.dev.devpath@,
    {
        self.dev.devpath.as_str()
    }

    /// The full sysfs path of the device.
    pub fn syspath<'s>(&'s self) -> (r: &'s str)
        ensures
            r@ == self.dev.syspath@,
    {
        self.dev.syspath.as_str()
    }

    /// The device name, e.g. `wlan0`.
    pub fn sysname<'s>(&'s self) -> (r: &'s str)
        ensures
            r@ == self.dev.sysname@,
    {
        self.dev.sysname.as_str()
    }

    /// The device's subsystem, where the backend reports one.
    pub fn subsystem<'s>(&'s self) -> (r: Option<&'s str>)
        ensures
            self.dev.subsystem is None ==> r is None,
            self.dev.subsystem matches Some(s) ==> (r matches Some(t) && t@ == s@),
    {
        match &self.dev.subsystem {
            Some(s) => Some(s.as_str()),
            None => None,
        }
    }

    /// The device's devtype, where the backend reports one.
    pub fn devtype<'s>(&'s self) -> (r: Option<&'s str>)
        ensures
            self.dev.devtype is None ==> r is None,
            self.dev.devtype matches Some(s) ==> (r matches Some(t) && t@ == s@),
    {
        match &self.dev.devtype {
            Some(s) => Some(s.as_str()),
            None => None,
        }
    }

    /// The trailing number of the device name — the X in `ttyX` — parsed
    /// from its decimal text; nothing where the text is absent, not all
    /// digits, or too large for 64 bits.
    pub fn sysnum(&self) -> (r: Option<u64>)
        ensures
            self.dev.sysnum is None ==> r is None,
            self.dev.sysnum matches Some(s) ==> {
                &&& (r matches Some(v) ==> s@.len() > 0 && all_digits(s@) && v == dec_val(s@))
                &&& (r is None ==> s@.len() == 0 || !all_digits(s@) || dec_val(s@) > u64::MAX)
            },
    {
        match &self.dev.sysnum {
            Some(s) => parse_decimal(s.as_str()),
            None => None,
        }
    }

    /// The device's device number; zero is the sentinel for none.
    pub fn devnum(&self) -> (r: Option<Devnum>)
        ensures
            self.dev.devnum == 0 ==> r is None,
            self.dev.devnum != 0 ==> r == Some(self.dev.devnum),
    {
        if self.dev.devnum == 0 {
            None
        } else {
            Some(self.dev.devnum)
        }
    }

    /// The device's driver, where the backend reports one.
    pub fn driver<'s>(&'s self) -> (r: Option<&'s str>)
        ensures
            self.dev.driver is None ==> r is None,
            self.dev.driver matches Some(s) ==> (r matches Some(t) && t@ == s@),
    {
        match &self.dev.driver {
            Some(s) => Some(s.as_str()),
            None => None,
        }
    }

    /// The device's node below `/dev`, where one exists.
    pub fn devnode<'s>(&'s self) -> (r: Option<&'s str>)
        ensures
            self.dev.devnode is None ==> r is None,
            self.dev.devnode matches Some(s) ==> (r matches Some(t) && t@ == s@),
    {
        match &self.dev.devnode {
            Some(s) => Some(s.as_str()),
            None => None,
        }
    }

    /// Walks the device's links below `/dev`, e.g. the symlinks in
    /// `/dev/disk/by-*/`.
    pub fn iter_devlinks<'s>(&'s self) -> (r: PathIterator<'s, Device<'u>>)
        ensures
            r.iter.parent == self,
            r.iter.pos == 0,
            r.iter.entries@ == name_entries(self.dev.devlinks@),
    {
        path_iterator(self, names_to_entries(&self.dev.devlinks))
    }

    /// Walks the device's tags.
    pub fn iter_tags<'s>(&'s self) -> (r: KeyIterator<'s, Device<'u>>)
        ensures
            r.iter.parent == self,
            r.iter.pos == 0,
            r.iter.entries@ == name_entries(self.dev.tags@),
    {
        key_iterator(self, names_to_entries(&self.dev.tags))
    }

    /// Walks the device's properties as name/optional-value pairs.
    pub fn iter_properties<'s>(&'s self) -> (r: KeyOptValueIterator<'s, Device<'u>>)
        ensures
            r.iter.parent == self,
            r.iter.pos == 0,
            r.iter.entries@ == self.dev.properties@,
    {
        key_opt_value_iterator(self, clone_entries(&self.dev.properties))
    }

    /// Walks the device's sysfs attribute names.
    pub fn iter_attributes<'s>(&'s self) -> (r: KeyIterator<'s, Device<'u>>)
        ensures
            r.iter.parent == self,
            r.iter.pos == 0,
            r.iter.entries@ == self.dev.sysattrs@,
    {
        key_iterator(self, clone_entries(&self.dev.sysattrs))
    }

    /// Microseconds since the backend initialized the device; the native
    /// zero reading means "unknown", not "no time has passed".
    pub fn time_since_initialized(&self) -> (r: Option<u64>)
        ensures
            self.dev.usec_since_initialized == 0 ==> r is None,
            self.dev.usec_since_initialized != 0 ==> r == Some(self.dev.usec_since_initialized),
    {
        if self.dev.usec_since_initialized == 0 {
            None
        } else {
            Some(self.dev.usec_since_initialized)
        }
    }

    /// Whether the backend has initialized the device.
    pub fn is_initialized(&self) -> (r: bool)
        ensures
            r == self.dev.initialized,
    {
        self.dev.initialized
    }

    /// Whether the device carries the given tag.
    pub fn has_tag(&self, tag: &str) -> (r: bool)
        ensures
            r == contains_str(self.dev.tags@, tag@),
    {
        let mut i: usize = 0;
        while i < self.dev.tags.len()
            invariant
                i <= self.dev.tags@.len(),
                forall|j: int| 0 <= j < i ==> self.dev.tags@[j]@ != tag@,
            decreases self.dev.tags@.len() - i,
        {
            if str_eq(tag, &self.dev.tags[i]) {
                proof {
                    assert(self.dev.tags@[i as int]@ == tag@);
                    assert(contains_str(self.dev.tags@, tag@));
                }
                return true;
            }
            i = i + 1;
        }
        false
    }

    /// An enumerator constrained to this device and its descendants.
    pub fn children<'s>(&'s self) -> (r: crate::enumerator::Enumerator<'u>)
        ensures
            r.udev == self.udev,
            r.filters@ == Seq::<crate::enumerator::Filter>::empty(),
            r.parent matches Some(p) && p@ == self.dev.syspath@,
            r.results@ == Seq::<String>::empty(),
    {
        crate::enumerator::enumerator(self.udev).match_parent(self)
    }
}

fn record_matches(d: &DeviceRecord, sub: &String, dt: &Option<String>) -> (r: bool)
    ensures
        r == matches_subsystem_devtype(
            *d,
            sub@,
            match *dt {
                Some(t) => Some(t@),
                None => None,
            },
        ),
{
    let sub_ok = match &d.subsystem {
        Some(s) => *s == *sub,
        None => false,
    };
    let dt_ok = match dt {
        Some(t) => match &d.devtype {
            Some(x) => *x == *t,
            None => false,
        },
        None => true,
    };
    sub_ok && dt_ok
}

fn ancestor_matching_exec<'a>(d: &'a DeviceRecord, sub: &String, dt: &Option<String>) -> (r:
    Option<&'a DeviceRecord>)
    ensures
        ({
            let found = ancestor_matching(
                *d,
                sub@,
                match *dt {
                    Some(t) => Some(t@),
                    None => None,
                },
            );
            &&& (found is None ==> r is None)
            &&& (found matches Some(p) ==> r matches Some(q) && *q == p)
        }),
    decreases *d,
{
    match &d.parent {
        None => None,
        Some(b) => {
            if record_matches(&**b, sub, dt) {
                Some(&**b)
            } else {
                ancestor_matching_exec(&**b, sub, dt)
            }
        },
    }
}

/// A successful attribute write followed by a read of the same attribute
/// returns exactly the written value: the write's effect on the attribute
/// list, as `set_attribute` states it, pins the entry that `attribute`
/// then finds.
pub proof fn lemma_attribute_round_trip(
    before: Seq<Entry>,
    after: Seq<Entry>,
    attr: Seq<char>,
    value: Seq<char>,
)
    requires
        find_entry(before, attr) is Some,
        after.len() == before.len(),
        after[find_index(before, attr)].name == before[find_index(before, attr)].name,
        after[find_index(before, attr)].value matches Some(v) && v@ == value,
        forall|j: int|
            0 <= j < before.len() && j != find_index(before, attr) ==> after[j] == before[j],
    ensures
        find_entry(after, attr) matches Some(e) && e.value matches Some(v) && v@ == value,
{
    let i = find_index(before, attr);
    lemma_find_index_bounds(before, attr);
    assert(after =~= before.update(i, after[i]));
    lemma_find_index_update_same_name(before, i, after[i], attr);
}

} // verus!
