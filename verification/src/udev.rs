//! The context handle.
//!
//! The context is the root object: it owns the model of the backend's
//! state — the device tree in dependency order, the hardware database and
//! its health, and whether the event socket can be opened — and it is the
//! factory for every other handle, all of which borrow it and so cannot
//! outlive it.

use vstd::prelude::*;

verus! {

use crate::device::{Device, DeviceRecord, DeviceType, Devnum, record_eq, subsystem_is};
use crate::enumerator::{Enumerator, Filter, enumerator};
use crate::hwdb::{Hwdb, HwdbRecord, hwdb, hwdb_record_wf};
use crate::monitor::{Monitor, MonitorFilter, monitor};
use crate::util::{CallStatus, EINVAL, ENOMEM, IoError, str_eq};

/// Health of the hardware database behind a context: usable, present but
/// corrupt, or unreadable with the error number the backend reported.
pub enum HwdbState {
    Available,
    Corrupt,
    Unreadable(i32),
}

/// The root handle: the model of one native context and the factory for
/// device, enumerator, monitor and hardware-database handles.  Handles
/// borrow the context for their lifetime, so none can outlive it; the
/// context is not shareable across threads.
pub struct Udev {
    /// The device tree, in the backend's dependency order: parents stand
    /// before their children.
    pub devices: Vec<DeviceRecord>,
    /// The hardware-database records.
    pub hwdb_records: Vec<HwdbRecord>,
    /// Whether the hardware database can be opened.
    pub hwdb_state: HwdbState,
    /// The error number opening an event socket would report, or nothing
    /// where netlink is reachable.
    pub netlink_errno: Option<i32>,
}

/// The first device of `devs` with the sysfs path `path`, if any.
pub open spec fn lookup_syspath(devs: Seq<DeviceRecord>, path: Seq<char>) -> Option<DeviceRecord>
    decreases devs.len(),
{
    if devs.len() == 0 {
        None
    } else if devs[0].syspath@ == path {
        Some(devs[0])
    } else {
        lookup_syspath(devs.drop_first(), path)
    }
}

/// A scan that has passed `i` devices without a path match resolves the
/// lookup where the rest of the list does.
pub proof fn lemma_lookup_syspath_skip(devs: Seq<DeviceRecord>, path: Seq<char>, i: int)
    requires
        0 <= i <= devs.len(),
        forall|j: int| 0 <= j < i ==> devs[j].syspath@ != path,
    ensures
        lookup_syspath(devs, path) == lookup_syspath(devs.skip(i), path),
    decreases i,
{
    if i > 0 {
        let rest = devs.drop_first();
        assert(rest =~= devs.skip(1));
        assert forall|j: int| 0 <= j < i - 1 implies rest[j].syspath@ != path by {
            assert(rest[j] == devs[j + 1]);
        };
        lemma_lookup_syspath_skip(rest, path, i - 1);
        assert(rest.skip(i - 1) =~= devs.skip(i));
    } else {
        assert(devs.skip(0) =~= devs);
    }
}

/// The record has the given namespace and device number.
pub open spec fn devnum_is(d: DeviceRecord, kind: DeviceType, devnum: Devnum) -> bool {
    d.kind == Some(kind) && d.devnum == devnum
}

/// The first device of `devs` with the given namespace and device number,
/// if any.
pub open spec fn lookup_devnum(devs: Seq<DeviceRecord>, kind: DeviceType, devnum: Devnum) -> Option<
    DeviceRecord,
>
    decreases devs.len(),
{
    if devs.len() == 0 {
        None
    } else if devnum_is(devs[0], kind, devnum) {
        Some(devs[0])
    } else {
        lookup_devnum(devs.drop_first(), kind, devnum)
    }
}

/// A scan that has passed `i` devices without a device-number match
/// resolves the lookup where the rest of the list does.
pub proof fn lemma_lookup_devnum_skip(devs: Seq<DeviceRecord>, kind: DeviceType, devnum: Devnum, i: int)
    requires
        0 <= i <= devs.len(),
        forall|j: int| 0 <= j < i ==> !devnum_is(devs[j], kind, devnum),
    ensures
        lookup_devnum(devs, kind, devnum) == lookup_devnum(devs.skip(i), kind, devnum),
    decreases i,
{
    if i > 0 {
        let rest = devs.drop_first();
        assert(rest =~= devs.skip(1));
        assert forall|j: int| 0 <= j < i - 1 implies !devnum_is(rest[j], kind, devnum) by {
            assert(rest[j] == devs[j + 1]);
        };
        lemma_lookup_devnum_skip(rest, kind, devnum, i - 1);
        assert(rest.skip(i - 1) =~= devs.skip(i));
    } else {
        assert(devs.skip(0) =~= devs);
    }
}

/// The record has the given subsystem and device name.
pub open spec fn subsystem_sysname_is(d: DeviceRecord, sub: Seq<char>, name: Seq<char>) -> bool {
    subsystem_is(d, sub) && d.sysname@ == name
}

/// The first device of `devs` with the given subsystem and device name,
/// if any.
pub open spec fn lookup_subsystem_sysname(
    devs: Seq<DeviceRecord>,
    sub: Seq<char>,
    name: Seq<char>,
) -> Option<DeviceRecord>
    decreases devs.len(),
{
    if devs.len() == 0 {
        None
    } else if subsystem_sysname_is(devs[0], sub, name) {
        Some(devs[0])
    } else {
        lookup_subsystem_sysname(devs.drop_first(), sub, name)
    }
}

/// A scan that has passed `i` devices without a subsystem-and-name match
/// resolves the lookup where the rest of the list does.
pub proof fn lemma_lookup_subsystem_sysname_skip(
    devs: Seq<DeviceRecord>,
    sub: Seq<char>,
    name: Seq<char>,
    i: int,
)
    requires
        0 <= i <= devs.len(),
        forall|j: int| 0 <= j < i ==> !subsystem_sysname_is(devs[j], sub, name),
    ensures
        lookup_subsystem_sysname(devs, sub, name) == lookup_subsystem_sysname(
            devs.skip(i),
            sub,
            name,
        ),
    decreases i,
{
    if i > 0 {
        let rest = devs.drop_first();
        assert(rest =~= devs.skip(1));
        assert forall|j: int| 0 <= j < i - 1 implies !subsystem_sysname_is(rest[j], sub, name) by {
            assert(rest[j] == devs[j + 1]);
        };
        lemma_lookup_subsystem_sysname_skip(rest, sub, name, i - 1);
        assert(rest.skip(i - 1) =~= devs.skip(i));
    } else {
        assert(devs.skip(0) =~= devs);
    }
}

impl Udev {
    /// The context's state is consistent with the backend's guarantees:
    /// hardware-database records always carry non-empty values, and the
    /// error numbers the backend may report exclude the codes that the
    /// handle layer treats as fatal or as defects.
    pub open spec fn wf(self) -> bool {
        &&& forall|k: int|
            0 <= k < self.hwdb_records@.len() ==> hwdb_record_wf(#[trigger] self.hwdb_records@[k])
        &&& (self.netlink_errno matches Some(e) ==> e != 0 && e != ENOMEM && e != EINVAL)
        &&& (self.hwdb_state matches HwdbState::Unreadable(e) ==> e != 0 && e != ENOMEM && e != EINVAL)
    }

    /// Creates a context over an empty backend state.  Obtaining the
    /// native context either succeeds or is a fatal allocation failure, so
    /// creation itself has no error path.
    pub fn new() -> (r: Udev)
        ensures
            r.devices@ == Seq::<DeviceRecord>::empty(),
            r.hwdb_records@ == Seq::<HwdbRecord>::empty(),
            r.hwdb_state is Available,
            r.netlink_errno is None,
            r.wf(),
    {
        Udev {
            devices: Vec::new(),
            hwdb_records: Vec::new(),
            hwdb_state: HwdbState::Available,
            netlink_errno: None,
        }
    }

    fn create_monitor<'s>(&'s self, name: &str) -> (r: Result<Monitor<'s>, IoError>)
        requires
            self.wf(),
        ensures
            self.netlink_errno is None ==> (r matches Ok(m) && m.udev == self && m.channel@
                == name@ && m.filters@ == Seq::<MonitorFilter>::empty() && !m.receiving),
            self.netlink_errno matches Some(e) ==> (r matches Err(err) && err == IoError::Errno(
                e,
            )),
    {
        match self.netlink_errno {
            None => Ok(monitor(self, name.to_owned())),
            Some(e) => Err(IoError::Errno(e)),
        }
    }

    /// Binds an event socket to the processed-event channel and forces it
    /// into blocking mode.  Fails with the backend's error number where
    /// netlink cannot be reached.
    pub fn monitor<'s>(&'s self) -> (r: Result<Monitor<'s>, IoError>)
        requires
            self.wf(),
        ensures
            self.netlink_errno is None ==> (r matches Ok(m) && m.udev == self && m.channel@
                == "udev"@ && m.filters@ == Seq::<MonitorFilter>::empty() && !m.receiving),
            self.netlink_errno matches Some(e) ==> (r matches Err(err) && err == IoError::Errno(
                e,
            )),
    {
        self.create_monitor("udev")
    }

    /// Binds an event socket to the raw kernel channel.  The backend
    /// warns against consuming kernel events directly: devices may not be
    /// usable before the processed-event channel has configured them.
    pub fn monitor_kernel<'s>(&'s self) -> (r: Result<Monitor<'s>, IoError>)
        requires
            self.wf(),
        ensures
            self.netlink_errno is None ==> (r matches Ok(m) && m.udev == self && m.channel@
                == "kernel"@ && m.filters@ == Seq::<MonitorFilter>::empty() && !m.receiving),
            self.netlink_errno matches Some(e) ==> (r matches Err(err) && err == IoError::Errno(
                e,
            )),
    {
        self.create_monitor("kernel")
    }

    /// Opens the hardware database.  A corrupt database reads as the error
    /// number zero, any other failure keeps the backend's error number;
    /// allocation failure does not reach this layer.
    pub fn hwdb<'s>(&'s self) -> (r: Result<Hwdb<'s>, i32>)
        ensures
            self.hwdb_state is Available ==> (r matches Ok(h) && h.udev == self),
            self.hwdb_state is Corrupt ==> (r matches Err(e) && e == 0),
            self.hwdb_state matches HwdbState::Unreadable(code) ==> (r matches Err(e) && e == code),
    {
        match self.hwdb_state {
            HwdbState::Available => Ok(hwdb(self)),
            HwdbState::Corrupt => Err(0),
            HwdbState::Unreadable(code) => Err(code),
        }
    }

    /// Creates a device enumerator over this context.  Creation either
    /// succeeds or is a fatal allocation failure, so it has no error
    /// path.
    pub fn enumerator<'s>(&'s self) -> (r: Enumerator<'s>)
        ensures
            r.udev == self,
            r.filters@ == Seq::<Filter>::empty(),
            r.parent is None,
            r.results@ == Seq::<String>::empty(),
    {
        enumerator(self)
    }

    /// Looks up a device by its sysfs path.  Both a missing device and a
    /// backend error collapse to nothing at this boundary.
    pub fn device<'s>(&'s self, path: &str) -> (r: Option<Device<'s>>)
        ensures
            lookup_syspath(self.devices@, path@) is None ==> r is None,
            lookup_syspath(self.devices@, path@) matches Some(d) ==> (r matches Some(h) && h.udev
                == self && record_eq(h.dev, d)),
    {
        let mut i: usize = 0;
        while i < self.devices.len()
            invariant
                i <= self.devices@.len(),
                forall|j: int| 0 <= j < i ==> self.devices@[j].syspath@ != path@,
            decreases self.devices@.len() - i,
        {
            if str_eq(path, &self.devices[i].syspath) {
                proof {
                    lemma_lookup_syspath_skip(self.devices@, path@, i as int);
                    assert(self.devices@.skip(i as int)[0] == self.devices@[i as int]);
                    assert(lookup_syspath(self.devices@, path@) == Some(self.devices@[i as int]));
                }
                return Some(Device { udev: self, dev: self.devices[i].clone() });
            }
            i = i + 1;
        }
        proof {
            lemma_lookup_syspath_skip(self.devices@, path@, self.devices@.len() as int);
            assert(self.devices@.skip(self.devices@.len() as int) =~= Seq::<DeviceRecord>::empty());
        }
        None
    }

    /// Looks up a device by its namespace and device number.
    pub fn device_from_devnum<'s>(&'s self, ty: DeviceType, devnum: Devnum) -> (r: Option<
        Device<'s>,
    >)
        ensures
            lookup_devnum(self.devices@, ty, devnum) is None ==> r is None,
            lookup_devnum(self.devices@, ty, devnum) matches Some(d) ==> (r matches Some(h)
                && h.udev == self && record_eq(h.dev, d)),
    {
        let mut i: usize = 0;
        while i < self.devices.len()
            invariant
                i <= self.devices@.len(),
                forall|j: int| 0 <= j < i ==> !devnum_is(self.devices@[j], ty, devnum),
            decreases self.devices@.len() - i,
        {
            let kind_ok = match self.devices[i].kind {
                Some(k) => k == ty,
                None => false,
            };
            if kind_ok && self.devices[i].devnum == devnum {
                proof {
                    lemma_lookup_devnum_skip(self.devices@, ty, devnum, i as int);
                    assert(self.devices@.skip(i as int)[0] == self.devices@[i as int]);
                    assert(lookup_devnum(self.devices@, ty, devnum) == Some(
                        self.devices@[i as int],
                    ));
                }
                return Some(Device { udev: self, dev: self.devices[i].clone() });
            }
            i = i + 1;
        }
        proof {
            lemma_lookup_devnum_skip(self.devices@, ty, devnum, self.devices@.len() as int);
            assert(self.devices@.skip(self.devices@.len() as int) =~= Seq::<DeviceRecord>::empty());
        }
        None
    }

    /// Looks up a device by its subsystem and device name.
    pub fn device_from_subsystem_sysname<'s>(&'s self, subsystem: &str, sysname: &str) -> (r:
        Option<Device<'s>>)
        ensures
            lookup_subsystem_sysname(self.devices@, subsystem@, sysname@) is None ==> r is None,
            lookup_subsystem_sysname(self.devices@, subsystem@, sysname@) matches Some(d) ==> (r
                matches Some(h) && h.udev == self && record_eq(h.dev, d)),
    {
        let mut i: usize = 0;
        while i < self.devices.len()
            invariant
                i <= self.devices@.len(),
                forall|j: int|
                    0 <= j < i ==> !subsystem_sysname_is(self.devices@[j], subsystem@, sysname@),
            decreases self.devices@.len() - i,
        {
            let sub_ok = match &self.devices[i].subsystem {
                Some(s) => str_eq(subsystem, s),
                None => false,
            };
            if sub_ok && str_eq(sysname, &self.devices[i].sysname) {
                proof {
                    lemma_lookup_subsystem_sysname_skip(
                        self.devices@,
                        subsystem@,
                        sysname@,
                        i as int,
                    );
                    assert(self.devices@.skip(i as int)[0] == self.devices@[i as int]);
                    assert(lookup_subsystem_sysname(self.devices@, subsystem@, sysname@) == Some(
                        self.devices@[i as int],
                    ));
                }
                return Some(Device { udev: self, dev: self.devices[i].clone() });
            }
            i = i + 1;
        }
        proof {
            lemma_lookup_subsystem_sysname_skip(
                self.devices@,
                subsystem@,
                sysname@,
                self.devices@.len() as int,
            );
            assert(self.devices@.skip(self.devices@.len() as int) =~= Seq::<DeviceRecord>::empty());
        }
        None
    }
}

/// How creating a monitor proceeds after the native bind call: the
/// socket handle is there, the outcome marks a defect in the caller, the
/// backend could not allocate, or a real error with its code preserved.
pub enum MonitorCreation<T> {
    Ready(T),
    Bug,
    Fatal,
    Fail(i32),
}

/// Classifies the three-way outcome of the native bind call that creates
/// a monitor.  A benign null and an invalid-argument error are both
/// outside the call's contract here, so they mark defects; allocation
/// failure is unrecoverable; any other error is surfaced with its code.
pub fn classify_monitor_creation<T>(c: CallStatus<T>) -> (r: MonitorCreation<T>)
    ensures
        c matches CallStatus::Found(m) ==> r == MonitorCreation::Ready(m),
        c is Absent ==> r is Bug,
        c is OutOfMemory ==> r is Fatal,
        c matches CallStatus::Error(e) ==> ((e == EINVAL ==> r is Bug) && (e != EINVAL ==> r
            == MonitorCreation::<T>::Fail(e))),
{
    match c {
        CallStatus::Found(m) => MonitorCreation::Ready(m),
        CallStatus::Absent => MonitorCreation::Bug,
        CallStatus::OutOfMemory => MonitorCreation::Fatal,
        CallStatus::Error(e) => {
            if e == EINVAL {
                MonitorCreation::Bug
            } else {
                MonitorCreation::Fail(e)
            }
        },
    }
}

/// How a failed flag query or update on the event socket is read:
/// allocation failure and invalid-argument both mark defects while the
/// socket is being set up, any other error is surfaced with its code.
pub enum SocketSetup {
    Bug,
    Fail(i32),
}

/// Classifies the error number left by a failed flag query or update on
/// the freshly bound event socket.
pub fn classify_fcntl_error(errno: i32) -> (r: SocketSetup)
    ensures
        errno == ENOMEM || errno == EINVAL ==> r is Bug,
        !(errno == ENOMEM || errno == EINVAL) ==> r == SocketSetup::Fail(errno),
{
    if errno == ENOMEM || errno == EINVAL {
        SocketSetup::Bug
    } else {
        SocketSetup::Fail(errno)
    }
}

} // verus!
