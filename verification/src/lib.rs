//! A safety layer over a reference-counted device-management backend:
//! device enumeration, hot-plug event monitoring, and a hardware property
//! database, exposed through handles whose lifetimes and mutation rules are
//! checked statically.
//!
//! The native backend itself (its reference counting, its netlink socket and
//! its sysfs traversal) is an external collaborator; this crate holds the
//! decision logic that sits in front of it: the three-way classification of a
//! fallible native call, the generic walk over native name/value lists, the
//! filter semantics of the enumerator, the event-loop decisions of the
//! monitor, and the reference-count discipline every device handle follows.

pub mod device;
pub mod enumerator;
pub mod hwdb;
pub mod iterator;
pub mod monitor;
pub mod refcount;
pub mod udev;
pub mod util;

pub use udev::Udev;
