//! The event monitor.
//!
//! A monitor is bound to an event socket and accumulates filters in the
//! same consume-and-return style as the enumerator.  Once iteration
//! starts, the socket is switched into receive-enabled mode and the
//! iterator blocks until an event arrives; the sequence of events never
//! terminates on its own.  The iterator's decision logic — what to do
//! with each outcome of a receive call — is a total step function with no
//! terminal outcome: every possible input either yields an event, asks
//! the caller to wait again, or reports a fatal condition.

use vstd::prelude::*;

verus! {

use crate::device::{Device, DeviceRecord};
use crate::udev::Udev;
use crate::util::{ENOMEM, str_is};

/// The closed set of event actions the backend reports, plus a catch-all
/// carrying the raw text of any action outside it.
#[derive(Debug, PartialEq, Eq)]
pub enum Action {
    Add,
    Remove,
    Change,
    Move,
    Online,
    Offline,
    Other(String),
}

/// `a` is the parse of the action text `s`: one of the known actions
/// where the text names one, and the raw text itself otherwise.
pub open spec fn is_parsed_action(s: Seq<char>, a: Action) -> bool {
    if s == "add"@ {
        a == Action::Add
    } else if s == "remove"@ {
        a == Action::Remove
    } else if s == "change"@ {
        a == Action::Change
    } else if s == "move"@ {
        a == Action::Move
    } else if s == "online"@ {
        a == Action::Online
    } else if s == "offline"@ {
        a == Action::Offline
    } else {
        a matches Action::Other(t) && t@ == s
    }
}

impl Action {
    /// Parses an event's action text.  Unknown actions are preserved as
    /// raw text rather than rejected, for forward compatibility.
    pub fn from_str(s: &str) -> (r: Action)
        ensures
            is_parsed_action(s@, r),
    {
        if str_is(s, "add") {
            Action::Add
        } else if str_is(s, "remove") {
            Action::Remove
        } else if str_is(s, "change") {
            Action::Change
        } else if str_is(s, "move") {
            Action::Move
        } else if str_is(s, "online") {
            Action::Online
        } else if str_is(s, "offline") {
            Action::Offline
        } else {
            Action::Other(s.to_owned())
        }
    }
}

/// One received event: what happened, and the backend's sequence number.
pub struct Event {
    pub action: Action,
    pub seqnum: u64,
}

/// One filter constraint accumulated on a monitor.
pub enum MonitorFilter {
    Subsystem(String),
    SubsystemDevtype(String, String),
    Tag(String),
}

/// A handle on one event socket, borrowing its context.  Filters are
/// accumulated builder-style; receiving starts when an iterator is made.
pub struct Monitor<'u> {
    pub udev: &'u Udev,
    /// The channel the socket is bound to.
    pub channel: String,
    pub filters: Vec<MonitorFilter>,
    pub receiving: bool,
}

/// Wraps a freshly bound event socket.
pub fn monitor<'u>(udev: &'u Udev, channel: String) -> (r: Monitor<'u>)
    ensures
        r.udev == udev,
        r.channel == channel,
        r.filters@ == Seq::<MonitorFilter>::empty(),
        !r.receiving,
{
    Monitor { udev, channel, filters: Vec::new(), receiving: false }
}

impl<'u> Monitor<'u> {
    /// The context this handle was created from.
    pub fn udev(&self) -> (r: &'u Udev)
        ensures
            r == self.udev,
    {
        self.udev
    }

    /// Excludes devices that match neither this subsystem nor an earlier
    /// filter.
    pub fn filter_subsystem(self, subsystem: &str) -> (r: Monitor<'u>)
        ensures
            r.udev == self.udev,
            r.channel == self.channel,
            r.receiving == self.receiving,
            r.filters@.len() == self.filters@.len() + 1,
            r.filters@.take(self.filters@.len() as int) == self.filters@,
            r.filters@.last() matches MonitorFilter::Subsystem(s) && s@ == subsystem@,
    {
        let mut m = self;
        m.filters.push(MonitorFilter::Subsystem(subsystem.to_owned()));
        proof {
            assert(m.filters@.take(self.filters@.len() as int) =~= self.filters@);
        }
        m
    }

    /// Excludes devices that match neither this subsystem/devtype pair
    /// nor an earlier filter.
    pub fn filter_subsystem_devtype(self, subsystem: &str, devtype: &str) -> (r: Monitor<'u>)
        ensures
            r.udev == self.udev,
            r.channel == self.channel,
            r.receiving == self.receiving,
            r.filters@.len() == self.filters@.len() + 1,
            r.filters@.take(self.filters@.len() as int) == self.filters@,
            r.filters@.last() matches MonitorFilter::SubsystemDevtype(s, d) && s@ == subsystem@
                && d@ == devtype@,
    {
        let mut m = self;
        m.filters.push(
            MonitorFilter::SubsystemDevtype(subsystem.to_owned(), devtype.to_owned()),
        );
        proof {
            assert(m.filters@.take(self.filters@.len() as int) =~= self.filters@);
        }
        m
    }

    /// Excludes devices that match neither this tag nor an earlier filter.
    pub fn filter_tag(self, tag: &str) -> (r: Monitor<'u>)
        ensures
            r.udev == self.udev,
            r.channel == self.channel,
            r.receiving == self.receiving,
            r.filters@.len() == self.filters@.len() + 1,
            r.filters@.take(self.filters@.len() as int) == self.filters@,
            r.filters@.last() matches MonitorFilter::Tag(t) && t@ == tag@,
    {
        let mut m = self;
        m.filters.push(MonitorFilter::Tag(tag.to_owned()));
        proof {
            assert(m.filters@.take(self.filters@.len() as int) =~= self.filters@);
        }
        m
    }

    /// Resets every filter: no device will be excluded.
    pub fn unfilter(self) -> (r: Monitor<'u>)
        ensures
            r.udev == self.udev,
            r.channel == self.channel,
            r.receiving == self.receiving,
            r.filters@ == Seq::<MonitorFilter>::empty(),
    {
        let mut m = self;
        m.filters = Vec::new();
        m
    }

    /// Starts receiving and hands out the event iterator.  Enabling
    /// receiving is idempotent, so a second iterator is harmless — the
    /// system is single-threaded and two `next` calls can never
    /// interleave.
    pub fn iter<'m>(&'m mut self) -> (r: MonitorIterator<'m, 'u>)
        ensures
            final(self).udev == old(self).udev,
            final(self).channel == old(self).channel,
            final(self).filters == old(self).filters,
            final(self).receiving,
            r.monitor == *final(self),
    {
        self.receiving = true;
        MonitorIterator { monitor: self }
    }
}

/// The blocking event iterator.  It has no terminal state: it blocks
/// until an event arrives and never ends on its own; the only way to stop
/// consuming events is to drop it.
pub struct MonitorIterator<'m, 'u> {
    pub monitor: &'m Monitor<'u>,
}

/// What one receive outcome means for the event loop.  There is no
/// "finished" outcome: a sequence of events never terminates.
pub enum MonitorStep<'u> {
    /// An event arrived: the parsed action and sequence number, and the
    /// device, adopted without an extra native reference since the
    /// receive call transfers ownership.
    Received(Event, Device<'u>),
    /// A benign empty read or a transient error: wait and receive again.
    Retry,
    /// The backend could not allocate; unrecoverable.
    OutOfMemory,
    /// The received device carried no action text, which the backend's
    /// contract rules out: a defect, to be reported loudly.
    Violation,
}

impl<'m, 'u> MonitorIterator<'m, 'u> {
    /// Decides what one outcome of the blocking receive call means: a
    /// device with its action text yields an event, an empty read or a
    /// transient error asks the caller to block and retry, and only an
    /// allocation failure or a contract violation stops the loop.  No
    /// input produces a terminal "sequence ended" outcome.
    pub fn step(&self, received: Option<DeviceRecord>, errno: i32) -> (r: MonitorStep<'u>)
        ensures
            received is None && errno == ENOMEM ==> r is OutOfMemory,
            received is None && errno != ENOMEM ==> r is Retry,
            received matches Some(d) ==> match d.action {
                Some(a) => r matches MonitorStep::Received(e, dev) && is_parsed_action(
                    a@,
                    e.action,
                ) && e.seqnum == d.seqnum && dev.udev == self.monitor.udev && dev.dev == d,
                None => r is Violation,
            },
    {
        match received {
            None => {
                if errno == ENOMEM {
                    MonitorStep::OutOfMemory
                } else {
                    MonitorStep::Retry
                }
            },
            Some(d) => {
                let action = match &d.action {
                    Some(a) => Action::from_str(a.as_str()),
                    None => {
                        return MonitorStep::Violation;
                    },
                };
                let seqnum = d.seqnum;
                MonitorStep::Received(
                    Event { action, seqnum },
                    Device { udev: self.monitor.udev, dev: d },
                )
            },
        }
    }
}

} // verus!
