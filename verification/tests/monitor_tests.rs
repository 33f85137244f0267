use udev_rs::device::DeviceRecord;
use udev_rs::monitor::{monitor, Action, MonitorFilter, MonitorStep};
use udev_rs::util::ENOMEM;
use udev_rs::Udev;

fn record(syspath: &str, sysname: &str) -> DeviceRecord {
    DeviceRecord {
        devpath: syspath.trim_start_matches("/sys").to_string(),
        syspath: syspath.to_string(),
        sysname: sysname.to_string(),
        subsystem: None,
        devtype: None,
        sysnum: None,
        devnum: 0,
        kind: None,
        driver: None,
        devnode: None,
        initialized: false,
        usec_since_initialized: 0,
        action: None,
        seqnum: 0,
        tags: Vec::new(),
        properties: Vec::new(),
        sysattrs: Vec::new(),
        devlinks: Vec::new(),
        subsystem_entry: false,
        parent: None,
    }
}

#[test]
fn action_parses_the_closed_set() {
    assert_eq!(Action::from_str("add"), Action::Add);
    assert_eq!(Action::from_str("remove"), Action::Remove);
    assert_eq!(Action::from_str("change"), Action::Change);
    assert_eq!(Action::from_str("move"), Action::Move);
    assert_eq!(Action::from_str("online"), Action::Online);
    assert_eq!(Action::from_str("offline"), Action::Offline);
}

#[test]
fn action_keeps_unknown_text() {
    assert_eq!(Action::from_str("bind"), Action::Other("bind".to_string()));
    assert_eq!(Action::from_str(""), Action::Other(String::new()));
}

#[test]
fn filters_accumulate_and_reset() {
    let u = Udev::new();
    let m = monitor(&u, "udev".to_string())
        .filter_subsystem("tty")
        .filter_subsystem_devtype("block", "disk")
        .filter_tag("seat");
    assert_eq!(m.filters.len(), 3);
    assert!(matches!(&m.filters[0], MonitorFilter::Subsystem(s) if s == "tty"));
    assert!(
        matches!(&m.filters[1], MonitorFilter::SubsystemDevtype(s, d) if s == "block" && d == "disk")
    );
    assert!(matches!(&m.filters[2], MonitorFilter::Tag(t) if t == "seat"));
    let m = m.unfilter();
    assert!(m.filters.is_empty());
}

#[test]
fn iter_enables_receiving_idempotently() {
    let u = Udev::new();
    let mut m = monitor(&u, "udev".to_string());
    assert!(!m.receiving);
    {
        let _it = m.iter();
    }
    assert!(m.receiving);
    {
        let _again = m.iter();
    }
    assert!(m.receiving);
}

#[test]
fn empty_reads_never_complete_the_sequence() {
    // With no incoming events the iterator only ever asks to wait again:
    // there is no terminal outcome to reach.
    let u = Udev::new();
    let mut m = monitor(&u, "udev".to_string());
    let it = m.iter();
    for _ in 0..64 {
        assert!(matches!(it.step(None, 0), MonitorStep::Retry));
    }
}

#[test]
fn transient_errors_retry_silently() {
    let u = Udev::new();
    let mut m = monitor(&u, "udev".to_string());
    let it = m.iter();
    assert!(matches!(it.step(None, 11), MonitorStep::Retry));
}

#[test]
fn allocation_failure_is_fatal() {
    let u = Udev::new();
    let mut m = monitor(&u, "udev".to_string());
    let it = m.iter();
    assert!(matches!(it.step(None, ENOMEM), MonitorStep::OutOfMemory));
}

#[test]
fn received_device_becomes_an_event() {
    let u = Udev::new();
    let mut m = monitor(&u, "udev".to_string());
    let it = m.iter();
    let mut r = record("/sys/class/tty/ttyUSB0", "ttyUSB0");
    r.action = Some("add".to_string());
    r.seqnum = 42;
    match it.step(Some(r), 0) {
        MonitorStep::Received(event, dev) => {
            assert_eq!(event.action, Action::Add);
            assert_eq!(event.seqnum, 42);
            assert_eq!(dev.sysname(), "ttyUSB0");
        },
        _ => panic!("expected an event"),
    }
}

#[test]
fn missing_action_text_is_a_violation() {
    let u = Udev::new();
    let mut m = monitor(&u, "udev".to_string());
    let it = m.iter();
    let r = record("/sys/class/tty/ttyUSB0", "ttyUSB0");
    assert!(matches!(it.step(Some(r), 0), MonitorStep::Violation));
}

#[test]
fn monitor_udev_accessor() {
    let u = Udev::new();
    let m = monitor(&u, "kernel".to_string());
    assert!(m.udev().devices.is_empty());
    assert_eq!(m.channel, "kernel");
}
