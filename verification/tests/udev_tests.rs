use udev_rs::device::{DeviceRecord, DeviceType};
use udev_rs::udev::{
    classify_fcntl_error, classify_monitor_creation, HwdbState, MonitorCreation, SocketSetup,
};
use udev_rs::util::{CallStatus, IoError, EINVAL, ENOMEM};
use udev_rs::Udev;

fn record(syspath: &str, sysname: &str) -> DeviceRecord {
    DeviceRecord {
        devpath: syspath.trim_start_matches("/sys").to_string(),
        syspath: syspath.to_string(),
        sysname: sysname.to_string(),
        subsystem: None,
        devtype: None,
        sysnum: None,
        devnum: 0,
        kind: None,
        driver: None,
        devnode: None,
        initialized: false,
        usec_since_initialized: 0,
        action: None,
        seqnum: 0,
        tags: Vec::new(),
        properties: Vec::new(),
        sysattrs: Vec::new(),
        devlinks: Vec::new(),
        subsystem_entry: false,
        parent: None,
    }
}

fn world() -> Udev {
    let mut sda = record("/sys/block/sda", "sda");
    sda.subsystem = Some("block".to_string());
    sda.devnum = 0x0800;
    sda.kind = Some(DeviceType::BlockDev);
    let mut tty0 = record("/sys/class/tty/tty0", "tty0");
    tty0.subsystem = Some("tty".to_string());
    tty0.devnum = 0x0400;
    tty0.kind = Some(DeviceType::CharDev);
    let mut u = Udev::new();
    u.devices = vec![sda, tty0];
    u
}

#[test]
fn lookup_by_syspath() {
    let u = world();
    let d = u.device("/sys/block/sda").unwrap();
    assert_eq!(d.sysname(), "sda");
    assert!(u.device("/sys/block/sdb").is_none());
}

#[test]
fn lookup_by_devnum_needs_the_namespace() {
    let u = world();
    let d = u.device_from_devnum(DeviceType::BlockDev, 0x0800).unwrap();
    assert_eq!(d.sysname(), "sda");
    assert!(u.device_from_devnum(DeviceType::CharDev, 0x0800).is_none());
    let t = u.device_from_devnum(DeviceType::CharDev, 0x0400).unwrap();
    assert_eq!(t.sysname(), "tty0");
}

#[test]
fn lookup_by_subsystem_and_sysname() {
    let u = world();
    let d = u.device_from_subsystem_sysname("tty", "tty0").unwrap();
    assert_eq!(d.syspath(), "/sys/class/tty/tty0");
    assert!(u.device_from_subsystem_sysname("block", "tty0").is_none());
    assert!(u.device_from_subsystem_sysname("tty", "tty1").is_none());
}

#[test]
fn hwdb_open_maps_the_database_state() {
    let mut u = Udev::new();
    assert!(u.hwdb().is_ok());
    u.hwdb_state = HwdbState::Corrupt;
    assert_eq!(u.hwdb().err(), Some(0));
    u.hwdb_state = HwdbState::Unreadable(13);
    assert_eq!(u.hwdb().err(), Some(13));
}

#[test]
fn monitor_needs_netlink() {
    let mut u = Udev::new();
    {
        let m = u.monitor().unwrap();
        assert!(!m.receiving);
        let k = u.monitor_kernel().unwrap();
        assert!(!k.receiving);
    }
    u.netlink_errno = Some(13);
    match u.monitor() {
        Err(IoError::Errno(13)) => {},
        _ => panic!("expected the backend's error number"),
    }
}

#[test]
fn monitor_creation_classification() {
    assert!(matches!(classify_monitor_creation(CallStatus::Found(4)), MonitorCreation::Ready(4)));
    assert!(matches!(classify_monitor_creation::<i32>(CallStatus::Absent), MonitorCreation::Bug));
    assert!(matches!(
        classify_monitor_creation::<i32>(CallStatus::OutOfMemory),
        MonitorCreation::Fatal
    ));
    assert!(matches!(
        classify_monitor_creation::<i32>(CallStatus::Error(EINVAL)),
        MonitorCreation::Bug
    ));
    assert!(matches!(
        classify_monitor_creation::<i32>(CallStatus::Error(13)),
        MonitorCreation::Fail(13)
    ));
}

#[test]
fn fcntl_error_classification() {
    assert!(matches!(classify_fcntl_error(ENOMEM), SocketSetup::Bug));
    assert!(matches!(classify_fcntl_error(EINVAL), SocketSetup::Bug));
    assert!(matches!(classify_fcntl_error(9), SocketSetup::Fail(9)));
}

#[test]
fn new_context_is_empty_and_capable() {
    let u = Udev::new();
    assert!(u.devices.is_empty());
    assert!(u.hwdb_records.is_empty());
    assert!(u.netlink_errno.is_none());
    assert!(u.device("/sys/anything").is_none());
}
