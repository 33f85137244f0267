use udev_rs::device::{device, device_get_dev, Device, DeviceRecord, DeviceType};
use udev_rs::iterator::Entry;
use udev_rs::util::IoError;
use udev_rs::Udev;

fn record(syspath: &str, sysname: &str) -> DeviceRecord {
    DeviceRecord {
        devpath: syspath.trim_start_matches("/sys").to_string(),
        syspath: syspath.to_string(),
        sysname: sysname.to_string(),
        subsystem: None,
        devtype: None,
        sysnum: None,
        devnum: 0,
        kind: None,
        driver: None,
        devnode: None,
        initialized: false,
        usec_since_initialized: 0,
        action: None,
        seqnum: 0,
        tags: Vec::new(),
        properties: Vec::new(),
        sysattrs: Vec::new(),
        devlinks: Vec::new(),
        subsystem_entry: false,
        parent: None,
    }
}

fn entry(name: &str, value: Option<&str>) -> Entry {
    Entry { name: name.to_string(), value: value.map(|v| v.to_string()) }
}

#[test]
fn to_char_letters() {
    assert_eq!(DeviceType::CharDev.to_char(), b'c' as i8);
    assert_eq!(DeviceType::BlockDev.to_char(), b'b' as i8);
}

#[test]
fn device_wraps_present_lookup_only() {
    let udev = Udev::new();
    assert!(device(&udev, None).is_none());
    let d = device(&udev, Some(record("/sys/class/tty/tty0", "tty0"))).unwrap();
    assert_eq!(d.syspath(), "/sys/class/tty/tty0");
    assert_eq!(device_get_dev(&d).sysname, "tty0");
}

#[test]
fn text_getters_surface_fields() {
    let udev = Udev::new();
    let mut r = record("/sys/devices/pci0/net/wlan0", "wlan0");
    r.subsystem = Some("net".to_string());
    r.devtype = Some("wlan".to_string());
    r.driver = Some("ath9k".to_string());
    r.devnode = Some("/dev/net0".to_string());
    let d = Device { udev: &udev, dev: r };
    assert_eq!(d.devpath(), "/devices/pci0/net/wlan0");
    assert_eq!(d.sysname(), "wlan0");
    assert_eq!(d.subsystem(), Some("net"));
    assert_eq!(d.devtype(), Some("wlan"));
    assert_eq!(d.driver(), Some("ath9k"));
    assert_eq!(d.devnode(), Some("/dev/net0"));
    assert!(d.udev().devices.is_empty());
}

#[test]
fn absent_optional_getters() {
    let udev = Udev::new();
    let d = Device { udev: &udev, dev: record("/sys/x", "x") };
    assert!(d.subsystem().is_none());
    assert!(d.devtype().is_none());
    assert!(d.driver().is_none());
    assert!(d.devnode().is_none());
    assert!(d.sysnum().is_none());
}

#[test]
fn sysnum_parses_decimal_text() {
    let udev = Udev::new();
    let mut r = record("/sys/class/tty/tty12", "tty12");
    r.sysnum = Some("12".to_string());
    let d = Device { udev: &udev, dev: r };
    assert_eq!(d.sysnum(), Some(12));
    let mut r2 = record("/sys/class/tty/tty", "tty");
    r2.sysnum = Some("x".to_string());
    let d2 = Device { udev: &udev, dev: r2 };
    assert!(d2.sysnum().is_none());
}

#[test]
fn devnum_zero_is_none() {
    let udev = Udev::new();
    let mut r = record("/sys/a", "a");
    let d = Device { udev: &udev, dev: r };
    assert!(d.devnum().is_none());
    r = record("/sys/a", "a");
    r.devnum = 0x0801;
    let d2 = Device { udev: &udev, dev: r };
    assert_eq!(d2.devnum(), Some(0x0801));
}

#[test]
fn time_since_initialized_zero_means_unknown() {
    let udev = Udev::new();
    let mut r = record("/sys/a", "a");
    let d = Device { udev: &udev, dev: r };
    assert!(d.time_since_initialized().is_none());
    r = record("/sys/a", "a");
    r.usec_since_initialized = 1500;
    r.initialized = true;
    let d2 = Device { udev: &udev, dev: r };
    assert_eq!(d2.time_since_initialized(), Some(1500));
    assert!(d2.is_initialized());
}

#[test]
fn has_tag_searches_the_tag_list() {
    let udev = Udev::new();
    let mut r = record("/sys/a", "a");
    r.tags = vec!["seat".to_string(), "power-switch".to_string()];
    let d = Device { udev: &udev, dev: r };
    assert!(d.has_tag("seat"));
    assert!(d.has_tag("power-switch"));
    assert!(!d.has_tag("uaccess"));
}

#[test]
fn attribute_reads_the_stored_value() {
    let udev = Udev::new();
    let mut r = record("/sys/a", "a");
    r.sysattrs = vec![entry("brightness", Some("40")), entry("subdir", None)];
    let d = Device { udev: &udev, dev: r };
    assert_eq!(d.attribute("brightness"), Ok("40"));
    assert_eq!(d.attribute("subdir"), Err(IoError::NotFound));
    assert_eq!(d.attribute("missing"), Err(IoError::NotFound));
}

#[test]
fn write_then_read_round_trips() {
    let udev = Udev::new();
    let mut r = record("/sys/a", "a");
    r.sysattrs = vec![entry("brightness", Some("40")), entry("power", Some("on"))];
    let mut d = Device { udev: &udev, dev: r };
    assert_eq!(d.set_attribute("brightness", "75"), Ok(()));
    assert_eq!(d.attribute("brightness"), Ok("75"));
    // every other attribute is untouched
    assert_eq!(d.attribute("power"), Ok("on"));
}

#[test]
fn duplicate_attribute_names_resolve_to_the_first() {
    let udev = Udev::new();
    let mut r = record("/sys/a", "a");
    r.sysattrs = vec![entry("mode", Some("auto")), entry("mode", Some("manual"))];
    let mut d = Device { udev: &udev, dev: r };
    assert_eq!(d.attribute("mode"), Ok("auto"));
    assert_eq!(d.set_attribute("mode", "off"), Ok(()));
    assert_eq!(d.attribute("mode"), Ok("off"));
}

#[test]
fn write_to_missing_attribute_fails() {
    let udev = Udev::new();
    let mut d = Device { udev: &udev, dev: record("/sys/a", "a") };
    assert_eq!(d.set_attribute("brightness", "75"), Err(IoError::NotFound));
    assert_eq!(d.attribute("brightness"), Err(IoError::NotFound));
}

fn chain(udev: &Udev) -> Device<'_> {
    // tty0 -> serial8250 (platform) -> platform root
    let mut root = record("/sys/devices/platform", "platform");
    root.subsystem = None;
    let mut serial = record("/sys/devices/platform/serial8250", "serial8250");
    serial.subsystem = Some("platform".to_string());
    serial.devtype = Some("legacy".to_string());
    serial.parent = Some(Box::new(root));
    let mut tty = record("/sys/devices/platform/serial8250/tty/tty0", "tty0");
    tty.subsystem = Some("tty".to_string());
    tty.parent = Some(Box::new(serial));
    Device { udev, dev: tty }
}

#[test]
fn parent_returns_the_direct_ancestor() {
    let udev = Udev::new();
    let d = chain(&udev);
    let p = d.parent().unwrap();
    assert_eq!(p.sysname(), "serial8250");
    let pp = p.parent().unwrap();
    assert_eq!(pp.sysname(), "platform");
    assert!(pp.parent().is_none());
}

#[test]
fn parent_with_subsystem_walks_the_chain() {
    let udev = Udev::new();
    let d = chain(&udev);
    let p = d.parent_with_subsystem("platform").unwrap();
    assert_eq!(p.sysname(), "serial8250");
    assert!(d.parent_with_subsystem("usb").is_none());
    // the device's own subsystem does not count: only strict ancestors
    assert!(d.parent_with_subsystem("tty").is_none());
}

#[test]
fn parent_with_subsystem_devtype_needs_both() {
    let udev = Udev::new();
    let d = chain(&udev);
    let p = d.parent_with_subsystem_devtype("platform", "legacy").unwrap();
    assert_eq!(p.sysname(), "serial8250");
    assert!(d.parent_with_subsystem_devtype("platform", "modern").is_none());
}

#[test]
fn iterators_walk_the_device_lists() {
    let udev = Udev::new();
    let mut r = record("/sys/a", "a");
    r.tags = vec!["seat".to_string()];
    r.devlinks = vec!["/dev/disk/by-id/abc".to_string()];
    r.properties = vec![entry("DEVTYPE", Some("disk")), entry("FLAG", None)];
    r.sysattrs = vec![entry("size", Some("1024"))];
    let d = Device { udev: &udev, dev: r };

    let mut tags = d.iter_tags();
    assert_eq!(tags.next(), Some("seat".to_string()));
    assert!(tags.next().is_none());

    let mut links = d.iter_devlinks();
    assert_eq!(links.next(), Some("/dev/disk/by-id/abc".to_string()));
    assert!(links.next().is_none());

    let mut props = d.iter_properties();
    assert_eq!(props.next(), Some(("DEVTYPE".to_string(), Some("disk".to_string()))));
    assert_eq!(props.next(), Some(("FLAG".to_string(), None)));
    assert!(props.next().is_none());

    let mut attrs = d.iter_attributes();
    assert_eq!(attrs.next(), Some("size".to_string()));
    assert!(attrs.next().is_none());
}

#[test]
fn children_is_a_parent_constrained_enumerator() {
    let udev = Udev::new();
    let d = chain(&udev);
    let e = d.children();
    // scanning an empty world adds nothing, but the constraint stands
    let e = e.scan_devices();
    assert!(e.iter_paths().next().is_none());
}
