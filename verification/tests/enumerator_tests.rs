use udev_rs::device::{DeviceRecord, DeviceType};
use udev_rs::iterator::Entry;
use udev_rs::Udev;

fn record(syspath: &str, sysname: &str, subsystem: &str) -> DeviceRecord {
    DeviceRecord {
        devpath: syspath.trim_start_matches("/sys").to_string(),
        syspath: syspath.to_string(),
        sysname: sysname.to_string(),
        subsystem: if subsystem.is_empty() { None } else { Some(subsystem.to_string()) },
        devtype: None,
        sysnum: None,
        devnum: 0,
        kind: None,
        driver: None,
        devnode: None,
        initialized: false,
        usec_since_initialized: 0,
        action: None,
        seqnum: 0,
        tags: Vec::new(),
        properties: Vec::new(),
        sysattrs: Vec::new(),
        devlinks: Vec::new(),
        subsystem_entry: false,
        parent: None,
    }
}

fn entry(name: &str, value: Option<&str>) -> Entry {
    Entry { name: name.to_string(), value: value.map(|v| v.to_string()) }
}

/// A context whose device tree looks like a small machine: 64 numbered
/// terminals, the controlling terminal, and a disk.
fn tty_world() -> Udev {
    let mut devices = Vec::new();
    let mut ctl = record("/sys/devices/virtual/tty/tty", "tty", "tty");
    ctl.initialized = true;
    devices.push(ctl);
    for n in 0..64u64 {
        let syspath = format!("/sys/devices/virtual/tty/tty{}", n);
        let sysname = format!("tty{}", n);
        let mut d = record(&syspath, &sysname, "tty");
        d.sysnum = Some(n.to_string());
        d.devnum = 0x0400 + n;
        d.kind = Some(DeviceType::CharDev);
        d.initialized = true;
        devices.push(d);
    }
    let mut sda = record("/sys/block/sda", "sda", "block");
    sda.kind = Some(DeviceType::BlockDev);
    sda.devnum = 0x0800;
    sda.initialized = true;
    devices.push(sda);
    let mut u = Udev::new();
    u.devices = devices;
    u
}

#[test]
fn test_ttys() {
    let udev = tty_world();
    let mut vec = Vec::with_capacity(64);
    let mut found_tty = false;
    let e = udev.enumerator().match_subsystem("tty").scan_devices();
    let mut it = e.iter();
    while let Some(dev) = it.next() {
        assert!(dev.subsystem().unwrap() == "tty");
        if dev.sysname().starts_with("tty") {
            match dev.sysnum() {
                Some(num) => vec.push(num),
                None => {
                    assert!(!found_tty);
                    found_tty = true;
                },
            }
        }
    }
    vec.sort();
    assert!(vec.into_iter().zip(0u64..64u64).all(|(i, j)| i == j));
}

#[test]
fn filter_order_does_not_change_the_scan() {
    let u = tty_world();
    let a = u.enumerator().match_subsystem("tty").match_is_initialized().scan_devices();
    let b = u.enumerator().match_is_initialized().match_subsystem("tty").scan_devices();
    assert_eq!(a.results, b.results);
    assert_eq!(a.results.len(), 65);
}

#[test]
fn match_parent_then_clear_parent_scans_unconstrained() {
    let u = tty_world();
    let parent = u.device("/sys/block/sda").unwrap();
    let constrained =
        u.enumerator().match_subsystem("tty").match_parent(&parent).clear_parent().scan_devices();
    let plain = u.enumerator().match_subsystem("tty").scan_devices();
    assert_eq!(constrained.results, plain.results);
}

#[test]
fn match_parent_restricts_to_the_subtree() {
    let mut u = Udev::new();
    let root = record("/sys/devices/usb1", "usb1", "usb");
    let mut child = record("/sys/devices/usb1/1-1", "1-1", "usb");
    child.parent = Some(Box::new(record("/sys/devices/usb1", "usb1", "usb")));
    let stranger = record("/sys/devices/pci0", "pci0", "pci");
    u.devices = vec![root, child, stranger];
    let parent = u.device("/sys/devices/usb1").unwrap();
    let e = u.enumerator().match_parent(&parent).scan_devices();
    assert_eq!(
        e.results,
        vec!["/sys/devices/usb1".to_string(), "/sys/devices/usb1/1-1".to_string()]
    );
}

#[test]
fn exclusions_rule_devices_out() {
    let u = tty_world();
    let e = u.enumerator().match_not_subsystem("tty").scan_devices();
    assert_eq!(e.results, vec!["/sys/block/sda".to_string()]);
}

#[test]
fn attribute_and_property_filters() {
    let mut u = Udev::new();
    let mut a = record("/sys/a", "a", "demo");
    a.sysattrs = vec![entry("size", Some("1024"))];
    a.properties = vec![entry("ID_BUS", Some("usb"))];
    let mut b = record("/sys/b", "b", "demo");
    b.sysattrs = vec![entry("size", Some("2048"))];
    u.devices = vec![a, b];

    let by_presence = u.enumerator().match_attribute("size", None).scan_devices();
    assert_eq!(by_presence.results.len(), 2);

    let by_value = u.enumerator().match_attribute("size", Some("1024")).scan_devices();
    assert_eq!(by_value.results, vec!["/sys/a".to_string()]);

    let excluded = u.enumerator().match_not_attribute("size", Some("1024")).scan_devices();
    assert_eq!(excluded.results, vec!["/sys/b".to_string()]);

    let by_property = u.enumerator().match_property("ID_BUS", Some("usb")).scan_devices();
    assert_eq!(by_property.results, vec!["/sys/a".to_string()]);
}

#[test]
fn tag_and_sysname_filters() {
    let mut u = Udev::new();
    let mut a = record("/sys/a", "a", "demo");
    a.tags = vec!["seat".to_string()];
    let b = record("/sys/b", "b", "demo");
    u.devices = vec![a, b];

    let tagged = u.enumerator().match_tag("seat").scan_devices();
    assert_eq!(tagged.results, vec!["/sys/a".to_string()]);

    let named = u.enumerator().match_sysname("b").scan_devices();
    assert_eq!(named.results, vec!["/sys/b".to_string()]);

    // two sysname filters are alternatives, not a contradiction
    let either = u.enumerator().match_sysname("a").match_sysname("b").scan_devices();
    assert_eq!(either.results.len(), 2);
}

#[test]
fn initialized_filter() {
    let mut u = Udev::new();
    let mut a = record("/sys/a", "a", "demo");
    a.initialized = true;
    let b = record("/sys/b", "b", "demo");
    u.devices = vec![a, b];
    let e = u.enumerator().match_is_initialized().scan_devices();
    assert_eq!(e.results, vec!["/sys/a".to_string()]);
}

#[test]
fn scans_accumulate_and_union() {
    let mut u = Udev::new();
    let dev = record("/sys/a", "a", "demo");
    let mut sub = record("/sys/bus/demo", "demo", "");
    sub.subsystem_entry = true;
    u.devices = vec![dev, sub];

    let twice = u.enumerator().scan_devices().scan_devices();
    assert_eq!(twice.results, vec!["/sys/a".to_string(), "/sys/a".to_string()]);

    let both = u.enumerator().scan_devices().scan_subsystems();
    assert_eq!(both.results, vec!["/sys/a".to_string(), "/sys/bus/demo".to_string()]);
}

#[test]
fn add_device_bypasses_the_filters() {
    let u = tty_world();
    let sda = u.device("/sys/block/sda").unwrap();
    let e = u.enumerator().match_subsystem("tty").add_device(&sda);
    assert_eq!(e.results, vec!["/sys/block/sda".to_string()]);
}

#[test]
fn iter_skips_paths_that_no_longer_resolve() {
    let u = tty_world();
    let sda = u.device("/sys/block/sda").unwrap();
    let mut e = u.enumerator().add_device(&sda);
    // a path the context no longer resolves sits between two live ones
    e.results.insert(0, "/sys/removed".to_string());
    let mut it = e.iter();
    let first = it.next().unwrap();
    assert_eq!(first.sysname(), "sda");
    assert!(it.next().is_none());
}

#[test]
fn iter_paths_yields_the_raw_results() {
    let u = tty_world();
    let e = u.enumerator().match_subsystem("block").scan_devices();
    let mut paths = e.iter_paths();
    assert_eq!(paths.next(), Some("/sys/block/sda".to_string()));
    assert!(paths.next().is_none());
}

#[test]
fn empty_enumerator_yields_nothing() {
    let u = tty_world();
    let e = u.enumerator();
    assert!(e.iter().next().is_none());
    assert!(e.iter_paths().next().is_none());
}

#[test]
fn enumerator_udev_accessor() {
    let u = tty_world();
    let e = u.enumerator();
    assert_eq!(e.udev().devices.len(), u.devices.len());
}
