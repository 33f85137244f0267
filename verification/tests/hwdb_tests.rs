use udev_rs::hwdb::HwdbRecord;
use udev_rs::iterator::Entry;
use udev_rs::Udev;

fn entry(name: &str, value: &str) -> Entry {
    Entry { name: name.to_string(), value: Some(value.to_string()) }
}

fn world() -> Udev {
    let mut u = Udev::new();
    u.hwdb_records = vec![
        HwdbRecord {
            modalias: "usb:v046DpC52B".to_string(),
            properties: vec![
                entry("ID_VENDOR_FROM_DATABASE", "Logitech, Inc."),
                entry("ID_MODEL_FROM_DATABASE", "Unifying Receiver"),
            ],
        },
        HwdbRecord {
            modalias: "usb:v8086p0189".to_string(),
            properties: vec![entry("ID_VENDOR_FROM_DATABASE", "Intel Corp.")],
        },
    ];
    u
}

#[test]
fn known_modalias_yields_nonempty_values() {
    let u = world();
    let mut h = u.hwdb().unwrap();
    let q = h.query("usb:v046DpC52B");
    let mut it = q.iter();
    let mut n = 0;
    while let Some((key, value)) = it.next() {
        assert!(!key.is_empty());
        assert!(!value.is_empty());
        n += 1;
    }
    assert_eq!(n, 2);
}

#[test]
fn query_returns_the_matching_record() {
    let u = world();
    let mut h = u.hwdb().unwrap();
    let q = h.query("usb:v8086p0189");
    let mut it = q.iter();
    assert_eq!(
        it.next(),
        Some(("ID_VENDOR_FROM_DATABASE".to_string(), "Intel Corp.".to_string()))
    );
    assert!(it.next().is_none());
}

#[test]
fn unknown_modalias_yields_an_empty_sequence() {
    let u = world();
    let mut h = u.hwdb().unwrap();
    let q = h.query("usb:vFFFFpFFFF");
    let mut it = q.iter();
    assert!(it.next().is_none());
}

#[test]
fn queries_run_one_after_another() {
    // Only one query can be alive at a time — it holds the handle's
    // exclusive borrow — but sequential queries are free.
    let u = world();
    let mut h = u.hwdb().unwrap();
    {
        let q1 = h.query("usb:v046DpC52B");
        assert_eq!(q1.entries.len(), 2);
    }
    let q2 = h.query("usb:v8086p0189");
    assert_eq!(q2.entries.len(), 1);
}

#[test]
fn hwdb_udev_accessor() {
    let u = world();
    let h = u.hwdb().unwrap();
    assert_eq!(h.udev().hwdb_records.len(), 2);
}
