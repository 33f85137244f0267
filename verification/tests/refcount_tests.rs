use udev_rs::refcount::RefLedger;

#[test]
fn refcount_returns_to_baseline_in_any_drop_order() {
    // Three handles to the same object, released in an order unrelated to
    // acquisition, leave the native count where it started.
    let mut ledger = RefLedger::new();
    let dev = ledger.track(1);
    let other = ledger.track(2);
    let baseline = ledger.count(dev);

    ledger.acquire(dev);
    ledger.acquire(dev);
    ledger.acquire(dev);
    assert_eq!(ledger.count(dev), baseline + 3);

    ledger.release(dev);
    ledger.acquire(other);
    ledger.release(dev);
    ledger.release(other);
    ledger.release(dev);

    assert_eq!(ledger.count(dev), baseline);
    assert_eq!(ledger.count(other), 2);
}

#[test]
fn interleaved_handles_to_two_objects() {
    let mut ledger = RefLedger::new();
    let a = ledger.track(1);
    let b = ledger.track(1);
    ledger.acquire(a);
    ledger.acquire(b);
    ledger.acquire(a);
    ledger.release(b);
    ledger.release(a);
    ledger.release(a);
    assert_eq!(ledger.count(a), 1);
    assert_eq!(ledger.count(b), 1);
}
