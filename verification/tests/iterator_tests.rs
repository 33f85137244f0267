use udev_rs::iterator::{
    iterator, key_iterator, key_opt_value_iterator, key_value_iterator, names_to_entries,
    path_iterator, Entry,
};

fn entry(name: &str, value: Option<&str>) -> Entry {
    Entry { name: name.to_string(), value: value.map(|v| v.to_string()) }
}

#[test]
fn empty_list_yields_nothing() {
    let owner = 0u32;
    let mut it = iterator(&owner, Vec::new());
    assert!(it.next().is_none());
    assert!(it.next().is_none());
}

#[test]
fn yields_each_entry_then_terminates() {
    let owner = 0u32;
    let entries = vec![entry("a", Some("1")), entry("b", None), entry("c", Some("3"))];
    let mut it = iterator(&owner, entries);
    assert_eq!(it.next(), Some(("a".to_string(), Some("1".to_string()))));
    assert_eq!(it.next(), Some(("b".to_string(), None)));
    assert_eq!(it.next(), Some(("c".to_string(), Some("3".to_string()))));
    assert!(it.next().is_none());
    assert!(it.next().is_none());
}

#[test]
fn fresh_construction_reproduces_the_sequence() {
    let owner = 0u32;
    let entries = vec![entry("x", Some("1")), entry("y", Some("2"))];
    let entries2 = vec![entry("x", Some("1")), entry("y", Some("2"))];
    let mut first: Vec<(String, Option<String>)> = Vec::new();
    let mut second: Vec<(String, Option<String>)> = Vec::new();
    let mut it1 = iterator(&owner, entries);
    while let Some(p) = it1.next() {
        first.push(p);
    }
    let mut it2 = iterator(&owner, entries2);
    while let Some(p) = it2.next() {
        second.push(p);
    }
    assert_eq!(first, second);
    assert_eq!(first.len(), 2);
}

#[test]
fn collect_entries_drains_in_order() {
    let owner = 0u32;
    let entries = vec![entry("a", None), entry("b", Some("v"))];
    let mut it = iterator(&owner, entries);
    let drained = it.collect_entries();
    assert_eq!(drained.len(), 2);
    assert_eq!(drained[0].name, "a");
    assert_eq!(drained[1].value, Some("v".to_string()));
    assert!(it.next().is_none());
}

#[test]
fn key_iterator_projects_names() {
    let owner = 0u32;
    let mut it = key_iterator(&owner, vec![entry("k1", Some("v")), entry("k2", None)]);
    assert_eq!(it.next(), Some("k1".to_string()));
    assert_eq!(it.next(), Some("k2".to_string()));
    assert!(it.next().is_none());
}

#[test]
fn path_iterator_projects_names_as_paths() {
    let owner = 0u32;
    let mut it = path_iterator(&owner, names_to_entries(&vec!["/dev/disk/by-id/x".to_string()]));
    assert_eq!(it.next(), Some("/dev/disk/by-id/x".to_string()));
    assert!(it.next().is_none());
}

#[test]
fn key_value_iterator_yields_mandatory_pairs() {
    let owner = 0u32;
    let mut it = key_value_iterator(&owner, vec![entry("k", Some("v")), entry("l", Some("w"))]);
    assert_eq!(it.next(), Some(("k".to_string(), "v".to_string())));
    assert_eq!(it.next(), Some(("l".to_string(), "w".to_string())));
    assert!(it.next().is_none());
}

#[test]
fn key_opt_value_iterator_passes_values_through() {
    let owner = 0u32;
    let mut it = key_opt_value_iterator(&owner, vec![entry("k", None), entry("l", Some("w"))]);
    assert_eq!(it.next(), Some(("k".to_string(), None)));
    assert_eq!(it.next(), Some(("l".to_string(), Some("w".to_string()))));
    assert!(it.next().is_none());
}
