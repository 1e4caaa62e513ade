use mandate_dispatch::lock::ResourceLockTable;
use mandate_dispatch::model::LockContention;

#[test]
fn new_table_is_empty() {
    let table = ResourceLockTable::new();
    assert!(table.is_empty());
    assert!(!table.is_held(&String::from("man_1")));
}

#[test]
fn acquire_takes_a_free_resource() {
    let mut table = ResourceLockTable::new();
    let guard = table.acquire(&String::from("man_1")).unwrap();
    assert_eq!(guard.key(), "man_1");
    assert!(table.is_held(&String::from("man_1")));
    assert!(!table.is_empty());
}

#[test]
fn same_key_contends() {
    let mut table = ResourceLockTable::new();
    let _guard = table.acquire(&String::from("man_1")).unwrap();
    assert_eq!(table.acquire(&String::from("man_1")).unwrap_err(), LockContention);
    assert!(table.is_held(&String::from("man_1")));
}

#[test]
fn different_keys_never_contend() {
    let mut table = ResourceLockTable::new();
    let first = table.acquire(&String::from("man_1")).unwrap();
    let second = table.acquire(&String::from("man_2")).unwrap();
    assert_eq!(first.key(), "man_1");
    assert_eq!(second.key(), "man_2");
    assert!(table.is_held(&String::from("man_1")));
    assert!(table.is_held(&String::from("man_2")));
}

#[test]
fn release_frees_only_its_resource() {
    let mut table = ResourceLockTable::new();
    let first = table.acquire(&String::from("man_1")).unwrap();
    let second = table.acquire(&String::from("man_2")).unwrap();
    let third = table.acquire(&String::from("man_3")).unwrap();
    table.release(second);
    assert!(table.is_held(&String::from("man_1")));
    assert!(!table.is_held(&String::from("man_2")));
    assert!(table.is_held(&String::from("man_3")));
    table.release(first);
    table.release(third);
    assert!(table.is_empty());
}

#[test]
fn released_resource_can_be_taken_again() {
    let mut table = ResourceLockTable::new();
    let guard = table.acquire(&String::from("man_1")).unwrap();
    assert!(table.acquire(&String::from("man_1")).is_err());
    table.release(guard);
    assert!(table.is_empty());
    let again = table.acquire(&String::from("man_1")).unwrap();
    assert_eq!(again.key(), "man_1");
}
