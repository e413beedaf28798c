use kvcache::store::{DbRow, Store};

#[test]
fn new_row_holds_key_and_value() {
    let row = DbRow::new("user:1", vec![1u8, 2]);
    assert_eq!(row.key, "user:1".to_string());
    assert_eq!(row.value, vec![1u8, 2]);
}

#[test]
fn insert_then_get_finds_the_row() {
    let mut store = Store::new();
    let row = DbRow::new("k", vec![1u8]);
    assert!(row.insert(&mut store).is_ok());
    let found = DbRow::get("k", &store).unwrap().unwrap();
    assert_eq!(found.key, "k".to_string());
    assert_eq!(found.value, vec![1u8]);
}

#[test]
fn get_of_missing_row_is_none() {
    let store = Store::new();
    assert!(DbRow::get("k", &store).unwrap().is_none());
}

#[test]
fn insert_overwrites_a_row_the_key_already_has() {
    let mut store = Store::new();
    assert!(DbRow::new("k", vec![1u8]).insert(&mut store).is_ok());
    assert!(DbRow::new("k", vec![2u8]).insert(&mut store).is_ok());
    let found = DbRow::get("k", &store).unwrap().unwrap();
    assert_eq!(found.value, vec![2u8]);
}

#[test]
fn update_changes_only_an_existing_row() {
    let mut store = Store::new();
    // No row matches: the update is a no-op at the table yet succeeds.
    assert!(DbRow::new("k", vec![9u8]).update(&mut store).is_ok());
    assert!(DbRow::get("k", &store).unwrap().is_none());
    // A row exists: the update rewrites it.
    assert!(DbRow::new("k", vec![1u8]).insert(&mut store).is_ok());
    assert!(DbRow::new("k", vec![2u8]).update(&mut store).is_ok());
    let found = DbRow::get("k", &store).unwrap().unwrap();
    assert_eq!(found.value, vec![2u8]);
}

#[test]
fn delete_succeeds_with_or_without_a_matching_row() {
    let mut store = Store::new();
    assert!(DbRow::new("k", vec![]).delete(&mut store).is_ok());
    assert!(DbRow::new("k", vec![1u8]).insert(&mut store).is_ok());
    assert!(DbRow::new("k", vec![]).delete(&mut store).is_ok());
    assert!(DbRow::get("k", &store).unwrap().is_none());
}
