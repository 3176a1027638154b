use midoku::resource_table::{ResourceTable, ResourceTableError};

// For any sequence of push/get/delete, get after delete on the same handle
// fails NotPresent.
#[test]
fn get_after_delete_fails() {
    let mut table: ResourceTable<String> = ResourceTable::new();
    let a = table.push("a".to_string()).unwrap();
    let b = table.push("b".to_string()).unwrap();

    assert_eq!(table.get(a), Ok(&"a".to_string()));
    assert_eq!(table.delete(a), Ok("a".to_string()));
    assert_eq!(table.get(a), Err(ResourceTableError::NotPresent));

    // The other handle is untouched.
    assert_eq!(table.get(b), Ok(&"b".to_string()));
}

// A push immediately after a delete reuses the freed slot: the handles are
// equal.
#[test]
fn push_reuses_freed_slot() {
    let mut table: ResourceTable<u64> = ResourceTable::new();
    let first = table.push(10).unwrap();
    let second = table.push(20).unwrap();
    assert_ne!(first, second);

    table.delete(first).unwrap();
    let reused = table.push(30).unwrap();
    assert_eq!(reused, first);
    assert_eq!(table.get(reused), Ok(&30));
}

// The most recently freed slot is reused first.
#[test]
fn free_slots_reused_in_stack_order() {
    let mut table: ResourceTable<u8> = ResourceTable::new();
    let h0 = table.push(0).unwrap();
    let h1 = table.push(1).unwrap();
    let _h2 = table.push(2).unwrap();

    table.delete(h0).unwrap();
    table.delete(h1).unwrap();

    assert_eq!(table.push(11).unwrap(), h1);
    assert_eq!(table.push(10).unwrap(), h0);
}

// Deleting an unknown or already-deleted handle fails NotPresent and leaves
// the table as it was.
#[test]
fn delete_missing_handle() {
    let mut table: ResourceTable<u8> = ResourceTable::new();
    assert_eq!(table.delete(0), Err(ResourceTableError::NotPresent));
    assert_eq!(table.delete(7), Err(ResourceTableError::NotPresent));

    let h = table.push(1).unwrap();
    table.delete(h).unwrap();
    assert_eq!(table.delete(h), Err(ResourceTableError::NotPresent));
}
