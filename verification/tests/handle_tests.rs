use capture_core::handle::OwnedHandle;
use capture_core::handle::RetainTable;

#[test]
fn test_allocate_starts_at_one() {
    let mut table = RetainTable::new();
    assert_eq!(table.len(), 0);
    let id = table.allocate();
    assert_eq!(id, 0);
    assert_eq!(table.len(), 1);
    assert!(table.is_live(id));
    assert_eq!(table.retain_count(id), 1);
}

#[test]
fn test_clone_and_release_balance() {
    // The retain count returns exactly to where it stood before the
    // clone, and releasing both handles is one net release.
    let mut table = RetainTable::new();
    let id = table.allocate();
    let handle = OwnedHandle::from_unretained(&mut table, id);
    assert_eq!(table.retain_count(id), 2);

    let clone = handle.clone_handle(&mut table);
    assert_eq!(clone.id(), id);
    assert_eq!(table.retain_count(id), 3);

    clone.release(&mut table);
    assert_eq!(table.retain_count(id), 2);

    handle.release(&mut table);
    assert_eq!(table.retain_count(id), 1);
}

#[test]
fn test_from_retained_does_not_increment() {
    let mut table = RetainTable::new();
    let id = table.allocate();
    let handle = OwnedHandle::from_retained(id);
    assert_eq!(table.retain_count(id), 1);
    handle.release(&mut table);
    assert_eq!(table.retain_count(id), 0);
    assert!(!table.is_live(id));
}
