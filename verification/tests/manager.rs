use rusty_store::Counter;
use rusty_store::Disk;
use rusty_store::Storage;
use rusty_store::StoreError;
use rusty_store::StoreHandle;
use rusty_store::StoreManager;

fn test_storage() -> Storage {
    Storage::from(
        "/base/cache".to_string(),
        "/base/data".to_string(),
        "/base/config".to_string(),
    )
}

#[test]
fn construction_performs_initial_read() {
    let storage = test_storage();
    let mut disk = Disk::new();

    let manager = StoreManager::<Counter>::new(&storage, &mut disk, "counter").unwrap();
    assert_eq!(*manager.get_store(), Counter { count: 0 });
    assert_eq!(disk.num_files(), 1);
    let path = "/base/data/counter".to_string();
    assert_eq!(disk.file_content(&path), Some("0".to_string()));
}

#[test]
fn construction_from_handle_performs_initial_read() {
    let storage = test_storage();
    let mut disk = Disk::new();
    let path = "/base/data/counter".to_string();
    assert!(disk.write_file(&path, "12".to_string()));

    let handle = StoreHandle::<Counter>::new("counter");
    let manager = StoreManager::from_handle(&storage, &mut disk, handle).unwrap();
    assert_eq!(*manager.get_store(), Counter { count: 12 });
}

#[test]
fn construction_fails_on_unreadable_store() {
    let storage = test_storage();
    let mut disk = Disk::new_with(false, false);
    let r = StoreManager::<Counter>::new(&storage, &mut disk, "counter");
    assert_eq!(r.err(), Some(StoreError::DirectoryCreateFailure));
}

#[test]
fn counter_scenario() {
    // identifier "counter", category data, default count zero: the first
    // read creates the file with the encoded default; three increments
    // leave three in memory and on disk; an independent manager reads three
    let storage = test_storage();
    let mut disk = Disk::new();
    let path = "/base/data/counter".to_string();

    let mut manager = StoreManager::<Counter>::new(&storage, &mut disk, "counter").unwrap();
    assert_eq!(*manager.get_store(), Counter { count: 0 });
    assert_eq!(disk.file_content(&path), Some("0".to_string()));

    for _ in 0..3 {
        manager
            .modify_store(&mut disk, |c: &Counter| Counter { count: c.count + 1 })
            .unwrap();
    }
    assert_eq!(*manager.get_store(), Counter { count: 3 });
    assert_eq!(disk.file_content(&path), Some("3".to_string()));

    let second = StoreManager::<Counter>::new(&storage, &mut disk, "counter").unwrap();
    assert_eq!(*second.get_store(), Counter { count: 3 });
}

#[test]
fn uncommitted_changes_never_reach_disk() {
    let storage = test_storage();
    let mut disk = Disk::new();

    let mut manager = StoreManager::<Counter>::new(&storage, &mut disk, "counter").unwrap();
    manager.modify_store_uncommitted(|c: &Counter| Counter { count: c.count + 10 });
    assert_eq!(*manager.get_store(), Counter { count: 10 });

    // a process-equivalent re-read via a fresh manager sees the old value
    let fresh = StoreManager::<Counter>::new(&storage, &mut disk, "counter").unwrap();
    assert_eq!(*fresh.get_store(), Counter { count: 0 });

    // only save commits the mutation
    manager.save(&mut disk).unwrap();
    let committed = StoreManager::<Counter>::new(&storage, &mut disk, "counter").unwrap();
    assert_eq!(*committed.get_store(), Counter { count: 10 });
}

#[test]
fn failed_modify_keeps_memory_mutation() {
    let storage = test_storage();
    let mut disk = Disk::new();
    let mut manager = StoreManager::<Counter>::new(&storage, &mut disk, "counter").unwrap();

    disk.set_writable(false);
    let r = manager.modify_store(&mut disk, |c: &Counter| Counter { count: c.count + 1 });
    assert_eq!(r, Err(StoreError::FileWriteFailure));
    // changed in memory, not on disk
    assert_eq!(*manager.get_store(), Counter { count: 1 });
    let path = "/base/data/counter".to_string();
    assert_eq!(disk.file_content(&path), Some("0".to_string()));
}

#[test]
fn get_store_mut_persists_nothing_by_itself() {
    let storage = test_storage();
    let mut disk = Disk::new();
    let mut manager = StoreManager::<Counter>::new(&storage, &mut disk, "counter").unwrap();

    manager.get_store_mut().count = 75;
    assert_eq!(*manager.get_store(), Counter { count: 75 });
    let path = "/base/data/counter".to_string();
    assert_eq!(disk.file_content(&path), Some("0".to_string()));

    manager.save(&mut disk).unwrap();
    assert_eq!(disk.file_content(&path), Some("75".to_string()));
}

#[test]
fn get_store_alive_observes_external_changes() {
    let storage = test_storage();
    let mut disk = Disk::new();
    let mut manager = StoreManager::<Counter>::new(&storage, &mut disk, "counter").unwrap();

    // the file changes behind the manager's back
    let mut other = StoreHandle::<Counter>::new("counter");
    other.get_store_mut().count = 21;
    assert_eq!(storage.write(&mut disk, &mut other), Ok(()));
    assert_eq!(*manager.get_store(), Counter { count: 0 });

    let live = *manager.get_store_alive(&mut disk).unwrap();
    assert_eq!(live, Counter { count: 21 });
    assert_eq!(*manager.get_store(), Counter { count: 21 });
}

#[test]
fn get_store_alive_overwrites_uncommitted_mutation() {
    let storage = test_storage();
    let mut disk = Disk::new();
    let mut manager = StoreManager::<Counter>::new(&storage, &mut disk, "counter").unwrap();

    manager.modify_store_uncommitted(|c: &Counter| Counter { count: c.count + 5 });
    assert_eq!(*manager.get_store(), Counter { count: 5 });
    let live = *manager.get_store_alive(&mut disk).unwrap();
    assert_eq!(live, Counter { count: 0 });
}
