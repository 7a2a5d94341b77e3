use rusty_store::Counter;
use rusty_store::Disk;
use rusty_store::Settings;
use rusty_store::Storage;
use rusty_store::StoreError;
use rusty_store::StoreHandle;
use rusty_store::OpenOutcome;
use rusty_store::Storing;

fn test_storage() -> Storage {
    Storage::from(
        "/base/cache".to_string(),
        "/base/data".to_string(),
        "/base/config".to_string(),
    )
}

#[test]
fn counter_encode_is_decimal_text() {
    assert_eq!(Counter { count: 0 }.encode(), "0");
    assert_eq!(Counter { count: 3 }.encode(), "3");
    assert_eq!(Counter { count: 407 }.encode(), "407");
    assert_eq!(Counter { count: u32::MAX }.encode(), "4294967295");
}

#[test]
fn counter_decode_reads_decimal_text() {
    assert_eq!(Counter::decode("0"), Some(Counter { count: 0 }));
    assert_eq!(Counter::decode("407"), Some(Counter { count: 407 }));
    assert_eq!(Counter::decode("not a number"), None);
    assert_eq!(Counter::decode(""), None);
    assert_eq!(Counter::decode("-1"), None);
}

#[test]
fn counter_round_trip() {
    for v in [0u32, 1, 9, 10, 4077, u32::MAX] {
        let c = Counter { count: v };
        assert_eq!(Counter::decode(c.encode().as_str()), Some(c));
    }
}

#[test]
fn settings_round_trip() {
    for v in [0u32, 255, 65536] {
        let s = Settings { limit: v };
        assert_eq!(Settings::decode(s.encode().as_str()), Some(s));
    }
}

#[test]
fn path_routing_follows_category() {
    let storage = test_storage();
    assert_eq!(storage.path_for::<Counter>("counter"), "/base/data/counter");
    assert_eq!(storage.path_for::<Settings>("counter"), "/base/config/counter");
    assert_eq!(storage.path_for::<Settings>("prefs"), "/base/config/prefs");
}

#[test]
fn handle_holds_default_and_identifier() {
    let mut handle = StoreHandle::<Counter>::new("numbers");
    assert_eq!(handle.store_id(), "numbers");
    assert_eq!(*handle.get_store(), Counter { count: 0 });
    handle.get_store_mut().count = 9;
    assert_eq!(*handle.get_store(), Counter { count: 9 });
}

#[test]
fn read_bootstraps_missing_file_once() {
    let storage = test_storage();
    let mut disk = Disk::new();
    let mut handle = StoreHandle::<Counter>::new("counter");

    assert_eq!(storage.read(&mut disk, &mut handle), Ok(()));
    assert_eq!(*handle.get_store(), Counter { count: 0 });
    assert_eq!(disk.num_files(), 1);
    let path = "/base/data/counter".to_string();
    assert_eq!(disk.file_content(&path), Some("0".to_string()));

    // a second read returns the same value and creates nothing
    assert_eq!(storage.read(&mut disk, &mut handle), Ok(()));
    assert_eq!(*handle.get_store(), Counter { count: 0 });
    assert_eq!(disk.num_files(), 1);
}

#[test]
fn write_persists_current_value() {
    let storage = test_storage();
    let mut disk = Disk::new();
    let mut handle = StoreHandle::<Counter>::new("counter");

    handle.get_store_mut().count = 42;
    assert_eq!(storage.write(&mut disk, &mut handle), Ok(()));
    let path = "/base/data/counter".to_string();
    assert_eq!(disk.file_content(&path), Some("42".to_string()));
    assert_eq!(disk.num_files(), 1);

    // a fresh handle reads the persisted value back
    let mut fresh = StoreHandle::<Counter>::new("counter");
    assert_eq!(storage.read(&mut disk, &mut fresh), Ok(()));
    assert_eq!(*fresh.get_store(), Counter { count: 42 });
}

#[test]
fn categories_use_separate_files() {
    let storage = test_storage();
    let mut disk = Disk::new();
    let mut counter = StoreHandle::<Counter>::new("shared_name");
    let mut settings = StoreHandle::<Settings>::new("shared_name");

    assert_eq!(storage.read(&mut disk, &mut counter), Ok(()));
    assert_eq!(storage.read(&mut disk, &mut settings), Ok(()));
    // same identifier, different categories: two distinct files
    assert_eq!(disk.num_files(), 2);
    let data_path = "/base/data/shared_name".to_string();
    let config_path = "/base/config/shared_name".to_string();
    assert!(disk.file_content(&data_path).is_some());
    assert!(disk.file_content(&config_path).is_some());

    // writes under one category never clobber the other
    counter.get_store_mut().count = 7;
    assert_eq!(storage.write(&mut disk, &mut counter), Ok(()));
    settings.get_store_mut().limit = 1000;
    assert_eq!(storage.write(&mut disk, &mut settings), Ok(()));
    assert_eq!(disk.file_content(&data_path), Some("7".to_string()));
    assert_eq!(disk.file_content(&config_path), Some("1000".to_string()));
}

#[test]
fn unwritable_location_fails_bootstrap_and_keeps_default() {
    let storage = test_storage();
    let mut disk = Disk::new_with(false, false);
    let mut handle = StoreHandle::<Settings>::new("prefs");

    let r = storage.read(&mut disk, &mut handle);
    assert_eq!(r, Err(StoreError::DirectoryCreateFailure));
    // the handle's value remains the type default, never partially set
    assert_eq!(*handle.get_store(), Settings { limit: 0 });
    assert_eq!(disk.num_files(), 0);
}

#[test]
fn unwritable_existing_file_fails_write() {
    let storage = test_storage();
    let mut disk = Disk::new();
    let mut handle = StoreHandle::<Counter>::new("counter");
    assert_eq!(storage.read(&mut disk, &mut handle), Ok(()));

    // the location turns read-only with the file already present: the open
    // still succeeds, the write itself fails and changes nothing
    disk.set_writable(false);
    handle.get_store_mut().count = 5;
    assert_eq!(
        storage.write(&mut disk, &mut handle),
        Err(StoreError::FileWriteFailure)
    );
    let path = "/base/data/counter".to_string();
    assert_eq!(disk.file_content(&path), Some("0".to_string()));

    // reading the existing file still works and brings the disk content in
    handle.get_store_mut().count = 9;
    assert_eq!(storage.read(&mut disk, &mut handle), Ok(()));
    assert_eq!(*handle.get_store(), Counter { count: 0 });
}

#[test]
fn locked_file_fails_open() {
    let storage = test_storage();
    let mut disk = Disk::new_with(true, true);
    let mut handle = StoreHandle::<Counter>::new("counter");

    // missing file: the default is bootstrapped, then the reopen is refused
    let r = storage.read(&mut disk, &mut handle);
    assert_eq!(r, Err(StoreError::FileOpenFailure));
    assert_eq!(*handle.get_store(), Counter { count: 0 });
    assert_eq!(disk.num_files(), 1);

    // present file: the open itself is refused
    let r2 = storage.read(&mut disk, &mut handle);
    assert_eq!(r2, Err(StoreError::FileOpenFailure));
    let r3 = storage.write(&mut disk, &mut handle);
    assert_eq!(r3, Err(StoreError::FileOpenFailure));
}

#[test]
fn undecodable_content_fails_read_and_keeps_value() {
    let storage = test_storage();
    let mut disk = Disk::new();
    let path = "/base/data/counter".to_string();
    assert!(disk.write_file(&path, "not a number".to_string()));

    let mut handle = StoreHandle::<Counter>::new("counter");
    let r = storage.read(&mut disk, &mut handle);
    assert_eq!(r, Err(StoreError::DecodeFailure));
    assert_eq!(*handle.get_store(), Counter { count: 0 });
    // the broken file is left as it is
    assert_eq!(disk.file_content(&path), Some("not a number".to_string()));
}

#[test]
fn read_picks_up_seeded_content() {
    let storage = test_storage();
    let path = "/base/data/counter".to_string();
    let mut disk = Disk::new();
    assert!(disk.write_file(&path, "1".to_string()));
    let mut handle = StoreHandle::<Counter>::new("counter");
    assert_eq!(storage.read(&mut disk, &mut handle), Ok(()));
    assert_eq!(*handle.get_store(), Counter { count: 1 });
}

#[test]
fn open_outcomes_follow_disk_state() {
    let path = "/base/data/counter".to_string();

    let mut disk = Disk::new();
    assert!(matches!(disk.open_file(&path), OpenOutcome::Missing));
    assert!(disk.write_file(&path, "5".to_string()));
    match disk.open_file(&path) {
        OpenOutcome::Found(content) => assert_eq!(content, "5"),
        _ => panic!("expected the file to open"),
    }

    disk.set_locked(true);
    assert!(matches!(disk.open_file(&path), OpenOutcome::Refused));
}

#[test]
fn storage_from_bases_joins_roots() {
    let storage = Storage::from_bases(
        Some("/base/cache".to_string()),
        Some("/base/data".to_string()),
        Some("/base/config".to_string()),
        "my_app",
    )
    .unwrap();
    assert_eq!(storage.path_for::<Counter>("counter"), "/base/data/my_app/counter");
    assert_eq!(storage.path_for::<Settings>("counter"), "/base/config/my_app/counter");
}

#[test]
fn storage_from_bases_requires_all_bases() {
    let r = Storage::from_bases(
        Some("/base/cache".to_string()),
        None,
        Some("/base/config".to_string()),
        "my_app",
    );
    assert!(r.is_none());
}

#[test]
fn storage_from_bases_rejects_colliding_roots() {
    let r = Storage::from_bases(
        Some("/same".to_string()),
        Some("/same".to_string()),
        Some("/base/config".to_string()),
        "my_app",
    );
    assert!(r.is_none());
}

#[test]
fn storage_from_platform_directories() {
    // platform base directories depend on the environment; when they are
    // reported, the storage works like any other
    if let Some(storage) = Storage::new("com.example.store") {
        let mut disk = Disk::new();
        let mut handle = StoreHandle::<Counter>::new("counter");
        assert_eq!(storage.read(&mut disk, &mut handle), Ok(()));
        assert_eq!(*handle.get_store(), Counter { count: 0 });
        assert_eq!(disk.num_files(), 1);
    }
}
