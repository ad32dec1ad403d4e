use node_fleet::archive::{stamp, Metadata, PrivateArchive, PrivateDataAccess, RenameError};

fn access(tag: u8) -> PrivateDataAccess {
    PrivateDataAccess { bytes: vec![tag, tag, tag] }
}

#[test]
fn new_archive_is_empty() {
    let archive = PrivateArchive::new();
    assert!(archive.files().is_empty());
    assert!(archive.addresses().is_empty());
    assert!(archive.iter().is_empty());
    assert!(archive.map().is_empty());
    assert_eq!(archive, PrivateArchive::default());
}

#[test]
fn add_file_lists_the_file() {
    let mut archive = PrivateArchive::new();
    let meta = Metadata::at(42, 1_700_000_000);
    archive.add_file("dir/a.txt".to_string(), access(1), meta);
    assert_eq!(archive.files(), vec![("dir/a.txt".to_string(), meta)]);
    assert_eq!(archive.addresses(), vec![access(1)]);
    assert_eq!(archive.iter(), vec![("dir/a.txt".to_string(), access(1), meta)]);
    assert!(archive.contains(&"dir/a.txt".to_string()));
    assert!(!archive.contains(&"dir/b.txt".to_string()));
}

#[test]
fn add_file_replaces_a_file_at_the_same_path() {
    let mut archive = PrivateArchive::new();
    archive.add_file("a".to_string(), access(1), Metadata::at(1, 10));
    archive.add_file("b".to_string(), access(2), Metadata::at(2, 20));
    archive.add_file("a".to_string(), access(3), Metadata::at(3, 30));
    let mut files = archive.files();
    files.sort_by(|x, y| x.0.cmp(&y.0));
    assert_eq!(
        files,
        vec![("a".to_string(), Metadata::at(3, 30)), ("b".to_string(), Metadata::at(2, 20))]
    );
    assert_eq!(archive.map().len(), 2);
}

#[test]
fn rename_file_at_moves_the_entry_and_sets_modified() {
    let mut archive = PrivateArchive::new();
    archive.add_file("old".to_string(), access(7), Metadata::at(5, 100));
    let r = archive.rename_file_at(&"old".to_string(), &"new".to_string(), 250);
    assert_eq!(r, Ok(()));
    assert_eq!(
        archive.iter(),
        vec![(
            "new".to_string(),
            access(7),
            Metadata { uploaded: 100, created: 100, modified: 250, size: 5 }
        )]
    );
}

#[test]
fn rename_file_reports_a_missing_file() {
    let mut archive = PrivateArchive::new();
    archive.add_file("kept".to_string(), access(1), Metadata::at(1, 1));
    let r = archive.rename_file(&"absent".to_string(), &"new".to_string());
    assert_eq!(r, Err(RenameError::FileNotFound("absent".to_string())));
    assert_eq!(
        RenameError::FileNotFound("absent".to_string()).message(),
        "File not found in archive: absent"
    );
    assert_eq!(archive.files(), vec![("kept".to_string(), Metadata::at(1, 1))]);
}

#[test]
fn rename_file_keeps_access_and_size() {
    let mut archive = PrivateArchive::new();
    archive.add_file("a".to_string(), access(9), Metadata::at(77, 5));
    assert_eq!(archive.rename_file(&"a".to_string(), &"b".to_string()), Ok(()));
    let items = archive.iter();
    assert_eq!(items.len(), 1);
    assert_eq!(items[0].0, "b");
    assert_eq!(items[0].1, access(9));
    assert_eq!(items[0].2.size, 77);
    assert_eq!(items[0].2.created, 5);
    assert_eq!(items[0].2.uploaded, 5);
    assert!(items[0].2.modified > 1_600_000_000);
}

#[test]
fn rename_onto_an_existing_path_replaces_it() {
    let mut archive = PrivateArchive::new();
    archive.add_file("a".to_string(), access(1), Metadata::at(1, 1));
    archive.add_file("b".to_string(), access(2), Metadata::at(2, 2));
    assert_eq!(archive.rename_file_at(&"a".to_string(), &"b".to_string(), 9), Ok(()));
    assert_eq!(
        archive.iter(),
        vec![("b".to_string(), access(1), Metadata { uploaded: 1, created: 1, modified: 9, size: 1 })]
    );
}

#[test]
fn new_with_size_uses_one_time_for_all_stamps() {
    let meta = Metadata::new_with_size(10);
    assert_eq!(meta.size, 10);
    assert_eq!(meta.uploaded, meta.created);
    assert_eq!(meta.created, meta.modified);
    assert!(meta.uploaded > 1_600_000_000);
}

#[test]
fn a_clock_before_the_epoch_counts_as_the_epoch() {
    assert_eq!(stamp(None), 0);
    assert_eq!(stamp(Some(1_700_000_000)), 1_700_000_000);
    assert_eq!(stamp(Some(0)), 0);
}

#[test]
fn clone_keeps_the_files() {
    let mut archive = PrivateArchive::new();
    archive.add_file("a".to_string(), access(1), Metadata::at(1, 1));
    archive.add_file("b".to_string(), access(2), Metadata::at(2, 2));
    let copy = archive.clone();
    assert_eq!(copy, archive);
    assert_eq!(copy.iter(), archive.iter());
}
