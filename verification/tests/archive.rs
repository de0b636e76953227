use content_workflow::address::{AddressError, ContentAddress};
use content_workflow::archive::{
    plan_archive, Archive, ArchiveCommandError, ArchiveError, ObjectMetadata,
};

fn address(fill: u8) -> ContentAddress {
    ContentAddress::from_bytes([fill; 32])
}

fn metadata(size: u64) -> ObjectMetadata {
    ObjectMetadata::stamped(size, 1_700_000_000)
}

#[test]
fn stamped_metadata_uses_one_time_for_both_stamps() {
    let m = ObjectMetadata::stamped(10, 1_700_000_000);
    assert_eq!(m.size, 10);
    assert_eq!(m.created, 1_700_000_000);
    assert_eq!(m.modified, 1_700_000_000);
}

#[test]
fn metadata_of_unknown_size_records_zero() {
    let m = ObjectMetadata::of_unknown_size(42);
    assert_eq!(m, ObjectMetadata { size: 0, created: 42, modified: 42 });
}

#[test]
fn a_new_archive_is_empty() {
    let archive = Archive::new();
    assert!(archive.is_empty());
    assert_eq!(archive.len(), 0);
    assert!(archive.get(0).is_none());
    assert_eq!(archive.find("a.txt"), None);
}

#[test]
fn add_file_adds_an_entry() {
    let mut archive = Archive::new();
    archive.add_file("a.txt".to_string(), address(1), metadata(3));
    archive.add_file("dir/b.txt".to_string(), address(2), metadata(4));
    assert!(!archive.is_empty());
    assert_eq!(archive.len(), 2);
    assert_eq!(archive.find("a.txt"), Some((address(1), metadata(3))));
    assert_eq!(archive.find("dir/b.txt"), Some((address(2), metadata(4))));
    assert_eq!(archive.find("b.txt"), None);
    let first = archive.get(0).unwrap();
    assert_eq!(first.path, "a.txt");
    assert_eq!(first.address, address(1));
    assert_eq!(first.metadata, metadata(3));
    assert_eq!(archive.get(1).unwrap().path, "dir/b.txt");
    assert!(archive.get(2).is_none());
}

#[test]
fn the_last_write_to_a_path_wins() {
    let mut archive = Archive::new();
    archive.add_file("a.txt".to_string(), address(1), metadata(3));
    archive.add_file("b.txt".to_string(), address(2), metadata(4));
    archive.add_file("a.txt".to_string(), address(9), metadata(5));
    assert_eq!(archive.len(), 2);
    assert_eq!(archive.find("a.txt"), Some((address(9), metadata(5))));
    assert_eq!(archive.find("b.txt"), Some((address(2), metadata(4))));
}

#[test]
fn a_cloned_archive_holds_the_same_entries() {
    let mut archive = Archive::new();
    archive.add_file("a.txt".to_string(), address(1), metadata(3));
    let copy = archive.clone();
    assert_eq!(copy.len(), 1);
    assert_eq!(copy.find("a.txt"), Some((address(1), metadata(3))));
    archive.add_file("b.txt".to_string(), address(2), metadata(4));
    assert_eq!(copy.len(), 1);
    assert_eq!(archive.len(), 2);
}

#[test]
fn single_entry_needs_a_name() {
    let made = Archive::single_entry(Some("a.txt".to_string()), address(1), metadata(3)).unwrap();
    assert_eq!(made.len(), 1);
    assert_eq!(made.find("a.txt"), Some((address(1), metadata(3))));
    assert_eq!(
        Archive::single_entry(None, address(1), metadata(3)).unwrap_err(),
        ArchiveError::MissingFileName
    );
}

#[test]
fn create_names_the_entry_by_the_final_component() {
    let archive = Archive::create("some/dir/report.pdf", address(5), metadata(7)).unwrap();
    assert_eq!(archive.len(), 1);
    assert_eq!(archive.get(0).unwrap().path, "report.pdf");
    assert_eq!(archive.find("report.pdf"), Some((address(5), metadata(7))));

    let plain = Archive::create("archived_file", address(5), metadata(7)).unwrap();
    assert_eq!(plain.get(0).unwrap().path, "archived_file");
}

#[test]
fn create_fails_without_a_final_component() {
    assert_eq!(
        Archive::create("..", address(5), metadata(7)).unwrap_err(),
        ArchiveError::MissingFileName
    );
    assert_eq!(
        Archive::create("", address(5), metadata(7)).unwrap_err(),
        ArchiveError::MissingFileName
    );
    assert_eq!(
        Archive::create("/", address(5), metadata(7)).unwrap_err(),
        ArchiveError::MissingFileName
    );
    assert_eq!(
        Archive::create("a/..", address(5), metadata(7)).unwrap_err(),
        ArchiveError::MissingFileName
    );
}

#[test]
fn plan_archive_defaults_the_size_to_zero() {
    let hex = "11".repeat(32);
    let request = plan_archive(&hex, "archived_file", 1234).unwrap();
    assert_eq!(request.address, address(0x11));
    assert_eq!(request.metadata, ObjectMetadata { size: 0, created: 1234, modified: 1234 });
    assert_eq!(request.archive.len(), 1);
    assert_eq!(
        request.archive.find("archived_file"),
        Some((address(0x11), ObjectMetadata { size: 0, created: 1234, modified: 1234 }))
    );
}

#[test]
fn plan_archive_reports_a_malformed_address_first() {
    let bad = plan_archive("xyz", "..", 1).unwrap_err();
    assert_eq!(bad, ArchiveCommandError::Address(AddressError::InvalidEncoding));
    let short = plan_archive("abcd", "name", 1).unwrap_err();
    assert_eq!(short, ArchiveCommandError::Address(AddressError::InvalidLength { actual: 2 }));
}

#[test]
fn plan_archive_reports_a_missing_file_name() {
    let hex = "22".repeat(32);
    let err = plan_archive(&hex, "..", 1).unwrap_err();
    assert_eq!(err, ArchiveCommandError::Archive(ArchiveError::MissingFileName));
}
