use content_workflow::address::{AddressError, ContentAddress};
use content_workflow::archive::{Archive, ObjectMetadata};
use content_workflow::download::{
    plan_download, ArchiveDownload, DownloadAction, DownloadEvent, DownloadMode, DownloadRequest,
    DownloadStage, DownloadSummary, EntryOutcome,
};

fn address(fill: u8) -> ContentAddress {
    ContentAddress::from_bytes([fill; 32])
}

fn archive_of(paths: &[&str]) -> Archive {
    let mut archive = Archive::new();
    for (i, path) in paths.iter().enumerate() {
        archive.add_file(path.to_string(), address(i as u8 + 1), ObjectMetadata::stamped(1, 2));
    }
    archive
}

/// Runs an archive download in which the entries at the addresses in
/// `unreachable` cannot be fetched. Returns the files written and the last
/// action.
fn run(archive: Archive, unreachable: &[ContentAddress]) -> (Vec<String>, u32, DownloadAction) {
    let (mut download, mut action) = ArchiveDownload::start(archive);
    let mut written = Vec::new();
    let mut directories = 0;
    loop {
        let event = match action {
            DownloadAction::CreateOutputDirectory => {
                directories += 1;
                DownloadEvent::OutputDirectoryReady
            }
            DownloadAction::FetchEntry { index, address: a } => {
                let entry = download.current_entry().unwrap();
                assert_eq!(entry.address, a);
                assert_eq!(download.archive().get(index).unwrap().path, entry.path);
                if unreachable.contains(&a) {
                    DownloadEvent::Entry(EntryOutcome::FetchFailed)
                } else {
                    written.push(format!("out/{}", entry.path));
                    DownloadEvent::Entry(EntryOutcome::Saved)
                }
            }
            DownloadAction::Report { .. } | DownloadAction::Abort => {
                return (written, directories, action);
            }
        };
        let (next, next_action) = download.advance(event);
        download = next;
        action = next_action;
    }
}

#[test]
fn plan_download_reads_the_address_and_the_mode() {
    let hex = "0f".repeat(32);
    assert_eq!(
        plan_download(&hex, false),
        Ok(DownloadRequest { address: address(0x0f), mode: DownloadMode::SingleObject })
    );
    assert_eq!(
        plan_download(&hex, true),
        Ok(DownloadRequest { address: address(0x0f), mode: DownloadMode::Archive })
    );
}

#[test]
fn plan_download_rejects_a_malformed_address() {
    assert_eq!(plan_download("nothex", true), Err(AddressError::InvalidEncoding));
    assert_eq!(plan_download("00ff", false), Err(AddressError::InvalidLength { actual: 2 }));
}

#[test]
fn an_empty_archive_leaves_nothing_to_do() {
    let (written, directories, last) = run(Archive::new(), &[]);
    assert!(written.is_empty());
    assert_eq!(directories, 0);
    assert_eq!(
        last,
        DownloadAction::Report { summary: DownloadSummary { success_count: 0, error_count: 0 } }
    );
}

#[test]
fn archive_with_two_entries_of_which_one_fails() {
    let archive = archive_of(&["a.txt", "b.txt"]);
    let addr2 = archive.find("b.txt").unwrap().0;
    let (written, directories, last) = run(archive, &[addr2]);
    assert_eq!(written, vec!["out/a.txt".to_string()]);
    assert_eq!(directories, 1);
    assert_eq!(
        last,
        DownloadAction::Report { summary: DownloadSummary { success_count: 1, error_count: 1 } }
    );
}

#[test]
fn every_entry_is_tried_whatever_failed_before() {
    let archive = archive_of(&["a", "b", "c", "d", "e"]);
    let failing = [address(1), address(2), address(4)];
    let (written, _, last) = run(archive, &failing);
    assert_eq!(written, vec!["out/c".to_string(), "out/e".to_string()]);
    assert_eq!(
        last,
        DownloadAction::Report { summary: DownloadSummary { success_count: 2, error_count: 3 } }
    );
}

#[test]
fn all_entries_saved() {
    let (written, _, last) = run(archive_of(&["x/1", "x/2", "y"]), &[]);
    assert_eq!(written.len(), 3);
    assert_eq!(
        last,
        DownloadAction::Report { summary: DownloadSummary { success_count: 3, error_count: 0 } }
    );
}

#[test]
fn all_entries_failed_is_still_a_report() {
    let failing = [address(1), address(2)];
    let (written, _, last) = run(archive_of(&["a", "b"]), &failing);
    assert!(written.is_empty());
    assert_eq!(
        last,
        DownloadAction::Report { summary: DownloadSummary { success_count: 0, error_count: 2 } }
    );
}

#[test]
fn a_failed_write_or_directory_counts_as_an_error() {
    let (download, _) = ArchiveDownload::start(archive_of(&["a", "b", "c"]));
    let (download, _) = download.advance(DownloadEvent::OutputDirectoryReady);
    let (download, _) = download.advance(DownloadEvent::Entry(EntryOutcome::WriteFailed));
    assert_eq!(download.summary(), DownloadSummary { success_count: 0, error_count: 1 });
    let (download, action) = download.advance(DownloadEvent::Entry(EntryOutcome::DirectoryFailed));
    assert_eq!(action, DownloadAction::FetchEntry { index: 2, address: address(3) });
    let (download, action) = download.advance(DownloadEvent::Entry(EntryOutcome::Saved));
    assert_eq!(download.stage(), DownloadStage::Finished);
    assert_eq!(
        action,
        DownloadAction::Report { summary: DownloadSummary { success_count: 1, error_count: 2 } }
    );
}

#[test]
fn a_missing_output_directory_aborts_the_download() {
    let (download, action) = ArchiveDownload::start(archive_of(&["a"]));
    assert_eq!(action, DownloadAction::CreateOutputDirectory);
    assert_eq!(download.stage(), DownloadStage::Preparing);
    assert!(download.current_entry().is_none());
    let (download, action) = download.advance(DownloadEvent::OutputDirectoryFailed);
    assert_eq!(action, DownloadAction::Abort);
    assert_eq!(download.stage(), DownloadStage::Failed);
    let (download, action) = download.advance(DownloadEvent::Entry(EntryOutcome::Saved));
    assert_eq!(action, DownloadAction::Abort);
    assert_eq!(download.summary(), DownloadSummary { success_count: 0, error_count: 0 });
}

#[test]
fn a_finished_download_ignores_further_events() {
    let (download, _) = ArchiveDownload::start(archive_of(&["a"]));
    let (download, _) = download.advance(DownloadEvent::OutputDirectoryReady);
    let (download, report) = download.advance(DownloadEvent::Entry(EntryOutcome::Saved));
    let (download, again) = download.advance(DownloadEvent::Entry(EntryOutcome::FetchFailed));
    assert_eq!(report, again);
    let (_, again) = download.advance(DownloadEvent::OutputDirectoryFailed);
    assert_eq!(report, again);
}
