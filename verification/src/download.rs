//! The download workflow: one object, or every entry of an archive.
//!
//! The entries of an archive are fetched one after the other. An entry that
//! cannot be fetched or written is counted and the next one is taken: the
//! download ends with the two counts, and with whatever could be saved.

use vstd::prelude::*;
use crate::address::{decoded, AddressError, ContentAddress};
use crate::archive::{Archive, ArchiveEntry, EntryModel};

verus! {

/// What the address of a download refers to.
#[derive(Clone, Copy, Debug, PartialEq, Eq)]
pub enum DownloadMode {
    /// One object, saved as one file.
    SingleObject,
    /// An archive, whose entries are saved below one directory.
    Archive,
}

/// A download that is ready to start.
#[derive(Clone, Copy, Debug, PartialEq, Eq)]
pub struct DownloadRequest {
    pub address: ContentAddress,
    pub mode: DownloadMode,
}

/// Prepares a download from the address written in `address_hex`.
pub fn plan_download(address_hex: &str, treat_as_archive: bool) -> (r: Result<
    DownloadRequest,
    AddressError,
>)
    ensures
        match decoded(address_hex@) {
            Ok(bytes) => r matches Ok(request) && request.address@ == bytes && request.mode == (
            if treat_as_archive {
                DownloadMode::Archive
            } else {
                DownloadMode::SingleObject
            }),
            Err(e) => r == Err::<DownloadRequest, AddressError>(e),
        },
{
    match ContentAddress::decode(address_hex) {
        Ok(address) => {
            let mode = if treat_as_archive {
                DownloadMode::Archive
            } else {
                DownloadMode::SingleObject
            };
            Ok(DownloadRequest { address, mode })
        },
        Err(e) => Err(e),
    }
}

/// The closing report of an archive download.
#[derive(Clone, Copy, Debug, PartialEq, Eq)]
pub struct DownloadSummary {
    /// Entries that were fetched and written.
    pub success_count: usize,
    /// Entries that were not.
    pub error_count: usize,
}

/// How the download of one entry ended.
#[derive(Clone, Copy, Debug, PartialEq, Eq)]
pub enum EntryOutcome {
    /// The entry was fetched and written.
    Saved,
    /// The directory for the entry could not be created.
    DirectoryFailed,
    /// The entry could not be fetched.
    FetchFailed,
    /// The entry was fetched and could not be written.
    WriteFailed,
}

/// What the caller reports to an archive download.
#[derive(Clone, Copy, Debug, PartialEq, Eq)]
pub enum DownloadEvent {
    /// The output directory is there.
    OutputDirectoryReady,
    /// The output directory could not be created.
    OutputDirectoryFailed,
    /// The entry that was asked for is done.
    Entry(EntryOutcome),
}

/// Where an archive download stands.
#[derive(Clone, Copy, Debug, PartialEq, Eq)]
pub enum DownloadStage {
    /// The output directory is to be created.
    Preparing,
    /// Entries are being fetched.
    Fetching,
    /// Every entry was tried.
    Finished,
    /// The output directory could not be created.
    Failed,
}

/// What the caller of an archive download does next.
#[derive(Clone, Copy, Debug, PartialEq, Eq)]
pub enum DownloadAction {
    /// Create the output directory and what is missing above it.
    CreateOutputDirectory,
    /// Fetch the entry at place `index` once, and write it below the output
    /// directory under the entry's path, creating directories as needed.
    FetchEntry { index: usize, address: ContentAddress },
    /// Stop: the download is over, with these counts.
    Report { summary: DownloadSummary },
    /// Stop: the download failed before any entry was tried.
    Abort,
}

/// The number of saved entries among `outcomes`.
pub open spec fn saved_count(outcomes: Seq<EntryOutcome>) -> nat
    decreases outcomes.len(),
{
    if outcomes.len() == 0 {
        0
    } else {
        saved_count(outcomes.drop_last()) + if outcomes.last() == EntryOutcome::Saved {
            1nat
        } else {
            0nat
        }
    }
}

/// The state of an archive download.
pub struct DownloadModel {
    pub entries: Seq<EntryModel>,
    pub stage: DownloadStage,
    /// The number of entries tried so far.
    pub tried: nat,
    pub saved: nat,
    pub failed: nat,
}

impl DownloadModel {
    /// Every entry tried was counted once, as saved or as failed, and the
    /// stage says whether entries are left.
    pub open spec fn wf(self) -> bool {
        &&& self.saved + self.failed == self.tried
        &&& self.tried <= self.entries.len()
        &&& self.entries.len() <= usize::MAX
        &&& match self.stage {
            DownloadStage::Preparing => self.tried == 0 && self.entries.len() > 0,
            DownloadStage::Fetching => self.tried < self.entries.len(),
            DownloadStage::Finished => self.tried == self.entries.len(),
            DownloadStage::Failed => self.tried == 0 && self.entries.len() > 0,
        }
    }

    /// The state before anything was done. An archive without entries leaves
    /// nothing to do.
    pub open spec fn start(entries: Seq<EntryModel>) -> DownloadModel {
        DownloadModel {
            entries,
            stage: if entries.len() == 0 {
                DownloadStage::Finished
            } else {
                DownloadStage::Preparing
            },
            tried: 0,
            saved: 0,
            failed: 0,
        }
    }

    /// The state after `event`. An event that does not belong to the stage
    /// changes nothing.
    pub open spec fn step(self, event: DownloadEvent) -> DownloadModel {
        match (self.stage, event) {
            (DownloadStage::Preparing, DownloadEvent::OutputDirectoryReady) => DownloadModel {
                stage: DownloadStage::Fetching,
                ..self
            },
            (DownloadStage::Preparing, DownloadEvent::OutputDirectoryFailed) => DownloadModel {
                stage: DownloadStage::Failed,
                ..self
            },
            (DownloadStage::Fetching, DownloadEvent::Entry(outcome)) => DownloadModel {
                stage: if self.tried + 1 >= self.entries.len() {
                    DownloadStage::Finished
                } else {
                    DownloadStage::Fetching
                },
                tried: self.tried + 1,
                saved: if outcome == EntryOutcome::Saved {
                    self.saved + 1
                } else {
                    self.saved
                },
                failed: if outcome == EntryOutcome::Saved {
                    self.failed
                } else {
                    self.failed + 1
                },
                ..self
            },
            _ => self,
        }
    }

    /// The counts so far.
    pub open spec fn summary(self) -> DownloadSummary {
        DownloadSummary { success_count: self.saved as usize, error_count: self.failed as usize }
    }

    /// What the caller does in this state.
    pub open spec fn action(self) -> DownloadAction {
        match self.stage {
            DownloadStage::Preparing => DownloadAction::CreateOutputDirectory,
            DownloadStage::Fetching => DownloadAction::FetchEntry {
                index: self.tried as usize,
                address: self.entries[self.tried as int].address,
            },
            DownloadStage::Finished => DownloadAction::Report { summary: self.summary() },
            DownloadStage::Failed => DownloadAction::Abort,
        }
    }

    /// The state after the outcomes of the next entries, in order.
    pub open spec fn run_entries(self, outcomes: Seq<EntryOutcome>) -> DownloadModel
        decreases outcomes.len(),
    {
        if outcomes.len() == 0 {
            self
        } else {
            self.run_entries(outcomes.drop_last()).step(DownloadEvent::Entry(outcomes.last()))
        }
    }
}

/// Every event keeps the state well formed and the entries as they were, and
/// no count ever goes down.
pub proof fn lemma_step_preserves_wf(state: DownloadModel, event: DownloadEvent)
    requires
        state.wf(),
    ensures
        state.step(event).wf(),
        state.step(event).entries == state.entries,
        state.step(event).saved >= state.saved,
        state.step(event).failed >= state.failed,
{
}

/// An archive without entries is finished before it starts: the first action
/// is the report, with both counts zero, and nothing is created or fetched.
pub proof fn lemma_empty_archive_has_nothing_to_do(entries: Seq<EntryModel>)
    requires
        entries.len() == 0,
    ensures
        DownloadModel::start(entries).action() == (DownloadAction::Report {
            summary: DownloadSummary { success_count: 0, error_count: 0 },
        }),
        forall|event: DownloadEvent| #[trigger]
            DownloadModel::start(entries).step(event) == DownloadModel::start(entries),
{
}

/// While entries are left, each outcome is counted once and the next entry is
/// taken, whether the entry was saved or not.
pub proof fn lemma_entries_are_counted(state: DownloadModel, outcomes: Seq<EntryOutcome>)
    requires
        state.wf(),
        state.stage == DownloadStage::Fetching,
        state.tried + outcomes.len() <= state.entries.len(),
    ensures
        ({
            let end = state.run_entries(outcomes);
            &&& end.wf()
            &&& end.entries == state.entries
            &&& end.tried == state.tried + outcomes.len()
            &&& end.saved == state.saved + saved_count(outcomes)
            &&& end.failed == state.failed + outcomes.len() - saved_count(outcomes)
            &&& end.stage == if end.tried == state.entries.len() {
                DownloadStage::Finished
            } else {
                DownloadStage::Fetching
            }
        }),
    decreases outcomes.len(),
{
    if outcomes.len() > 0 {
        lemma_entries_are_counted(state, outcomes.drop_last());
    }
}

/// An archive of `n > 0` entries, of which `m` fail, ends with the report of
/// `n - m` successes and `m` failures, once its output directory is there.
pub proof fn lemma_summary_reports_every_entry(
    entries: Seq<EntryModel>,
    outcomes: Seq<EntryOutcome>,
)
    requires
        0 < entries.len() <= usize::MAX,
        outcomes.len() == entries.len(),
    ensures
        ({
            let end = DownloadModel::start(entries).step(
                DownloadEvent::OutputDirectoryReady,
            ).run_entries(outcomes);
            let m = outcomes.len() - saved_count(outcomes);
            &&& 0 <= m <= entries.len()
            &&& end.action() == DownloadAction::Report {
                summary: DownloadSummary {
                    success_count: (entries.len() - m) as usize,
                    error_count: m as usize,
                },
            }
        }),
{
    let ready = DownloadModel::start(entries).step(DownloadEvent::OutputDirectoryReady);
    lemma_entries_are_counted(ready, outcomes);
}

/// An archive download in progress.
#[derive(Debug)]
pub struct ArchiveDownload {
    archive: Archive,
    stage: DownloadStage,
    saved: usize,
    failed: usize,
}

impl View for ArchiveDownload {
    type V = DownloadModel;

    closed spec fn view(&self) -> DownloadModel {
        DownloadModel {
            entries: self.archive@,
            stage: self.stage,
            tried: (self.saved + self.failed) as nat,
            saved: self.saved as nat,
            failed: self.failed as nat,
        }
    }
}

impl ArchiveDownload {
    #[verifier::type_invariant]
    spec fn inv(self) -> bool {
        self@.wf()
    }

    /// Starts the download of the entries of `archive`.
    pub fn start(archive: Archive) -> (r: (ArchiveDownload, DownloadAction))
        ensures
            r.0@ == DownloadModel::start(archive@),
            r.0@.wf(),
            r.1 == r.0@.action(),
    {
        let stage = if archive.is_empty() {
            DownloadStage::Finished
        } else {
            DownloadStage::Preparing
        };
        let download = ArchiveDownload { archive, stage, saved: 0, failed: 0 };
        let action = download.action();
        (download, action)
    }

    /// The archive that is being downloaded.
    pub fn archive(&self) -> (archive: &Archive)
        ensures
            archive@ == self@.entries,
    {
        &self.archive
    }

    /// The stage of the download.
    pub fn stage(&self) -> (stage: DownloadStage)
        ensures
            stage == self@.stage,
            self@.wf(),
    {
        proof {
            use_type_invariant(self);
        }
        self.stage
    }

    /// The counts so far.
    pub fn summary(&self) -> (summary: DownloadSummary)
        ensures
            summary == self@.summary(),
            self@.wf(),
    {
        proof {
            use_type_invariant(self);
        }
        DownloadSummary { success_count: self.saved, error_count: self.failed }
    }

    /// The entry to fetch now, while entries are being fetched.
    pub fn current_entry(&self) -> (entry: Option<&ArchiveEntry>)
        ensures
            self@.stage == DownloadStage::Fetching ==> (entry matches Some(e) && e@
                == self@.entries[self@.tried as int]),
            self@.stage != DownloadStage::Fetching ==> entry is None,
    {
        proof {
            use_type_invariant(self);
        }
        match self.stage {
            DownloadStage::Fetching => self.archive.get(self.saved + self.failed),
            _ => None,
        }
    }

    /// What the caller does next.
    pub fn action(&self) -> (action: DownloadAction)
        ensures
            action == self@.action(),
            self@.wf(),
    {
        proof {
            use_type_invariant(self);
        }
        match self.stage {
            DownloadStage::Preparing => DownloadAction::CreateOutputDirectory,
            DownloadStage::Fetching => {
                let index = self.saved + self.failed;
                match self.archive.get(index) {
                    Some(entry) => DownloadAction::FetchEntry { index, address: entry.address },
                    None => unreached(),
                }
            },
            DownloadStage::Finished => DownloadAction::Report { summary: self.summary() },
            DownloadStage::Failed => DownloadAction::Abort,
        }
    }

    /// The state after `event`.
    pub fn step(self, event: DownloadEvent) -> (next: ArchiveDownload)
        ensures
            next@ == self@.step(event),
            next@.wf(),
    {
        proof {
            use_type_invariant(&self);
            lemma_step_preserves_wf(self@, event);
        }
        match (self.stage, event) {
            (DownloadStage::Preparing, DownloadEvent::OutputDirectoryReady) => ArchiveDownload {
                archive: self.archive,
                stage: DownloadStage::Fetching,
                saved: self.saved,
                failed: self.failed,
            },
            (DownloadStage::Preparing, DownloadEvent::OutputDirectoryFailed) => ArchiveDownload {
                archive: self.archive,
                stage: DownloadStage::Failed,
                saved: self.saved,
                failed: self.failed,
            },
            (DownloadStage::Fetching, DownloadEvent::Entry(outcome)) => {
                let total = self.archive.len();
                let tried = self.saved + self.failed + 1;
                let stage = if tried >= total {
                    DownloadStage::Finished
                } else {
                    DownloadStage::Fetching
                };
                match outcome {
                    EntryOutcome::Saved => ArchiveDownload {
                        archive: self.archive,
                        stage,
                        saved: self.saved + 1,
                        failed: self.failed,
                    },
                    _ => ArchiveDownload {
                        archive: self.archive,
                        stage,
                        saved: self.saved,
                        failed: self.failed + 1,
                    },
                }
            },
            _ => self,
        }
    }

    /// Takes an event and says what to do next.
    pub fn advance(self, event: DownloadEvent) -> (r: (ArchiveDownload, DownloadAction))
        ensures
            r.0@ == self@.step(event),
            r.0@.wf(),
            r.1 == r.0@.action(),
    {
        let next = self.step(event);
        let action = next.action();
        (next, action)
    }
}

} // verus!
