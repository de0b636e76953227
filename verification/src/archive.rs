//! Archives: named references to stored objects, with their metadata.

use vstd::prelude::*;
use crate::address::{decoded, AddressError, ContentAddress};
use crate::paths::{file_name_of, final_component};

verus! {

/// What is recorded about an object beside its address. Times are seconds
/// since the Unix epoch.
#[derive(Clone, Copy, Debug, PartialEq, Eq)]
pub struct ObjectMetadata {
    pub size: u64,
    pub created: u64,
    pub modified: u64,
}

impl ObjectMetadata {
    /// Metadata for an object of `size` bytes that is recorded at time `now`:
    /// both timestamps are `now`.
    pub fn stamped(size: u64, now: u64) -> (metadata: ObjectMetadata)
        ensures
            metadata == (ObjectMetadata { size, created: now, modified: now }),
    {
        ObjectMetadata { size, created: now, modified: now }
    }

    /// Metadata for an object whose size is not known: the size is recorded
    /// as zero.
    pub fn of_unknown_size(now: u64) -> (metadata: ObjectMetadata)
        ensures
            metadata == (ObjectMetadata { size: 0, created: now, modified: now }),
    {
        ObjectMetadata::stamped(0, now)
    }
}

/// One entry of an archive: a relative path and the object stored under it.
#[derive(Debug, PartialEq, Eq)]
pub struct ArchiveEntry {
    pub path: String,
    pub address: ContentAddress,
    pub metadata: ObjectMetadata,
}

/// An archive entry as a value.
pub struct EntryModel {
    pub path: Seq<char>,
    pub address: ContentAddress,
    pub metadata: ObjectMetadata,
}

impl View for ArchiveEntry {
    type V = EntryModel;

    open spec fn view(&self) -> EntryModel {
        EntryModel { path: self.path@, address: self.address, metadata: self.metadata }
    }
}

impl Clone for ArchiveEntry {
    fn clone(&self) -> (copy: ArchiveEntry)
        ensures
            copy@ == self@,
    {
        ArchiveEntry { path: self.path.clone(), address: self.address, metadata: self.metadata }
    }
}

/// The entries of a vector as values.
spec fn models(entries: Seq<ArchiveEntry>) -> Seq<EntryModel> {
    Seq::new(entries.len(), |i: int| entries[i]@)
}

/// The place of the entry for `path` among `entries`, if there is one.
fn find_index(entries: &Vec<ArchiveEntry>, path: &String) -> (found: Option<usize>)
    ensures
        match found {
            Some(at) => at < entries@.len() && entries@[at as int].path@ == path@,
            None => !has_path(models(entries@), path@),
        },
{
    let mut i: usize = 0;
    while i < entries.len()
        invariant
            i <= entries.len(),
            forall|j: int| 0 <= j < i ==> (#[trigger] entries@[j]).path@ != path@,
        decreases entries.len() - i,
    {
        if entries[i].path == *path {
            return Some(i);
        }
        i += 1;
    }
    assert forall|j: int| 0 <= j < models(entries@).len() implies (#[trigger] models(
        entries@,
    )[j]).path != path@ by {
        assert(entries@[j].path@ != path@);
    }
    None
}

/// No two entries have the same path.
pub open spec fn distinct_paths(entries: Seq<EntryModel>) -> bool {
    forall|i: int, j: int|
        0 <= i < j < entries.len() ==> (#[trigger] entries[i]).path != (#[trigger] entries[j]).path
}

/// `entries` has an entry for `path`.
pub open spec fn has_path(entries: Seq<EntryModel>, path: Seq<char>) -> bool {
    exists|i: int| 0 <= i < entries.len() && (#[trigger] entries[i]).path == path
}

/// The place of the entry for `path`, when there is one.
pub open spec fn position_of(entries: Seq<EntryModel>, path: Seq<char>) -> int {
    choose|i: int| 0 <= i < entries.len() && (#[trigger] entries[i]).path == path
}

/// What `entries` holds under `path`.
pub open spec fn lookup(entries: Seq<EntryModel>, path: Seq<char>) -> Option<
    (ContentAddress, ObjectMetadata),
> {
    if has_path(entries, path) {
        let e = entries[position_of(entries, path)];
        Some((e.address, e.metadata))
    } else {
        None
    }
}

/// `entries` with `entry` written: it takes the place of an entry with the
/// same path, and is added at the end when there is none.
pub open spec fn with_file(entries: Seq<EntryModel>, entry: EntryModel) -> Seq<EntryModel> {
    if has_path(entries, entry.path) {
        entries.update(position_of(entries, entry.path), entry)
    } else {
        entries.push(entry)
    }
}

/// Writing an entry keeps paths distinct and behaves as an insertion into a
/// map from paths: the written path now holds the new object, every other
/// path holds what it held, and the archive grows by one exactly when the
/// path is new.
pub proof fn lemma_with_file_is_map_insert(
    entries: Seq<EntryModel>,
    entry: EntryModel,
    path: Seq<char>,
)
    requires
        distinct_paths(entries),
    ensures
        distinct_paths(with_file(entries, entry)),
        lookup(with_file(entries, entry), entry.path) == Some((entry.address, entry.metadata)),
        path != entry.path ==> lookup(with_file(entries, entry), path) == lookup(entries, path),
        with_file(entries, entry).len() == if has_path(entries, entry.path) {
            entries.len()
        } else {
            entries.len() + 1
        },
{
    let after = with_file(entries, entry);
    if has_path(entries, entry.path) {
        let k = position_of(entries, entry.path);
        assert(after[k].path == entry.path);
        assert forall|i: int, j: int| 0 <= i < j < after.len() implies (#[trigger] after[i]).path != (
        #[trigger] after[j]).path by {
            assert(entries[i].path != entries[j].path);
        }
        lemma_lookup_at(after, k);
        if path != entry.path {
            if has_path(entries, path) {
                let p = position_of(entries, path);
                assert(after[p] == entries[p]);
                lemma_lookup_at(after, p);
            } else {
                if has_path(after, path) {
                    let p = position_of(after, path);
                    assert(entries[p].path == path);
                }
            }
        }
    } else {
        let k = entries.len() as int;
        assert(after[k] == entry);
        assert forall|i: int, j: int| 0 <= i < j < after.len() implies (#[trigger] after[i]).path != (
        #[trigger] after[j]).path by {
            if j < k {
                assert(entries[i].path != entries[j].path);
            } else {
                assert(entries[i].path != entry.path);
            }
        }
        lemma_lookup_at(after, k);
        if path != entry.path {
            if has_path(entries, path) {
                let p = position_of(entries, path);
                assert(after[p] == entries[p]);
                lemma_lookup_at(after, p);
            } else {
                if has_path(after, path) {
                    let p = position_of(after, path);
                    assert(entries[p].path == path);
                }
            }
        }
    }
}

/// With distinct paths, the entry at place `k` is what its path holds.
pub proof fn lemma_lookup_at(entries: Seq<EntryModel>, k: int)
    requires
        distinct_paths(entries),
        0 <= k < entries.len(),
    ensures
        has_path(entries, entries[k].path),
        position_of(entries, entries[k].path) == k,
        lookup(entries, entries[k].path) == Some((entries[k].address, entries[k].metadata)),
{
    let path = entries[k].path;
    assert(has_path(entries, path));
    let p = position_of(entries, path);
    if p < k {
        assert(entries[p].path != entries[k].path);
    } else if k < p {
        assert(entries[k].path != entries[p].path);
    }
}

/// Why an archive could not be made.
#[derive(Clone, Copy, Debug, PartialEq, Eq)]
pub enum ArchiveError {
    /// The path has no final component to name the entry by.
    MissingFileName,
}

/// A set of entries with distinct paths. The order of the entries carries no
/// meaning.
#[derive(Debug)]
pub struct Archive {
    entries: Vec<ArchiveEntry>,
}

impl View for Archive {
    type V = Seq<EntryModel>;

    closed spec fn view(&self) -> Seq<EntryModel> {
        models(self.entries@)
    }
}

impl Clone for Archive {
    fn clone(&self) -> (copy: Archive)
        ensures
            copy@ == self@,
    {
        proof {
            use_type_invariant(self);
        }
        let mut entries: Vec<ArchiveEntry> = Vec::new();
        let mut i: usize = 0;
        while i < self.entries.len()
            invariant
                i <= self.entries.len(),
                entries@.len() == i,
                forall|j: int| 0 <= j < i ==> (#[trigger] entries@[j])@ == self.entries@[j]@,
            decreases self.entries.len() - i,
        {
            entries.push(self.entries[i].clone());
            i += 1;
        }
        assert(models(entries@) =~= models(self.entries@));
        Archive { entries }
    }
}

impl Archive {
    #[verifier::type_invariant]
    spec fn inv(self) -> bool {
        distinct_paths(self@)
    }

    /// The archive without entries.
    pub fn new() -> (archive: Archive)
        ensures
            archive@ == Seq::<EntryModel>::empty(),
    {
        let archive = Archive { entries: Vec::new() };
        assert(archive@ =~= Seq::<EntryModel>::empty());
        archive
    }

    /// The number of entries. Their paths are distinct.
    pub fn len(&self) -> (n: usize)
        ensures
            n == self@.len(),
            distinct_paths(self@),
    {
        proof {
            use_type_invariant(self);
        }
        self.entries.len()
    }

    /// Whether the archive has no entry.
    pub fn is_empty(&self) -> (empty: bool)
        ensures
            empty <==> self@.len() == 0,
            self@.len() <= usize::MAX,
    {
        self.entries.len() == 0
    }

    /// The entry at place `index`, if the archive has that many.
    pub fn get(&self, index: usize) -> (entry: Option<&ArchiveEntry>)
        ensures
            index >= self@.len() ==> entry is None,
            index < self@.len() ==> (entry matches Some(e) && e@ == self@[index as int]),
    {
        if index < self.entries.len() {
            Some(&self.entries[index])
        } else {
            None
        }
    }

    /// What the archive holds under `path`.
    pub fn find(&self, path: &str) -> (found: Option<(ContentAddress, ObjectMetadata)>)
        ensures
            found == lookup(self@, path@),
    {
        proof {
            use_type_invariant(self);
        }
        let wanted = path.to_owned();
        match find_index(&self.entries, &wanted) {
            Some(at) => {
                proof {
                    lemma_lookup_at(self@, at as int);
                }
                Some((self.entries[at].address, self.entries[at].metadata))
            },
            None => None,
        }
    }

    /// Writes an entry: `path` now refers to the object at `address`. An
    /// entry already written under `path` is replaced.
    pub fn add_file(&mut self, path: String, address: ContentAddress, metadata: ObjectMetadata)
        ensures
            final(self)@ == with_file(old(self)@, EntryModel { path: path@, address, metadata }),
            distinct_paths(final(self)@),
    {
        proof {
            use_type_invariant(&*self);
            lemma_with_file_is_map_insert(
                self@,
                EntryModel { path: path@, address, metadata },
                path@,
            );
        }
        let ghost before = self@;
        // The entries change outside the archive, which holds distinct paths
        // at every moment: it is empty until the new entries are put back.
        let mut entries: Vec<ArchiveEntry> = Vec::new();
        std::mem::swap(&mut self.entries, &mut entries);
        assert(self@ =~= Seq::<EntryModel>::empty());
        assert(before == models(entries@));
        let found = find_index(&entries, &path);
        let ghost entry = EntryModel { path: path@, address, metadata };
        match found {
            Some(at) => {
                proof {
                    lemma_lookup_at(before, at as int);
                }
                entries.set(at, ArchiveEntry { path, address, metadata });
                assert(models(entries@) =~= before.update(at as int, entry));
                self.entries = entries;
            },
            None => {
                entries.push(ArchiveEntry { path, address, metadata });
                assert(models(entries@) =~= before.push(entry));
                self.entries = entries;
            },
        }
    }

    /// The archive of one entry named `base_name`, or `MissingFileName` when
    /// there is no name.
    pub fn single_entry(
        base_name: Option<String>,
        address: ContentAddress,
        metadata: ObjectMetadata,
    ) -> (r: Result<Archive, ArchiveError>)
        ensures
            match base_name {
                Some(name) => (r matches Ok(archive) && archive@ == seq![
                    EntryModel { path: name@, address, metadata },
                ]),
                None => r matches Err(ArchiveError::MissingFileName),
            },
    {
        match base_name {
            Some(name) => {
                let mut archive = Archive::new();
                archive.add_file(name, address, metadata);
                assert(!has_path(Seq::<EntryModel>::empty(), name@));
                assert(archive@ =~= seq![EntryModel { path: name@, address, metadata }]);
                Ok(archive)
            },
            None => Err(ArchiveError::MissingFileName),
        }
    }

    /// The archive that refers to the object at `address` under the final
    /// component of `display_path`, or `MissingFileName` when the path has no
    /// final component.
    pub fn create(display_path: &str, address: ContentAddress, metadata: ObjectMetadata) -> (r:
        Result<Archive, ArchiveError>)
        ensures
            match final_component(display_path@) {
                Some(name) => (r matches Ok(archive) && archive@ == seq![
                    EntryModel { path: name, address, metadata },
                ]),
                None => r matches Err(ArchiveError::MissingFileName),
            },
    {
        Archive::single_entry(file_name_of(display_path), address, metadata)
    }
}

/// Why the archive command could not go ahead.
#[derive(Clone, Copy, Debug, PartialEq, Eq)]
pub enum ArchiveCommandError {
    /// The address given is not a content address.
    Address(AddressError),
    /// The archive could not be made.
    Archive(ArchiveError),
}

/// What the archive command puts: the archive for an object that is already
/// stored.
#[derive(Debug)]
pub struct ArchiveRequest {
    pub address: ContentAddress,
    pub metadata: ObjectMetadata,
    pub archive: Archive,
}

/// Prepares the archive command for the object whose address is written in
/// `data_address_hex`, to be listed under the final component of
/// `archive_path`.
///
/// A malformed address is reported as such, before anything else is looked
/// at. The size of the object is not known here and is recorded as zero, with
/// `now` for both timestamps. The archive has one entry, for that object.
pub fn plan_archive(data_address_hex: &str, archive_path: &str, now: u64) -> (r: Result<
    ArchiveRequest,
    ArchiveCommandError,
>)
    ensures
        match decoded(data_address_hex@) {
            Err(e) => r matches Err(ArchiveCommandError::Address(reported)) && reported == e,
            Ok(bytes) => match final_component(archive_path@) {
                None => r matches Err(ArchiveCommandError::Archive(ArchiveError::MissingFileName)),
                Some(name) => {
                    &&& r matches Ok(request)
                    &&& request.address@ == bytes
                    &&& request.metadata == (ObjectMetadata { size: 0, created: now, modified: now })
                    &&& request.archive@ == seq![
                        EntryModel {
                            path: name,
                            address: request.address,
                            metadata: request.metadata,
                        },
                    ]
                },
            },
        },
{
    match ContentAddress::decode(data_address_hex) {
        Err(e) => Err(ArchiveCommandError::Address(e)),
        Ok(address) => {
            let metadata = ObjectMetadata::of_unknown_size(now);
            match Archive::create(archive_path, address, metadata) {
                Ok(archive) => Ok(ArchiveRequest { address, metadata, archive }),
                Err(e) => Err(ArchiveCommandError::Archive(e)),
            }
        },
    }
}

} // verus!
