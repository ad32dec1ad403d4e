//! A private archive: the files of an upload by path, each with the access
//! to its data and its metadata. An archive is local until it is stored.
use vstd::prelude::*;
use vstd::string::*;

verus! {

/// Metadata for a file in an archive. Time values are UNIX timestamps.
#[derive(Clone, Copy, Debug, PartialEq, Eq, Structural)]
pub struct Metadata {
    /// When the file was (last) uploaded to the network.
    pub uploaded: u64,
    /// File creation time on the local file system.
    pub created: u64,
    /// Last file modification time taken from the local file system.
    pub modified: u64,
    /// File size in bytes.
    pub size: u64,
}

/// The seconds that have passed since the UNIX epoch, read from the system
/// clock with `std::time::SystemTime::now`; nothing if the clock is set
/// before the epoch.
///
/// Trusted: nothing is claimed of the value, which differs from call to call.
#[verifier::external_body]
fn clock_seconds() -> Option<u64> {
    match std::time::SystemTime::now().duration_since(std::time::UNIX_EPOCH) {
        Ok(d) => Some(d.as_secs()),
        Err(_) => None,
    }
}

/// The time that a reading of the clock stands for: the seconds since the
/// epoch, and the epoch itself where the clock is set before it.
pub open spec fn stamp_of(reading: Option<u64>) -> u64 {
    match reading {
        Some(seconds) => seconds,
        None => 0,
    }
}

/// The time that a reading of the clock stands for.
pub fn stamp(reading: Option<u64>) -> (now: u64)
    ensures
        now == stamp_of(reading),
{
    match reading {
        Some(seconds) => seconds,
        None => 0,
    }
}

/// The current time as a UNIX timestamp.
fn unix_now() -> u64 {
    stamp(clock_seconds())
}

impl Metadata {
    /// Metadata of a file of `size` bytes that was created, modified and
    /// uploaded at `now`.
    pub fn at(size: u64, now: u64) -> (r: Self)
        ensures
            r == (Metadata { uploaded: now, created: now, modified: now, size }),
    {
        Metadata { uploaded: now, created: now, modified: now, size }
    }

    /// Metadata of a file of `size` bytes with the current time as uploaded,
    /// created and modified.
    pub fn new_with_size(size: u64) -> (r: Self)
        ensures
            r.size == size,
            r.uploaded == r.created,
            r.created == r.modified,
    {
        Metadata::at(size, unix_now())
    }
}

/// Why a rename failed.
#[derive(Clone, Debug, PartialEq, Eq)]
pub enum RenameError {
    /// The archive holds no file at this path.
    FileNotFound(String),
}

impl RenameError {
    /// The message of the error.
    pub open spec fn message_text(&self) -> Seq<char> {
        match self {
            RenameError::FileNotFound(path) => "File not found in archive: "@ + path@,
        }
    }

    /// The message of the error.
    pub fn message(&self) -> (s: String)
        ensures
            s@ == self.message_text(),
    {
        match self {
            RenameError::FileNotFound(path) => {
                let mut s = String::from_str("File not found in archive: ");
                s.append(path.as_str());
                s
            },
        }
    }
}

/// What gives access to the private data of one file.
#[derive(Clone, Debug, PartialEq, Eq)]
pub struct PrivateDataAccess {
    pub bytes: Vec<u8>,
}

impl View for PrivateDataAccess {
    type V = Seq<u8>;

    open spec fn view(&self) -> Seq<u8> {
        self.bytes@
    }
}

impl PrivateDataAccess {
    /// A copy of the access.
    pub fn copy(&self) -> (r: Self)
        ensures
            r@ == self@,
    {
        PrivateDataAccess { bytes: self.bytes.clone() }
    }
}

/// One file of an archive.
#[derive(Clone, Debug, PartialEq, Eq)]
pub struct ArchiveEntry {
    pub path: String,
    pub access: PrivateDataAccess,
    pub meta: Metadata,
}

/// What an archive says of one file.
pub struct EntryView {
    pub path: Seq<char>,
    pub access: Seq<u8>,
    pub meta: Metadata,
}

impl View for ArchiveEntry {
    type V = EntryView;

    open spec fn view(&self) -> EntryView {
        EntryView { path: self.path@, access: self.access@, meta: self.meta }
    }
}

/// The entries as plain values, in order.
pub open spec fn entry_views(entries: Seq<ArchiveEntry>) -> Seq<EntryView> {
    Seq::new(entries.len(), |i: int| entries[i]@)
}

/// No path occurs twice in the list.
pub open spec fn paths_distinct(entries: Seq<EntryView>) -> bool {
    forall|i: int, j: int|
        0 <= i < j < entries.len() ==> (#[trigger] entries[i]).path != (#[trigger] entries[j]).path
}

/// Some entry of the list is at `path`.
pub open spec fn has_path(entries: Seq<EntryView>, path: Seq<char>) -> bool {
    exists|i: int| 0 <= i < entries.len() && (#[trigger] entries[i]).path == path
}

/// The position of the entry at `path`.
pub open spec fn position_of(entries: Seq<EntryView>, path: Seq<char>) -> int {
    choose|i: int| 0 <= i < entries.len() && (#[trigger] entries[i]).path == path
}

/// The map from paths to access and metadata that a list of entries stands for.
pub open spec fn map_of(entries: Seq<EntryView>) -> Map<Seq<char>, (Seq<u8>, Metadata)> {
    Map::new(
        |path: Seq<char>| has_path(entries, path),
        |path: Seq<char>|
            (entries[position_of(entries, path)].access, entries[position_of(entries, path)].meta),
    )
}

/// A private archive of files: file paths with their metadata and the access
/// to their data. An archive stands for a whole directory under one address.
#[derive(Debug, PartialEq, Eq)]
pub struct PrivateArchive {
    entries: Vec<ArchiveEntry>,
}

impl View for PrivateArchive {
    type V = Map<Seq<char>, (Seq<u8>, Metadata)>;

    closed spec fn view(&self) -> Map<Seq<char>, (Seq<u8>, Metadata)> {
        map_of(entry_views(self.entries@))
    }
}

/// In a list without a repeated path, the entry at a position is the one that
/// the map holds for its path.
pub proof fn lemma_map_of_entry(entries: Seq<EntryView>, i: int)
    requires
        paths_distinct(entries),
        0 <= i < entries.len(),
    ensures
        map_of(entries).contains_key(entries[i].path),
        map_of(entries)[entries[i].path] == (entries[i].access, entries[i].meta),
        position_of(entries, entries[i].path) == i,
{
    let p = entries[i].path;
    let k = position_of(entries, p);
    assert(0 <= k < entries.len() && entries[k].path == p);
    if k < i {
        assert(entries[k].path != entries[i].path);
    }
    if i < k {
        assert(entries[i].path != entries[k].path);
    }
}

/// Appending an entry at a new path inserts it into the map.
pub proof fn lemma_map_of_push(entries: Seq<EntryView>, e: EntryView)
    requires
        paths_distinct(entries),
        !has_path(entries, e.path),
    ensures
        paths_distinct(entries.push(e)),
        map_of(entries.push(e)) == map_of(entries).insert(e.path, (e.access, e.meta)),
{
    let after = entries.push(e);
    assert forall|i: int, j: int| 0 <= i < j < after.len() implies (#[trigger] after[i]).path != (
    #[trigger] after[j]).path by {
        if j < entries.len() {
            assert(after[i] == entries[i] && after[j] == entries[j]);
        } else {
            assert(after[i] == entries[i]);
        }
    }
    let m1 = map_of(after);
    let m2 = map_of(entries).insert(e.path, (e.access, e.meta));
    assert forall|p: Seq<char>| m1.contains_key(p) <==> m2.contains_key(p) by {
        if has_path(after, p) {
            let k = choose|k: int| 0 <= k < after.len() && (#[trigger] after[k]).path == p;
            if k < entries.len() {
                assert(entries[k].path == p);
            }
        }
        if has_path(entries, p) {
            let k = choose|k: int| 0 <= k < entries.len() && (#[trigger] entries[k]).path == p;
            assert(after[k].path == p);
        }
        if p == e.path {
            assert(after[entries.len() as int].path == p);
        }
    }
    assert forall|p: Seq<char>| m1.contains_key(p) implies m1[p] == m2[p] by {
        let k = position_of(after, p);
        assert(0 <= k < after.len() && after[k].path == p);
        lemma_map_of_entry(after, k);
        if k < entries.len() {
            assert(entries[k] == after[k]);
            lemma_map_of_entry(entries, k);
        }
    }
    assert(m1 =~= m2);
}

/// Replacing access and metadata of the entry at a position updates the map
/// at its path.
pub proof fn lemma_map_of_update(entries: Seq<EntryView>, i: int, e: EntryView)
    requires
        paths_distinct(entries),
        0 <= i < entries.len(),
        e.path == entries[i].path,
    ensures
        paths_distinct(entries.update(i, e)),
        map_of(entries.update(i, e)) == map_of(entries).insert(e.path, (e.access, e.meta)),
{
    let after = entries.update(i, e);
    assert forall|a: int, b: int| 0 <= a < b < after.len() implies (#[trigger] after[a]).path != (
    #[trigger] after[b]).path by {
        assert(after[a].path == entries[a].path);
        assert(after[b].path == entries[b].path);
    }
    let m1 = map_of(after);
    let m2 = map_of(entries).insert(e.path, (e.access, e.meta));
    assert forall|p: Seq<char>| m1.contains_key(p) <==> m2.contains_key(p) by {
        if has_path(after, p) {
            let k = choose|k: int| 0 <= k < after.len() && (#[trigger] after[k]).path == p;
            assert(entries[k].path == p);
        }
        if has_path(entries, p) {
            let k = choose|k: int| 0 <= k < entries.len() && (#[trigger] entries[k]).path == p;
            assert(after[k].path == p);
        }
        if p == e.path {
            assert(after[i].path == p);
        }
    }
    assert forall|p: Seq<char>| m1.contains_key(p) implies m1[p] == m2[p] by {
        let k = position_of(after, p);
        assert(0 <= k < after.len() && after[k].path == p);
        lemma_map_of_entry(after, k);
        if k != i {
            assert(entries[k] == after[k]);
            lemma_map_of_entry(entries, k);
        }
    }
    assert(m1 =~= m2);
}

/// Taking out the entry at a position removes its path from the map.
pub proof fn lemma_map_of_remove(entries: Seq<EntryView>, i: int)
    requires
        paths_distinct(entries),
        0 <= i < entries.len(),
    ensures
        paths_distinct(entries.remove(i)),
        map_of(entries.remove(i)) == map_of(entries).remove(entries[i].path),
        !has_path(entries.remove(i), entries[i].path),
{
    let after = entries.remove(i);
    let gone = entries[i].path;
    assert forall|a: int| 0 <= a < after.len() implies #[trigger] after[a] == entries[if a < i {
        a
    } else {
        a + 1
    }] by {}
    assert forall|a: int, b: int| 0 <= a < b < after.len() implies (#[trigger] after[a]).path != (
    #[trigger] after[b]).path by {
        let a0 = if a < i { a } else { a + 1 };
        let b0 = if b < i { b } else { b + 1 };
        assert(after[a] == entries[a0] && after[b] == entries[b0]);
        assert(entries[a0].path != entries[b0].path);
    }
    if has_path(after, gone) {
        let k = choose|k: int| 0 <= k < after.len() && (#[trigger] after[k]).path == gone;
        let k0 = if k < i { k } else { k + 1 };
        assert(after[k] == entries[k0]);
        if k0 < i {
            assert(entries[k0].path != entries[i].path);
        } else {
            assert(entries[i].path != entries[k0].path);
        }
    }
    let m1 = map_of(after);
    let m2 = map_of(entries).remove(gone);
    assert forall|p: Seq<char>| m1.contains_key(p) <==> m2.contains_key(p) by {
        if has_path(after, p) {
            let k = choose|k: int| 0 <= k < after.len() && (#[trigger] after[k]).path == p;
            let k0 = if k < i { k } else { k + 1 };
            assert(after[k] == entries[k0]);
            assert(entries[k0].path == p);
        }
        if has_path(entries, p) && p != gone {
            let k = choose|k: int| 0 <= k < entries.len() && (#[trigger] entries[k]).path == p;
            let k1 = if k < i { k } else { k - 1 };
            assert(after[k1] == entries[k]);
            assert(after[k1].path == p);
        }
    }
    assert forall|p: Seq<char>| m1.contains_key(p) implies m1[p] == m2[p] by {
        let k = position_of(after, p);
        assert(0 <= k < after.len() && after[k].path == p);
        lemma_map_of_entry(after, k);
        let k0 = if k < i { k } else { k + 1 };
        assert(after[k] == entries[k0]);
        lemma_map_of_entry(entries, k0);
    }
    assert(m1 =~= m2);
}


/// The map after the file at `old_path` was renamed to `new_path` at `now`:
/// the file leaves its old path and stands at the new one with the same
/// access and with `now` as its time of modification.
pub open spec fn renamed(
    before: Map<Seq<char>, (Seq<u8>, Metadata)>,
    old_path: Seq<char>,
    new_path: Seq<char>,
    now: u64,
) -> Map<Seq<char>, (Seq<u8>, Metadata)> {
    before.remove(old_path).insert(
        new_path,
        (before[old_path].0, Metadata { modified: now, ..before[old_path].1 }),
    )
}

impl PrivateArchive {
    #[verifier::type_invariant]
    spec fn paths_occur_once(self) -> bool {
        paths_distinct(entry_views(self.entries@))
    }

    /// The files in the order in which the archive hands them out.
    pub closed spec fn listing(&self) -> Seq<EntryView> {
        entry_views(self.entries@)
    }

    /// The archive maps each path of its listing to that file's access and
    /// metadata.
    pub proof fn lemma_view_of_listing(&self)
        ensures
            self@ == map_of(self.listing()),
    {
    }

    /// Create a new empty local archive. This does not upload the archive to
    /// the network.
    pub fn new() -> (r: Self)
        ensures
            r@ == Map::<Seq<char>, (Seq<u8>, Metadata)>::empty(),
            r.listing().len() == 0,
    {
        let r = PrivateArchive { entries: Vec::new() };
        assert(r@ =~= Map::<Seq<char>, (Seq<u8>, Metadata)>::empty());
        r
    }

    /// The position of the file at `path`.
    fn position(&self, path: &String) -> (r: Option<usize>)
        ensures
            match r {
                Some(i) => i < self.entries@.len() && self.entries@[i as int].path@ == path@,
                None => !has_path(entry_views(self.entries@), path@),
            },
    {
        let mut i: usize = 0;
        while i < self.entries.len()
            invariant
                i <= self.entries.len(),
                forall|k: int| 0 <= k < i ==> (#[trigger] entry_views(self.entries@)[k]).path != path@,
            decreases self.entries.len() - i,
        {
            if self.entries[i].path == *path {
                return Some(i);
            }
            i = i + 1;
        }
        None
    }

    /// Whether the archive holds a file at `path`.
    pub fn contains(&self, path: &String) -> (r: bool)
        ensures
            r == self@.contains_key(path@),
    {
        let found = self.position(path);
        proof {
            if let Some(i) = found {
                assert(entry_views(self.entries@)[i as int].path == path@);
            }
        }
        found.is_some()
    }

    /// Add a file to a local archive; a file already at that path is
    /// replaced. This does not upload the archive to the network.
    pub fn add_file(&mut self, path: String, data_map: PrivateDataAccess, meta: Metadata)
        ensures
            final(self)@ == old(self)@.insert(path@, (data_map@, meta)),
    {
        proof {
            use_type_invariant(&*self);
        }
        let ghost before = entry_views(self.entries@);
        let ghost e = EntryView { path: path@, access: data_map@, meta };
        let found = self.position(&path);
        let mut entries: Vec<ArchiveEntry> = Vec::new();
        std::mem::swap(&mut self.entries, &mut entries);
        match found {
            Some(i) => {
                proof {
                    lemma_map_of_update(before, i as int, e);
                }
                entries[i].access = data_map;
                entries[i].meta = meta;
                assert(entry_views(entries@) =~= before.update(i as int, e));
            },
            None => {
                proof {
                    lemma_map_of_push(before, e);
                }
                entries.push(ArchiveEntry { path, access: data_map, meta });
                assert(entry_views(entries@) =~= before.push(e));
            },
        }
        std::mem::swap(&mut self.entries, &mut entries);
    }

    /// Rename a file in an archive, with `now` as its new time of
    /// modification. A file already at the new path is replaced. This does
    /// not upload the archive to the network.
    pub fn rename_file_at(&mut self, old_path: &String, new_path: &String, now: u64) -> (r: Result<
        (),
        RenameError,
    >)
        ensures
            match r {
                Ok(_) => {
                    &&& old(self)@.contains_key(old_path@)
                    &&& final(self)@ == renamed(old(self)@, old_path@, new_path@, now)
                },
                Err(e) => {
                    &&& !old(self)@.contains_key(old_path@)
                    &&& e == RenameError::FileNotFound(*old_path)
                    &&& final(self)@ == old(self)@
                },
            },
    {
        proof {
            use_type_invariant(&*self);
        }
        let ghost before = entry_views(self.entries@);
        match self.position(old_path) {
            Some(i) => {
                proof {
                    assert(before[i as int].path == old_path@);
                    lemma_map_of_entry(before, i as int);
                    lemma_map_of_remove(before, i as int);
                }
                let mut entries: Vec<ArchiveEntry> = Vec::new();
                std::mem::swap(&mut self.entries, &mut entries);
                let entry = entries.remove(i);
                assert(entry_views(entries@) =~= before.remove(i as int));
                std::mem::swap(&mut self.entries, &mut entries);
                let mut meta = entry.meta;
                meta.modified = now;
                self.add_file(new_path.clone(), entry.access, meta);
                Ok(())
            },
            None => Err(RenameError::FileNotFound(old_path.clone())),
        }
    }

    /// Rename a file in an archive; the current time becomes its time of
    /// modification. This does not upload the archive to the network.
    pub fn rename_file(&mut self, old_path: &String, new_path: &String) -> (r: Result<
        (),
        RenameError,
    >)
        ensures
            match r {
                Ok(_) => {
                    &&& old(self)@.contains_key(old_path@)
                    &&& exists|now: u64|
                        final(self)@ == #[trigger] renamed(old(self)@, old_path@, new_path@, now)
                },
                Err(e) => {
                    &&& !old(self)@.contains_key(old_path@)
                    &&& e == RenameError::FileNotFound(*old_path)
                    &&& final(self)@ == old(self)@
                },
            },
    {
        let now = unix_now();
        self.rename_file_at(old_path, new_path, now)
    }

    /// List all files in the archive: each path once, with its metadata.
    pub fn files(&self) -> (r: Vec<(String, Metadata)>)
        ensures
            paths_distinct(self.listing()),
            r@.len() == self.listing().len(),
            forall|i: int|
                0 <= i < r@.len() ==> (#[trigger] r@[i]).0@ == self.listing()[i].path && r@[i].1
                    == self.listing()[i].meta,
    {
        proof {
            use_type_invariant(self);
        }
        let mut r: Vec<(String, Metadata)> = Vec::new();
        let mut i: usize = 0;
        while i < self.entries.len()
            invariant
                i <= self.entries.len(),
                r@.len() == i,
                forall|k: int|
                    0 <= k < i ==> (#[trigger] r@[k]).0@ == self.entries@[k].path@ && r@[k].1
                        == self.entries@[k].meta,
            decreases self.entries.len() - i,
        {
            r.push((self.entries[i].path.clone(), self.entries[i].meta));
            i = i + 1;
        }
        r
    }

    /// List the data addresses of all files in the archive.
    pub fn addresses(&self) -> (r: Vec<PrivateDataAccess>)
        ensures
            r@.len() == self.listing().len(),
            forall|i: int| 0 <= i < r@.len() ==> (#[trigger] r@[i])@ == self.listing()[i].access,
    {
        let mut r: Vec<PrivateDataAccess> = Vec::new();
        let mut i: usize = 0;
        while i < self.entries.len()
            invariant
                i <= self.entries.len(),
                r@.len() == i,
                forall|k: int| 0 <= k < i ==> (#[trigger] r@[k])@ == self.entries@[k].access@,
            decreases self.entries.len() - i,
        {
            r.push(self.entries[i].access.copy());
            i = i + 1;
        }
        r
    }

    /// The archive's items: path, access and metadata of each file.
    pub fn iter(&self) -> (r: Vec<(String, PrivateDataAccess, Metadata)>)
        ensures
            paths_distinct(self.listing()),
            r@.len() == self.listing().len(),
            forall|i: int|
                0 <= i < r@.len() ==> {
                    &&& (#[trigger] r@[i]).0@ == self.listing()[i].path
                    &&& r@[i].1@ == self.listing()[i].access
                    &&& r@[i].2 == self.listing()[i].meta
                },
    {
        proof {
            use_type_invariant(self);
        }
        let mut r: Vec<(String, PrivateDataAccess, Metadata)> = Vec::new();
        let mut i: usize = 0;
        while i < self.entries.len()
            invariant
                i <= self.entries.len(),
                r@.len() == i,
                forall|k: int|
                    0 <= k < i ==> {
                        &&& (#[trigger] r@[k]).0@ == self.entries@[k].path@
                        &&& r@[k].1@ == self.entries@[k].access@
                        &&& r@[k].2 == self.entries@[k].meta
                    },
            decreases self.entries.len() - i,
        {
            r.push(
                (self.entries[i].path.clone(), self.entries[i].access.copy(), self.entries[i].meta),
            );
            i = i + 1;
        }
        r
    }

    /// The underlying entries.
    pub fn map(&self) -> (r: &Vec<ArchiveEntry>)
        ensures
            entry_views(r@) == self.listing(),
            paths_distinct(self.listing()),
    {
        proof {
            use_type_invariant(self);
        }
        &self.entries
    }
}


impl Clone for PrivateArchive {
    /// A copy of the archive, with the same files in the same order.
    fn clone(&self) -> (r: Self)
        ensures
            r@ == self@,
            r.listing() == self.listing(),
    {
        proof {
            use_type_invariant(self);
        }
        let mut entries: Vec<ArchiveEntry> = Vec::new();
        let mut i: usize = 0;
        while i < self.entries.len()
            invariant
                i <= self.entries.len(),
                entries@.len() == i,
                forall|k: int| 0 <= k < i ==> (#[trigger] entries@[k])@ == self.entries@[k]@,
            decreases self.entries.len() - i,
        {
            entries.push(
                ArchiveEntry {
                    path: self.entries[i].path.clone(),
                    access: self.entries[i].access.copy(),
                    meta: self.entries[i].meta,
                },
            );
            i = i + 1;
        }
        assert(entry_views(entries@) =~= entry_views(self.entries@));
        PrivateArchive { entries }
    }
}

impl Default for PrivateArchive {
    /// The empty archive.
    fn default() -> (r: Self)
        ensures
            r@ == Map::<Seq<char>, (Seq<u8>, Metadata)>::empty(),
            r.listing().len() == 0,
    {
        PrivateArchive::new()
    }
}

} // verus!
