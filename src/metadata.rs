//! Store-level and entry-level metadata records.
use vstd::prelude::*;

verus! {

/// The store layout version this library reads and writes.
pub const STORE_VERSION: u32 = 1;

/// A client version, `major.minor.patch`, with optional pre-release and build
/// text (empty when absent).
#[derive(Clone, Debug)]
pub struct ClientVersion {
    pub major: u64,
    pub minor: u64,
    pub patch: u64,
    pub pre: String,
    pub build: String,
}

/// The oldest client version that understands a store at `STORE_VERSION`: 0.1.0.
pub open spec fn is_min_client_version(v: ClientVersion) -> bool {
    &&& v.major == 0
    &&& v.minor == 1
    &&& v.patch == 0
    &&& v.pre@.len() == 0
    &&& v.build@.len() == 0
}

impl ClientVersion {
    /// The oldest client version that understands a store at `STORE_VERSION`.
    pub fn min_supported() -> (r: ClientVersion)
        ensures
            is_min_client_version(r),
    {
        ClientVersion { major: 0, minor: 1, patch: 0, pre: String::new(), build: String::new() }
    }
}

/// Errors in the store's decisions.
#[derive(Clone, Debug)]
pub enum StoreError {
    /// The store was written by a newer layout version than this library
    /// supports; `min_version` is the client version it asks for.
    VersionMismatch { store_dir: String, supported: u32, found: u32, min_version: ClientVersion },
}

/// The metadata of the whole store.
#[derive(Clone, Debug)]
pub struct TargoStoreMetadata {
    pub store_version: u32,
    pub min_version: ClientVersion,
}

/// The metadata is what a fresh store at the current version holds.
pub open spec fn is_current(m: TargoStoreMetadata) -> bool {
    m.store_version == STORE_VERSION && is_min_client_version(m.min_version)
}

/// What opening a store does with the store version it finds (`None`: no
/// metadata yet).
pub enum MetadataAction {
    /// Leave the metadata as it is.
    Keep,
    /// Write metadata at this version.
    Write(u32),
    /// Refuse the store and write nothing.
    Reject,
}

/// Fresh metadata for a store without any, current metadata in place of
/// older metadata, a refusal of newer metadata.
pub open spec fn metadata_action(found: Option<u32>) -> MetadataAction {
    match found {
        None => MetadataAction::Write(STORE_VERSION),
        Some(v) => if v < STORE_VERSION {
            MetadataAction::Write(STORE_VERSION)
        } else if v > STORE_VERSION {
            MetadataAction::Reject
        } else {
            MetadataAction::Keep
        },
    }
}

impl TargoStoreMetadata {
    /// The file name of the store metadata inside the store root.
    pub const METADATA_FILE_NAME: &'static str = "targo-metadata.json";

    /// Metadata for a fresh store.
    pub fn new() -> (r: Self)
        ensures
            is_current(r),
    {
        TargoStoreMetadata { store_version: STORE_VERSION, min_version: ClientVersion::min_supported() }
    }

    /// The metadata to write in place of `self`, when `self` is older than
    /// the current version.
    pub fn upgrade_if_necessary(&self) -> (r: Option<Self>)
        ensures
            r is Some <==> self.store_version < STORE_VERSION,
            r matches Some(m) ==> is_current(m),
    {
        if self.store_version < STORE_VERSION {
            Some(Self::new())
        } else {
            None
        }
    }

    /// Refuses metadata written by a newer layout version than this library
    /// supports.
    pub fn verify(self, store_dir: &str) -> (r: Result<Self, StoreError>)
        ensures
            r is Ok <==> self.store_version <= STORE_VERSION,
            r matches Ok(m) ==> m == self,
            r matches Err(StoreError::VersionMismatch { store_dir: d, supported, found, min_version }) ==> {
                &&& d@ == store_dir@
                &&& supported == STORE_VERSION
                &&& found == self.store_version
                &&& min_version == self.min_version
            },
    {
        if self.store_version > STORE_VERSION {
            Err(StoreError::VersionMismatch {
                store_dir: store_dir.to_owned(),
                supported: STORE_VERSION,
                found: self.store_version,
                min_version: self.min_version,
            })
        } else {
            Ok(self)
        }
    }
}

/// Decides what opening a store writes, given the metadata found in it:
/// fresh metadata for a store without any, current metadata in place of older
/// metadata, nothing for current metadata, and an error for newer metadata.
pub fn store_metadata_to_write(existing: Option<TargoStoreMetadata>, store_dir: &str) -> (r: Result<
    Option<TargoStoreMetadata>,
    StoreError,
>)
    ensures
        ({
            let found = match existing {
                Some(m) => Some(m.store_version),
                None => None,
            };
            match metadata_action(found) {
                MetadataAction::Keep => r == Ok::<Option<TargoStoreMetadata>, StoreError>(None),
                MetadataAction::Write(v) => r matches Ok(Some(m)) && is_current(m) && v == m.store_version,
                MetadataAction::Reject => r is Err,
            }
        }),
        r matches Err(StoreError::VersionMismatch { store_dir: d, supported, found, min_version }) ==> {
            &&& existing matches Some(m) && found == m.store_version && min_version == m.min_version
            &&& d@ == store_dir@
            &&& supported == STORE_VERSION
        },
{
    match existing {
        None => Ok(Some(TargoStoreMetadata::new())),
        Some(m) => {
            let m = m.verify(store_dir)?;
            Ok(m.upgrade_if_necessary())
        },
    }
}

/// The store version never goes down: metadata below the current version is
/// rewritten at the current version, metadata above it is refused and left
/// untouched, and whatever is written is at least the version found.
pub proof fn store_version_is_monotonic(found: u32)
    ensures
        found < STORE_VERSION ==> metadata_action(Some(found)) == MetadataAction::Write(STORE_VERSION),
        found > STORE_VERSION ==> metadata_action(Some(found)) == MetadataAction::Reject,
        metadata_action(Some(found)) matches MetadataAction::Write(v) ==> v >= found,
{
}

} // verus!

verus! {

/// A point in time: seconds and nanoseconds since the Unix epoch, with the
/// local offset from UTC in seconds that was in force.
#[derive(Clone, Copy, Debug, PartialEq, Eq)]
pub struct Timestamp {
    pub secs: i64,
    pub nanos: u32,
    pub offset_secs: i32,
}

/// `s` has `link` appended unless it already holds it.
pub open spec fn with_backlink(s: Seq<Seq<char>>, link: Seq<char>) -> Seq<Seq<char>> {
    if s.contains(link) {
        s
    } else {
        s.push(link)
    }
}

/// The links of `s`, each once, in the order of their first occurrence.
pub open spec fn first_occurrences(s: Seq<Seq<char>>) -> Seq<Seq<char>>
    decreases s.len(),
{
    if s.len() == 0 {
        s
    } else {
        with_backlink(first_occurrences(s.drop_last()), s.last())
    }
}

/// The metadata of one store entry: every workspace output path that points,
/// or once pointed, at the entry, and when the entry was last used.
#[derive(Clone, Debug)]
pub struct TargetDirMetadata {
    backlinks: Vec<String>,
    last_used: Timestamp,
}

impl TargetDirMetadata {
    /// The file name of the entry metadata inside an entry directory.
    pub const METADATA_FILE_NAME: &'static str = "target-dir-metadata.json";

    /// The backlinks as text, in the order they were recorded.
    pub closed spec fn links(&self) -> Seq<Seq<char>> {
        self.backlinks@.map_values(|s: String| s@)
    }

    /// The set of backlinks.
    pub open spec fn link_set(&self) -> Set<Seq<char>> {
        self.links().to_set()
    }

    /// When the entry was last used.
    pub closed spec fn spec_last_used(&self) -> Timestamp {
        self.last_used
    }

    /// No backlink is recorded twice.
    pub open spec fn wf(&self) -> bool {
        self.links().no_duplicates()
    }

    /// An entry with no backlinks, last used at `now`.
    pub fn new(now: Timestamp) -> (r: Self)
        ensures
            r.wf(),
            r.links().len() == 0,
            r.spec_last_used() == now,
    {
        let r = TargetDirMetadata { backlinks: Vec::new(), last_used: now };
        assert(r.links() =~= Seq::<Seq<char>>::empty());
        r
    }

    /// An entry with the given backlinks, each kept once, in the order of
    /// their first occurrence.
    pub fn from_parts(backlinks: Vec<String>, last_used: Timestamp) -> (r: Self)
        ensures
            r.wf(),
            r.links() == first_occurrences(backlinks@.map_values(|s: String| s@)),
            r.link_set() == backlinks@.map_values(|s: String| s@).to_set(),
            r.spec_last_used() == last_used,
    {
        let mut r = TargetDirMetadata { backlinks: Vec::new(), last_used };
        assert(r.links() =~= Seq::<Seq<char>>::empty());
        let ghost given = backlinks@.map_values(|s: String| s@);
        let mut i: usize = 0;
        while i < backlinks.len()
            invariant
                i <= backlinks.len(),
                given == backlinks@.map_values(|s: String| s@),
                r.wf(),
                r.last_used == last_used,
                r.link_set() == given.subrange(0, i as int).to_set(),
                r.links() == first_occurrences(given.subrange(0, i as int)),
            decreases backlinks.len() - i,
        {
            let link = backlinks[i].clone();
            r.insert_backlink(link);
            assert(given.subrange(0, i + 1) =~= given.subrange(0, i as int).push(given[i as int]));
            assert(given.subrange(0, i + 1).drop_last() =~= given.subrange(0, i as int));
            proof {
                lemma_push_to_set(given.subrange(0, i as int), given[i as int]);
            }
            i = i + 1;
        }
        assert(given.subrange(0, i as int) =~= given);
        r
    }

    /// The backlinks, in the order they were recorded.
    pub fn backlinks(&self) -> (r: &Vec<String>)
        ensures
            r@.map_values(|s: String| s@) == self.links(),
    {
        &self.backlinks
    }

    /// When the entry was last used.
    pub fn last_used(&self) -> (r: Timestamp)
        ensures
            r == self.spec_last_used(),
    {
        self.last_used
    }

    /// Records `link` as a backlink; a link already recorded stays once.
    /// Returns whether it was new.
    pub fn insert_backlink(&mut self, link: String) -> (r: bool)
        requires
            old(self).wf(),
        ensures
            final(self).wf(),
            final(self).links() == with_backlink(old(self).links(), link@),
            final(self).link_set() == old(self).link_set().insert(link@),
            r == !old(self).links().contains(link@),
            final(self).spec_last_used() == old(self).spec_last_used(),
    {
        let ghost before = self.links();
        let mut i: usize = 0;
        while i < self.backlinks.len()
            invariant
                i <= self.backlinks.len(),
                self.links() == before,
                before == old(self).links(),
                *self == *old(self),
                self.wf(),
                forall|j: int| 0 <= j < i ==> before[j] != link@,
            decreases self.backlinks.len() - i,
        {
            if self.backlinks[i] == link {
                assert(before[i as int] == link@);
                return false;
            }
            i = i + 1;
        }
        assert(!before.contains(link@));
        self.backlinks.push(link);
        proof {
            assert(self.links() =~= before.push(link@));
            lemma_push_to_set(before, link@);
        }
        true
    }

    /// Marks the entry as last used at `now`.
    pub fn update_last_used(&mut self, now: Timestamp)
        ensures
            final(self).links() == old(self).links(),
            final(self).spec_last_used() == now,
    {
        self.last_used = now;
    }

    /// What one redirection does to the entry it goes through: records the
    /// workspace output path and sets the time of last use to `now`.
    pub fn record_use(&mut self, source_link: String, now: Timestamp)
        requires
            old(self).wf(),
        ensures
            final(self).wf(),
            final(self).links() == with_backlink(old(self).links(), source_link@),
            final(self).link_set() == old(self).link_set().insert(source_link@),
            final(self).spec_last_used() == now,
    {
        self.insert_backlink(source_link);
        self.update_last_used(now);
    }
}

proof fn lemma_push_to_set(s: Seq<Seq<char>>, x: Seq<char>)
    ensures
        s.push(x).to_set() == s.to_set().insert(x),
{
    assert forall|a: Seq<char>| s.push(x).contains(a) <==> s.contains(a) || a == x by {
        if s.push(x).contains(a) {
            let k = choose|k: int| 0 <= k < s.push(x).len() && s.push(x)[k] == a;
            if k < s.len() {
                assert(s[k] == a);
            }
        }
        if s.contains(a) {
            let k = choose|k: int| 0 <= k < s.len() && s[k] == a;
            assert(s.push(x)[k] == a);
        }
        if a == x {
            assert(s.push(x)[s.len() as int] == a);
        }
    }
    assert forall|a: Seq<char>| #[trigger] s.push(x).to_set().contains(a) <==> s.to_set().insert(x).contains(a) by {
        assert(s.push(x).contains(a) <==> s.contains(a) || a == x);
    }
    assert(s.push(x).to_set() =~= s.to_set().insert(x));
}

/// Recording a link a second time changes nothing: the backlinks after two
/// recordings are those after one, and hold the link exactly once.
pub proof fn backlink_recorded_once(links: Seq<Seq<char>>, link: Seq<char>)
    requires
        links.no_duplicates(),
    ensures
        with_backlink(with_backlink(links, link), link) == with_backlink(links, link),
        with_backlink(links, link).no_duplicates(),
        with_backlink(links, link).contains(link),
        forall|i: int, j: int|
            0 <= i < with_backlink(links, link).len() && 0 <= j < with_backlink(links, link).len()
                && with_backlink(links, link)[i] == link && with_backlink(links, link)[j] == link
                ==> i == j,
{
    let once = with_backlink(links, link);
    if !links.contains(link) {
        assert(once.last() == link);
    }
    assert(once.contains(link));
    assert(once.no_duplicates());
}

} // verus!
