//! The version store: which versions are installed under which base
//! directory, and what their metadata files hold.

use vstd::prelude::*;
use crate::version::{record_view, VersionMetadata, VersionMetadataView};

verus! {

/// The name under which a store holds a version: the base directory and the
/// version identifier.
pub struct VersionKey {
    pub base_dir: Seq<char>,
    pub version_id: Seq<char>,
}

/// The name made of a base directory and a version identifier.
pub open spec fn version_key(base_dir: Seq<char>, version_id: Seq<char>) -> VersionKey {
    VersionKey { base_dir, version_id }
}

/// What a store holds, as a map from names to records. A record of `None`
/// stands for a version that is installed but whose metadata cannot be read.
pub type StoreContents = Map<VersionKey, Option<VersionMetadataView>>;

/// The metadata that `contents` yields for `key`: `Some` exactly when the
/// version is installed and its metadata is readable.
pub open spec fn readable_metadata(contents: StoreContents, key: VersionKey) -> Option<
    VersionMetadataView,
> {
    if contents.contains_key(key) {
        contents[key]
    } else {
        None
    }
}

#[derive(Debug)]
struct StoreEntry {
    base_dir: String,
    version_id: String,
    record: Option<VersionMetadata>,
}

impl StoreEntry {
    spec fn key(self) -> VersionKey {
        version_key(self.base_dir@, self.version_id@)
    }
}

/// A snapshot of a version store. No name occurs twice in it.
#[derive(Debug)]
pub struct VersionStore {
    entries: Vec<StoreEntry>,
}

impl VersionStore {
    spec fn holds(self, key: VersionKey) -> bool {
        exists|i: int| 0 <= i < self.entries.len() && #[trigger] self.entries[i].key() == key
    }

    spec fn index_of(self, key: VersionKey) -> int {
        choose|i: int| 0 <= i < self.entries.len() && #[trigger] self.entries[i].key() == key
    }

    #[verifier::type_invariant]
    spec fn names_are_distinct(self) -> bool {
        forall|i: int, j: int|
            0 <= i < j < self.entries.len() ==> #[trigger] self.entries[i].key()
                != #[trigger] self.entries[j].key()
    }
}

impl View for VersionStore {
    type V = StoreContents;

    closed spec fn view(&self) -> StoreContents {
        Map::new(
            |key: VersionKey| self.holds(key),
            |key: VersionKey| record_view(self.entries[self.index_of(key)].record),
        )
    }
}

impl VersionStore {
    /// A store in which nothing is installed.
    pub fn new() -> (store: Self)
        ensures
            store@ == Map::<VersionKey, Option<VersionMetadataView>>::empty(),
    {
        let store = VersionStore { entries: Vec::new() };
        store
    }

    fn position(&self, base_dir: &String, version_id: &String) -> (found: Option<usize>)
        ensures
            match found {
                Some(i) => i < self.entries.len() && self.entries[i as int].key() == version_key(
                    base_dir@,
                    version_id@,
                ),
                None => !self.holds(version_key(base_dir@, version_id@)),
            },
    {
        let mut i: usize = 0;
        while i < self.entries.len()
            invariant
                i <= self.entries.len(),
                forall|j: int|
                    0 <= j < i ==> #[trigger] self.entries[j].key() != version_key(
                        base_dir@,
                        version_id@,
                    ),
            decreases self.entries.len() - i,
        {
            if self.entries[i].base_dir == *base_dir && self.entries[i].version_id == *version_id {
                return Some(i);
            }
            i += 1;
        }
        None
    }

    /// Looks a version up: its metadata, where the version is installed and
    /// the metadata is readable.
    pub fn lookup(&self, base_dir: &str, version_id: &str) -> (found: Option<&VersionMetadata>)
        ensures
            match found {
                Some(metadata) => readable_metadata(self@, version_key(base_dir@, version_id@))
                    == Some(metadata@),
                None => readable_metadata(self@, version_key(base_dir@, version_id@)) is None,
            },
    {
        proof {
            use_type_invariant(self);
        }
        let base_dir = base_dir.to_owned();
        let version_id = version_id.to_owned();
        match self.position(&base_dir, &version_id) {
            Some(i) => {
                self.entries[i].record.as_ref()
            },
            None => None,
        }
    }

    /// Whether the store has a version under this name, readable or not.
    pub fn contains(&self, base_dir: &str, version_id: &str) -> (present: bool)
        ensures
            present == self@.contains_key(version_key(base_dir@, version_id@)),
    {
        let base_dir = base_dir.to_owned();
        let version_id = version_id.to_owned();
        self.position(&base_dir, &version_id).is_some()
    }

    /// Records a version under its name, in place of what the store held
    /// under that name. A `record` of `None` marks the metadata as unreadable.
    pub fn insert(&mut self, base_dir: String, version_id: String, record: Option<VersionMetadata>)
        ensures
            final(self)@ == old(self)@.insert(
                version_key(base_dir@, version_id@),
                record_view(record),
            ),
    {
        proof {
            use_type_invariant(&*self);
        }
        let ghost key = version_key(base_dir@, version_id@);
        let ghost stored = record_view(record);
        let found = self.position(&base_dir, &version_id);
        let entry = StoreEntry { base_dir, version_id, record };
        let mut entries = Vec::new();
        std::mem::swap(&mut entries, &mut self.entries);
        let ghost before = entries@;
        match found {
            Some(i) => {
                entries.set(i, entry);
                assert forall|j: int| 0 <= j < entries.len() implies #[trigger] entries[j].key()
                    == before[j].key() by {}
            },
            None => {
                entries.push(entry);
            },
        }
        self.entries = entries;
        proof {
            let old_store = *old(self);
            let new_store = *self;
            // The names are those that were there, and the new one.
            assert forall|k: VersionKey| new_store.holds(k) <==> (k == key || old_store.holds(
                k,
            )) by {
                if old_store.holds(k) {
                    assert(new_store.entries[old_store.index_of(k)].key() == k);
                }
                if k == key && found is None {
                    assert(new_store.entries[before.len() as int].key() == k);
                }
            }
            // Every other name keeps its record.
            assert forall|k: VersionKey| new_store.holds(k) && k != key implies new_store@[k]
                == old_store@[k] by {
                assert(new_store.entries[old_store.index_of(k)].key() == k);
            }
        }
    }

    /// The identifiers of the versions installed under `base_dir`, each once.
    pub fn version_ids(&self, base_dir: &str) -> (ids: Vec<String>)
        ensures
            ids.deep_view().no_duplicates(),
            forall|id: Seq<char>|
                ids.deep_view().contains(id) <==> self@.contains_key(version_key(base_dir@, id)),
    {
        proof {
            use_type_invariant(self);
        }
        let base_dir = base_dir.to_owned();
        let mut ids: Vec<String> = Vec::new();
        // origin[k] is the place in the store of the k-th identifier found.
        let ghost mut origin: Seq<int> = Seq::empty();
        let mut i: usize = 0;
        while i < self.entries.len()
            invariant
                i <= self.entries.len(),
                origin.len() == ids.len(),
                forall|k: int|
                    0 <= k < origin.len() ==> 0 <= #[trigger] origin[k] < i
                        && self.entries[origin[k]].key() == version_key(base_dir@, ids[k]@),
                forall|k: int, l: int| 0 <= k < l < origin.len() ==> origin[k] < origin[l],
                forall|j: int|
                    0 <= j < i && (#[trigger] self.entries[j].key()).base_dir == base_dir@
                        ==> origin.contains(j),
            decreases self.entries.len() - i,
        {
            if self.entries[i].base_dir == base_dir {
                ids.push(self.entries[i].version_id.clone());
                proof {
                    let ghost earlier = origin;
                    origin = origin.push(i as int);
                    assert forall|j: int|
                        0 <= j < i + 1 && (#[trigger] self.entries[j].key()).base_dir
                            == base_dir@ implies origin.contains(j) by {
                        if j < i {
                            let k = choose|k: int| 0 <= k < earlier.len() && earlier[k] == j;
                            assert(origin[k] == j);
                        } else {
                            assert(origin[earlier.len() as int] == j);
                        }
                    }
                }
            }
            i += 1;
        }
        proof {
            let names = ids.deep_view();
            assert forall|k: int, l: int| 0 <= k < l < names.len() implies names[k]
                != names[l] by {
                assert(self.entries[origin[k]].key() != self.entries[origin[l]].key());
            }
            assert forall|id: Seq<char>|
                names.contains(id) <==> self@.contains_key(version_key(base_dir@, id)) by {
                let key = version_key(base_dir@, id);
                if names.contains(id) {
                    let k = choose|k: int| 0 <= k < names.len() && names[k] == id;
                    assert(self.entries[origin[k]].key() == key);
                }
                if self.holds(key) {
                    let j = self.index_of(key);
                    let k = choose|k: int| 0 <= k < origin.len() && origin[k] == j;
                    assert(names[k] == id);
                }
            }
        }
        ids
    }
}

} // verus!
