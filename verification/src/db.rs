//! The entry store: a mapping from keys to value bytes.
//!
//! [`Db`] is the mapping itself, with the exact effect of every operation.
//! [`KVStore`] shares one `Db` among its handles behind a reader/writer lock.

use crate::lock::{guarded, guarded_mut, new_lock, read_lock, share_lock, write_lock};
use crate::payload::payload_bytes;
use crate::text::starts_with;
use bytes::Bytes;
use parking_lot::lock_api::RwLock;
use parking_lot::RawRwLock;
use std::sync::Arc;
use vstd::hash_map::StringHashMap;
use vstd::prelude::*;

verus! {

/// The bytes of an optional value.
pub open spec fn payload_of(value: Option<Bytes>) -> Option<Seq<u8>> {
    match value {
        Some(payload) => Some(payload_bytes(payload)),
        None => None,
    }
}

/// The texts of a list of keys, in its order.
pub open spec fn key_texts(keys: Seq<String>) -> Seq<Seq<char>> {
    keys.map_values(|key: String| key@)
}

/// The keys of `store` that start with `prefix`.
pub open spec fn keys_under(store: Map<Seq<char>, Seq<u8>>, prefix: Seq<char>) -> Set<Seq<char>> {
    Set::new(|key: Seq<char>| store.contains_key(key) && prefix.is_prefix_of(key))
}

/// A stored value and the place of its key in the key list.
struct Entry {
    value: Bytes,
    slot: usize,
}

/// What the entries hold: each key with the bytes of its value.
spec fn contents(data: Map<Seq<char>, Entry>) -> Map<Seq<char>, Seq<u8>> {
    Map::new(|key: Seq<char>| data.contains_key(key), |key: Seq<char>| payload_bytes(data[key].value))
}

/// The key list and the entries name each other: entry `k` records the slot
/// at which the list holds `k`, and the key in each slot has an entry.
spec fn linked(data: Map<Seq<char>, Entry>, keys: Seq<String>) -> bool {
    &&& forall|slot: int|
        0 <= slot < keys.len() ==> data.contains_key(#[trigger] keys[slot]@) && data[keys[slot]@].slot
            == slot
    &&& forall|key: Seq<char>| #[trigger]
        data.contains_key(key) ==> data[key].slot < keys.len() && keys[data[key].slot as int]@ == key
}

/// Takes the key in `slot`, and its entry, out of the list and the entries.
/// The last key of the list moves into the freed slot.
fn detach(data: &mut StringHashMap<Entry>, keys: &mut Vec<String>, slot: usize) -> (key: String)
    requires
        linked(old(data)@, old(keys)@),
        slot < old(keys).len(),
    ensures
        key@ == old(keys)[slot as int]@,
        linked(final(data)@, final(keys)@),
        contents(final(data)@) == contents(old(data)@).remove(key@),
        final(keys).len() + 1 == old(keys).len(),
        forall|i: int| 0 <= i < slot ==> final(keys)[i] == old(keys)[i],
{
    let key = keys.swap_remove(slot);
    data.remove(key.as_str());
    if slot < keys.len() {
        let moved = keys[slot].clone();
        let value = match data.get(moved.as_str()) {
            Some(entry) => entry.value.clone(),
            None => unreached(),
        };
        data.insert(moved, Entry { value, slot });
    }
    key
}

/// The mapping from keys to values. No key occurs twice; the order of the
/// keys carries no meaning.
pub struct Db {
    data: StringHashMap<Entry>,
    keys: Vec<String>,
}

impl View for Db {
    type V = Map<Seq<char>, Seq<u8>>;

    closed spec fn view(&self) -> Map<Seq<char>, Seq<u8>> {
        contents(self.data@)
    }
}

impl Db {
    #[verifier::type_invariant]
    spec fn well_formed(&self) -> bool {
        linked(self.data@, self.keys@)
    }

    /// An empty store.
    pub fn new() -> (db: Db)
        ensures
            db@ == Map::<Seq<char>, Seq<u8>>::empty(),
    {
        let db = Db { data: StringHashMap::new(), keys: Vec::new() };
        db
    }

    /// The value stored under `key`, if there is one.
    pub fn get(&self, key: &str) -> (value: Option<Bytes>)
        ensures
            payload_of(value) == self@.get(key@),
    {
        match self.data.get(key) {
            Some(entry) => Some(entry.value.clone()),
            None => None,
        }
    }

    /// Stores `value` under `key` and returns the value that it replaces, if
    /// the key was present.
    pub fn insert(&mut self, key: &str, value: Bytes) -> (previous: Option<Bytes>)
        ensures
            final(self)@ == old(self)@.insert(key@, payload_bytes(value)),
            payload_of(previous) == old(self)@.get(key@),
    {
        proof {
            use_type_invariant(&*self);
        }
        let mut taken = Db::new();
        std::mem::swap(self, &mut taken);
        let Db { mut data, mut keys } = taken;
        let previous = match data.get(key) {
            Some(entry) => {
                let slot = entry.slot;
                let previous = entry.value.clone();
                data.insert(key.to_owned(), Entry { value, slot });
                Some(previous)
            },
            None => {
                let slot = keys.len();
                keys.push(key.to_owned());
                data.insert(key.to_owned(), Entry { value, slot });
                None
            },
        };
        *self = Db { data, keys };
        previous
    }

    /// Deletes `key` and returns the value that was stored under it, if the
    /// key was present.
    pub fn remove(&mut self, key: &str) -> (removed: Option<Bytes>)
        ensures
            final(self)@ == old(self)@.remove(key@),
            payload_of(removed) == old(self)@.get(key@),
    {
        proof {
            use_type_invariant(&*self);
        }
        let mut taken = Db::new();
        std::mem::swap(self, &mut taken);
        let Db { mut data, mut keys } = taken;
        let found = match data.get(key) {
            Some(entry) => Some((entry.slot, entry.value.clone())),
            None => None,
        };
        let removed = match found {
            Some((slot, value)) => {
                let _ = detach(&mut data, &mut keys, slot);
                Some(value)
            },
            None => None,
        };
        *self = Db { data, keys };
        removed
    }

    /// Deletes every key that starts with `prefix` and returns the deleted
    /// keys, each once, in no particular order. Every other entry stays as
    /// it was.
    pub fn remove_with_prefix(&mut self, prefix: &str) -> (removed: Vec<String>)
        ensures
            final(self)@ == old(self)@.remove_keys(keys_under(old(self)@, prefix@)),
            key_texts(removed@).to_set() == keys_under(old(self)@, prefix@),
            key_texts(removed@).no_duplicates(),
    {
        proof {
            use_type_invariant(&*self);
        }
        let mut taken = Db::new();
        std::mem::swap(self, &mut taken);
        let Db { mut data, mut keys } = taken;
        let ghost before = contents(data@);
        let mut removed: Vec<String> = Vec::new();
        let mut slot: usize = 0;
        while slot < keys.len()
            invariant
                linked(data@, keys@),
                slot <= keys.len(),
                forall|i: int| 0 <= i < slot ==> !prefix@.is_prefix_of(#[trigger] keys[i]@),
                forall|i: int|
                    0 <= i < removed.len() ==> before.contains_key(#[trigger] removed[i]@)
                        && prefix@.is_prefix_of(removed[i]@) && !data@.contains_key(removed[i]@),
                forall|i: int, j: int|
                    0 <= i < j < removed.len() ==> #[trigger] removed[i]@ != #[trigger] removed[j]@,
                forall|key: Seq<char>|
                    before.contains_key(key) ==> #[trigger] data@.contains_key(key) || exists|i: int|
                        0 <= i < removed.len() && #[trigger] removed[i]@ == key,
                forall|key: Seq<char>| #[trigger]
                    data@.contains_key(key) ==> before.contains_key(key) && before[key]
                        == contents(data@)[key],
            decreases keys.len() - slot,
        {
            if starts_with(keys[slot].as_str(), prefix) {
                let ghost data_before = data@;
                let ghost removed_before = removed@;
                let key = detach(&mut data, &mut keys, slot);
                let ghost gone = key@;
                removed.push(key);
                proof {
                    assert forall|other: Seq<char>|
                        data@.contains_key(other) <==> data_before.contains_key(other) && other
                            != gone by {
                        assert(contents(data@).contains_key(other) <==> data@.contains_key(other));
                        assert(contents(data_before).contains_key(other)
                            <==> data_before.contains_key(other));
                    }
                    assert forall|other: Seq<char>| #[trigger]
                        data@.contains_key(other) implies before.contains_key(other)
                        && before[other] == contents(data@)[other] by {
                        assert(contents(data@)[other] == contents(data_before)[other]);
                    }
                    assert forall|other: Seq<char>| before.contains_key(other) implies #[trigger]
                        data@.contains_key(other) || exists|i: int|
                        0 <= i < removed.len() && #[trigger] removed[i]@ == other by {
                        if !data@.contains_key(other) {
                            if data_before.contains_key(other) {
                                assert(removed[removed.len() - 1]@ == other);
                            } else {
                                let i = choose|i: int|
                                    0 <= i < removed_before.len() && #[trigger] removed_before[i]@
                                        == other;
                                assert(removed[i]@ == other);
                            }
                        }
                    }
                }
            } else {
                slot = slot + 1;
            }
        }
        proof {
            let texts = key_texts(removed@);
            let under = keys_under(before, prefix@);
            assert forall|key: Seq<char>| texts.to_set().contains(key) <==> under.contains(key) by {
                if under.contains(key) && !data@.contains_key(key) {
                    let i = choose|i: int| 0 <= i < removed.len() && #[trigger] removed[i]@ == key;
                    assert(texts[i] == key);
                }
            }
        }
        *self = Db { data, keys };
        removed
    }

    /// Deletes every key.
    pub fn remove_all(&mut self)
        ensures
            final(self)@ == Map::<Seq<char>, Seq<u8>>::empty(),
    {
        let mut taken = Db::new();
        std::mem::swap(self, &mut taken);
        let Db { mut data, mut keys } = taken;
        data.clear();
        keys.clear();
        *self = Db { data, keys };
    }

    /// The keys of the store, each once, in no particular order.
    pub fn list_keys(&self) -> (listed: Vec<String>)
        ensures
            key_texts(listed@).to_set() == self@.dom(),
            key_texts(listed@).no_duplicates(),
    {
        proof {
            use_type_invariant(self);
        }
        let mut listed: Vec<String> = Vec::new();
        let mut slot: usize = 0;
        while slot < self.keys.len()
            invariant
                linked(self.data@, self.keys@),
                slot <= self.keys.len(),
                listed.len() == slot,
                forall|i: int| 0 <= i < slot ==> #[trigger] listed[i]@ == self.keys[i]@,
            decreases self.keys.len() - slot,
        {
            listed.push(self.keys[slot].clone());
            slot = slot + 1;
        }
        proof {
            let texts = key_texts(listed@);
            assert forall|key: Seq<char>| texts.to_set().contains(key) <==> self@.dom().contains(
                key,
            ) by {
                if self@.dom().contains(key) {
                    let at = self.data@[key].slot as int;
                    assert(texts[at] == key);
                }
            }
        }
        listed
    }

    /// The keys of the store that start with `prefix`, each once, in no
    /// particular order.
    pub fn list_keys_with_prefix(&self, prefix: &str) -> (listed: Vec<String>)
        ensures
            key_texts(listed@).to_set() == keys_under(self@, prefix@),
            key_texts(listed@).no_duplicates(),
    {
        proof {
            use_type_invariant(self);
        }
        let mut listed: Vec<String> = Vec::new();
        let ghost mut origin: Seq<int> = Seq::empty();
        let mut slot: usize = 0;
        while slot < self.keys.len()
            invariant
                linked(self.data@, self.keys@),
                slot <= self.keys.len(),
                origin.len() == listed.len(),
                forall|i: int|
                    0 <= i < listed.len() ==> 0 <= #[trigger] origin[i] < slot && listed[i]@
                        == self.keys[origin[i]]@ && prefix@.is_prefix_of(listed[i]@),
                forall|i: int, j: int| 0 <= i < j < listed.len() ==> origin[i] < origin[j],
                forall|at: int|
                    0 <= at < slot && prefix@.is_prefix_of(#[trigger] self.keys[at]@) ==> exists|
                        i: int,
                    | 0 <= i < listed.len() && #[trigger] origin[i] == at,
            decreases self.keys.len() - slot,
        {
            if starts_with(self.keys[slot].as_str(), prefix) {
                let ghost origin_before = origin;
                listed.push(self.keys[slot].clone());
                proof {
                    origin = origin.push(slot as int);
                    assert forall|at: int|
                        0 <= at < slot + 1 && prefix@.is_prefix_of(
                            #[trigger] self.keys[at]@,
                        ) implies exists|i: int|
                        0 <= i < listed.len() && #[trigger] origin[i] == at by {
                        if at < slot {
                            let i = choose|i: int|
                                0 <= i < origin_before.len() && #[trigger] origin_before[i] == at;
                            assert(origin[i] == at);
                        } else {
                            assert(origin[listed.len() - 1] == at);
                        }
                    }
                }
            }
            slot = slot + 1;
        }
        proof {
            let texts = key_texts(listed@);
            let under = keys_under(self@, prefix@);
            assert forall|key: Seq<char>| texts.to_set().contains(key) <==> under.contains(key) by {
                if texts.to_set().contains(key) {
                    let i = choose|i: int| 0 <= i < texts.len() && texts[i] == key;
                    assert(0 <= origin[i] < slot);
                }
                if under.contains(key) {
                    let at = self.data@[key].slot as int;
                    let i = choose|i: int| 0 <= i < listed.len() && #[trigger] origin[i] == at;
                    assert(texts[i] == key);
                }
            }
            assert forall|i: int, j: int|
                0 <= i < texts.len() && 0 <= j < texts.len() && i != j implies texts[i]
                != texts[j] by {
                assert(origin[i] != origin[j]);
            }
        }
        listed
    }
}

/// Whether every key of the list starts with `prefix`.
pub open spec fn all_under(keys: Seq<String>, prefix: Seq<char>) -> bool {
    forall|at: int| 0 <= at < keys.len() ==> prefix.is_prefix_of(#[trigger] keys[at]@)
}

/// A handle to a store that is shared among all clones of the handle.
///
/// Every operation takes the store's lock, performs the operation of the
/// same name of [`Db`] on the store as it then is, and releases the lock:
/// readers share the lock, a mutation holds it alone, so the mutations of
/// all handles take effect one after another. What an operation finds
/// depends on what the other handles did before, so its contract states only
/// what holds whatever the store held.
pub struct KVStore {
    db: Arc<RwLock<RawRwLock, Db>>,
}

impl Clone for KVStore {
    /// Another handle to the same store.
    fn clone(&self) -> KVStore {
        KVStore { db: share_lock(&self.db) }
    }
}

impl KVStore {
    /// A handle to a new, empty store.
    pub fn new() -> KVStore {
        KVStore::default()
    }

    /// A handle to a new, empty store.
    pub fn default() -> KVStore {
        KVStore { db: Arc::new(new_lock(Db::new())) }
    }

    /// The value stored under `key`, if there is one.
    pub fn get(&self, key: &str) -> Option<Bytes> {
        let guard = read_lock(&self.db);
        guarded(&guard).get(key)
    }

    /// Stores `value` under `key` and returns the value that it replaces, if
    /// the key was present.
    pub fn insert(&self, key: &str, value: Bytes) -> Option<Bytes> {
        let mut guard = write_lock(&self.db);
        guarded_mut(&mut guard).insert(key, value)
    }

    /// Deletes `key` and returns the value that was stored under it, if the
    /// key was present.
    pub fn remove(&self, key: &str) -> Option<Bytes> {
        let mut guard = write_lock(&self.db);
        guarded_mut(&mut guard).remove(key)
    }

    /// Deletes every key that starts with `prefix`, in one step, and returns
    /// the deleted keys, each once.
    pub fn remove_with_prefix(&self, key: &str) -> (removed: Vec<String>)
        ensures
            all_under(removed@, key@),
            key_texts(removed@).no_duplicates(),
    {
        let mut guard = write_lock(&self.db);
        let db = guarded_mut(&mut guard);
        let ghost before = db@;
        let removed = db.remove_with_prefix(key);
        proof {
            lemma_listed_under(removed@, before, key@);
        }
        removed
    }

    /// Deletes every key.
    pub fn remove_all(&self) {
        let mut guard = write_lock(&self.db);
        guarded_mut(&mut guard).remove_all()
    }

    /// The keys of the store, each once.
    pub fn list_keys(&self) -> (listed: Vec<String>)
        ensures
            key_texts(listed@).no_duplicates(),
    {
        let guard = read_lock(&self.db);
        guarded(&guard).list_keys()
    }

    /// The keys of the store that start with `prefix`, each once.
    pub fn list_keys_with_prefix(&self, prefix: &str) -> (listed: Vec<String>)
        ensures
            all_under(listed@, prefix@),
            key_texts(listed@).no_duplicates(),
    {
        let guard = read_lock(&self.db);
        let db = guarded(&guard);
        let listed = db.list_keys_with_prefix(prefix);
        proof {
            lemma_listed_under(listed@, db@, prefix@);
        }
        listed
    }
}

/// A list whose keys are those of a store under a prefix holds only keys
/// that start with the prefix.
proof fn lemma_listed_under(keys: Seq<String>, store: Map<Seq<char>, Seq<u8>>, prefix: Seq<char>)
    requires
        key_texts(keys).to_set() == keys_under(store, prefix),
    ensures
        all_under(keys, prefix),
{
    assert forall|at: int| 0 <= at < keys.len() implies prefix.is_prefix_of(#[trigger] keys[at]@) by {
        assert(key_texts(keys)[at] == keys[at]@);
        assert(key_texts(keys).to_set().contains(keys[at]@));
    }
}

} // verus!
