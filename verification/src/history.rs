//! Histories: what a sequence of mutations leaves in the store.
//!
//! The store applies its mutations one at a time, whoever asks for them, so
//! its state is always that of some sequence of mutations applied in order
//! to the empty store. The lemmas here say what holds of such sequences.

use crate::db::keys_under;
use vstd::prelude::*;

verus! {

/// One mutation of the store.
pub enum Mutation {
    Insert { key: Seq<char>, value: Seq<u8> },
    Remove { key: Seq<char> },
    RemovePrefix { prefix: Seq<char> },
    RemoveAll,
}

/// The store after one mutation.
pub open spec fn apply(store: Map<Seq<char>, Seq<u8>>, mutation: Mutation) -> Map<
    Seq<char>,
    Seq<u8>,
> {
    match mutation {
        Mutation::Insert { key, value } => store.insert(key, value),
        Mutation::Remove { key } => store.remove(key),
        Mutation::RemovePrefix { prefix } => store.remove_keys(keys_under(store, prefix)),
        Mutation::RemoveAll => Map::empty(),
    }
}

/// The store after the mutations of `history`, first to last.
pub open spec fn apply_all(store: Map<Seq<char>, Seq<u8>>, history: Seq<Mutation>) -> Map<
    Seq<char>,
    Seq<u8>,
>
    decreases history.len(),
{
    if history.len() == 0 {
        store
    } else {
        apply(apply_all(store, history.drop_last()), history.last())
    }
}

/// Whether `mutation` inserts `key`.
pub open spec fn inserts(mutation: Mutation, key: Seq<char>) -> bool {
    mutation matches Mutation::Insert { key: inserted, .. } && inserted == key
}

/// A key that no mutation of the history inserts is absent after it: a
/// lookup finds nothing under it, and neither does a removal.
pub proof fn lemma_absent_unless_inserted(history: Seq<Mutation>, key: Seq<char>)
    requires
        forall|at: int| 0 <= at < history.len() ==> !inserts(#[trigger] history[at], key),
    ensures
        apply_all(Map::empty(), history).get(key) is None,
    decreases history.len(),
{
    if history.len() > 0 {
        let earlier = history.drop_last();
        assert forall|at: int| 0 <= at < earlier.len() implies !inserts(
            #[trigger] earlier[at],
            key,
        ) by {
            assert(earlier[at] == history[at]);
        }
        lemma_absent_unless_inserted(earlier, key);
    }
}

/// The last write wins: a second insertion under a key replaces the value of
/// the first, which is what it finds there, and a lookup then finds the
/// second value.
pub proof fn lemma_last_write_wins(
    store: Map<Seq<char>, Seq<u8>>,
    key: Seq<char>,
    first: Seq<u8>,
    second: Seq<u8>,
)
    ensures
        store.insert(key, first).get(key) == Some(first),
        store.insert(key, first).insert(key, second).get(key) == Some(second),
        store.insert(key, first).insert(key, second) == store.insert(key, second),
{
}

/// Removal by prefix takes exactly the keys that start with the prefix: none
/// of them is left, and every other key keeps its value.
pub proof fn lemma_prefix_removal_is_exact(
    store: Map<Seq<char>, Seq<u8>>,
    prefix: Seq<char>,
    key: Seq<char>,
)
    ensures
        prefix.is_prefix_of(key) ==> store.remove_keys(keys_under(store, prefix)).get(key) is None,
        !prefix.is_prefix_of(key) ==> store.remove_keys(keys_under(store, prefix)).get(key)
            == store.get(key),
{
}

/// A store that has been emptied lists no keys.
pub proof fn lemma_emptied_store_lists_nothing(listed: Seq<Seq<char>>)
    requires
        listed.to_set() == Map::<Seq<char>, Seq<u8>>::empty().dom(),
    ensures
        listed == Seq::<Seq<char>>::empty(),
{
    if listed.len() > 0 {
        assert(listed.to_set().contains(listed[0]));
    }
}

/// Whether every mutation of the history is an insertion, and no two of
/// them are under one key.
pub open spec fn inserts_distinct_keys(history: Seq<Mutation>) -> bool {
    &&& forall|at: int| 0 <= at < history.len() ==> #[trigger] history[at] is Insert
    &&& forall|one: int, other: int|
        0 <= one < other < history.len() ==> #[trigger] history[one]->Insert_key
            != #[trigger] history[other]->Insert_key
}

/// The keys that the insertions of a history are under, in its order.
pub open spec fn inserted_keys(history: Seq<Mutation>) -> Seq<Seq<char>> {
    history.map_values(|mutation: Mutation| mutation->Insert_key)
}

/// No write is lost: after insertions under distinct keys, each of the keys
/// holds the value inserted under it, and every other key is as it was.
pub proof fn lemma_distinct_inserts_all_kept(
    store: Map<Seq<char>, Seq<u8>>,
    history: Seq<Mutation>,
)
    requires
        inserts_distinct_keys(history),
    ensures
        forall|at: int|
            0 <= at < history.len() ==> apply_all(store, history).get(
                #[trigger] history[at]->Insert_key,
            ) == Some(history[at]->Insert_value),
        forall|key: Seq<char>|
            !inserted_keys(history).contains(key) ==> #[trigger] apply_all(store, history).get(key)
                == store.get(key),
    decreases history.len(),
{
    if history.len() > 0 {
        let earlier = history.drop_last();
        let last = history.last();
        assert(inserts_distinct_keys(earlier)) by {
            assert forall|at: int| 0 <= at < earlier.len() implies #[trigger] earlier[at] is Insert by {
                assert(earlier[at] == history[at]);
            }
            assert forall|one: int, other: int| 0 <= one < other < earlier.len() implies #[trigger]
                earlier[one]->Insert_key != #[trigger] earlier[other]->Insert_key by {
                assert(earlier[one] == history[one] && earlier[other] == history[other]);
            }
        }
        lemma_distinct_inserts_all_kept(store, earlier);
        assert forall|at: int| 0 <= at < history.len() implies apply_all(store, history).get(
            #[trigger] history[at]->Insert_key,
        ) == Some(history[at]->Insert_value) by {
            if at < earlier.len() {
                assert(earlier[at] == history[at]);
            }
        }
        assert forall|key: Seq<char>| !inserted_keys(history).contains(key) implies #[trigger]
            apply_all(store, history).get(key) == store.get(key) by {
            let keys = inserted_keys(history);
            assert(keys[history.len() - 1] == last->Insert_key);
            if inserted_keys(earlier).contains(key) {
                let at = choose|at: int|
                    0 <= at < inserted_keys(earlier).len() && inserted_keys(earlier)[at] == key;
                assert(keys[at] == key);
            }
            assert(apply_all(store, earlier).get(key) == store.get(key));
        }
    }
}

/// After insertions under distinct keys into the empty store, a listing of
/// the keys holds exactly the inserted keys: as many, and each of them.
pub proof fn lemma_distinct_inserts_are_listed(history: Seq<Mutation>, listed: Seq<Seq<char>>)
    requires
        inserts_distinct_keys(history),
        listed.to_set() == apply_all(Map::empty(), history).dom(),
        listed.no_duplicates(),
    ensures
        listed.len() == history.len(),
        listed.to_set() == inserted_keys(history).to_set(),
{
    let keys = inserted_keys(history);
    let left = apply_all(Map::empty(), history);
    lemma_distinct_inserts_all_kept(Map::empty(), history);
    assert forall|key: Seq<char>| left.dom().contains(key) <==> keys.to_set().contains(key) by {
        if keys.contains(key) {
            let at = choose|at: int| 0 <= at < keys.len() && keys[at] == key;
            assert(left.get(history[at]->Insert_key) is Some);
        } else {
            assert(left.get(key) == Map::<Seq<char>, Seq<u8>>::empty().get(key));
        }
    }
    assert(left.dom() =~= keys.to_set());
    keys.unique_seq_to_set();
    listed.unique_seq_to_set();
}

/// The order of insertions under distinct keys does not matter: two
/// histories of the same insertions leave the same store.
pub proof fn lemma_insert_order_is_irrelevant(
    store: Map<Seq<char>, Seq<u8>>,
    one: Seq<Mutation>,
    other: Seq<Mutation>,
)
    requires
        inserts_distinct_keys(one),
        inserts_distinct_keys(other),
        one.to_set() == other.to_set(),
    ensures
        apply_all(store, one) == apply_all(store, other),
{
    lemma_distinct_inserts_all_kept(store, one);
    lemma_distinct_inserts_all_kept(store, other);
    let left = apply_all(store, one);
    let right = apply_all(store, other);
    assert forall|key: Seq<char>| left.get(key) == right.get(key) by {
        if inserted_keys(one).contains(key) {
            let at = choose|at: int| 0 <= at < one.len() && inserted_keys(one)[at] == key;
            assert(other.to_set().contains(one[at]));
            let there = choose|there: int| 0 <= there < other.len() && other[there] == one[at];
            assert(left.get(one[at]->Insert_key) == right.get(other[there]->Insert_key));
        } else if inserted_keys(other).contains(key) {
            let there = choose|there: int|
                0 <= there < other.len() && inserted_keys(other)[there] == key;
            assert(one.to_set().contains(other[there]));
            let at = choose|at: int| 0 <= at < one.len() && one[at] == other[there];
            assert(inserted_keys(one)[at] == key);
        }
    }
    assert forall|key: Seq<char>| left.contains_key(key) <==> right.contains_key(key) by {
        assert(left.get(key) == right.get(key));
    }
    assert forall|key: Seq<char>| left.contains_key(key) implies left[key] == right[key] by {
        assert(left.get(key) == right.get(key));
    }
}

} // verus!
