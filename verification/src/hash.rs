//! To and from a hash map: for callers that build or write in order and
//! look up by key in between.

use std::collections::HashMap;
use std::hash::{BuildHasher, Hash};
use std::marker::PhantomData;
use vstd::prelude::*;
use vstd::std_specs::convert::FromSpecImpl;
use vstd::std_specs::hash::{builds_valid_hashers, obeys_key_model};
use crate::map::SerdeMap;
use crate::strategy::SerdeMapStrategy;

verus! {

/// The map that pairs make when they are inserted one after the other: it
/// has the keys of the pairs, each with the value of the last pair of that
/// key.
pub open spec fn last_wins<D, V>(pairs: Seq<(D, V)>) -> Map<D, V>
    decreases pairs.len(),
{
    if pairs.len() == 0 {
        Map::empty()
    } else {
        last_wins(pairs.drop_last()).insert(pairs.last().0, pairs.last().1)
    }
}

/// No two of the pairs have the same key.
pub open spec fn distinct_keys<D, V>(pairs: Seq<(D, V)>) -> bool {
    forall|i: int, j: int|
        0 <= i < j < pairs.len() ==> (#[trigger] pairs[i]).0 != (#[trigger] pairs[j]).0
}

/// The pairs are the entries of the map, each once, in whatever order.
pub open spec fn holds_exactly<D, V>(pairs: Seq<(D, V)>, map: Map<D, V>) -> bool {
    &&& pairs.len() == map.len()
    &&& distinct_keys(pairs)
    &&& forall|i: int|
        0 <= i < pairs.len() ==> map.contains_pair((#[trigger] pairs[i]).0, pairs[i].1)
    &&& forall|k: D| #[trigger]
        map.contains_key(k) ==> exists|i: int|
            0 <= i < pairs.len() && (#[trigger] pairs[i]) == (k, map[k])
}

/// The map of pairs has exactly the keys of the pairs.
pub proof fn lemma_last_wins_keys<D, V>(pairs: Seq<(D, V)>, k: D)
    ensures
        last_wins(pairs).contains_key(k) <==> exists|i: int|
            0 <= i < pairs.len() && (#[trigger] pairs[i]).0 == k,
    decreases pairs.len(),
{
    if pairs.len() > 0 {
        let front = pairs.drop_last();
        lemma_last_wins_keys(front, k);
        if last_wins(pairs).contains_key(k) {
            if pairs.last().0 == k {
                assert(pairs[pairs.len() - 1].0 == k);
            } else {
                let i = choose|i: int| 0 <= i < front.len() && (#[trigger] front[i]).0 == k;
                assert(pairs[i].0 == k);
            }
        }
        if exists|i: int| 0 <= i < pairs.len() && (#[trigger] pairs[i]).0 == k {
            let i = choose|i: int| 0 <= i < pairs.len() && (#[trigger] pairs[i]).0 == k;
            if i < front.len() {
                assert(front[i].0 == k);
            }
        }
    }
}

/// Under a key that occurs more than once, the map of pairs holds the value
/// of the last occurrence: the value of a pair after which the key does not
/// come again.
pub proof fn lemma_last_occurrence_wins<D, V>(pairs: Seq<(D, V)>, i: int)
    requires
        0 <= i < pairs.len(),
        forall|j: int| i < j < pairs.len() ==> (#[trigger] pairs[j]).0 != pairs[i].0,
    ensures
        last_wins(pairs).contains_key(pairs[i].0),
        last_wins(pairs)[pairs[i].0] == pairs[i].1,
    decreases pairs.len(),
{
    if i < pairs.len() - 1 {
        let front = pairs.drop_last();
        assert(front[i] == pairs[i]);
        assert forall|j: int| i < j < front.len() implies (#[trigger] front[j]).0 != front[i].0 by {
            assert(front[j] == pairs[j]);
        }
        lemma_last_occurrence_wins(front, i);
        assert(pairs[pairs.len() - 1].0 != pairs[i].0);
    }
}

/// Pairs that are the entries of a map, each once, make that map again,
/// whatever their order.
pub proof fn lemma_back_to_map<D, V>(pairs: Seq<(D, V)>, map: Map<D, V>)
    requires
        holds_exactly(pairs, map),
    ensures
        last_wins(pairs) == map,
{
    let made = last_wins(pairs);
    assert forall|k: D| made.contains_key(k) == map.contains_key(k) by {
        lemma_last_wins_keys(pairs, k);
        if made.contains_key(k) {
            let i = choose|i: int| 0 <= i < pairs.len() && (#[trigger] pairs[i]).0 == k;
            assert(map.contains_pair(pairs[i].0, pairs[i].1));
        }
        if map.contains_key(k) {
            let i = choose|i: int| 0 <= i < pairs.len() && (#[trigger] pairs[i]) == (k, map[k]);
            assert(pairs[i].0 == k);
        }
    }
    assert forall|k: D| made.contains_key(k) implies made[k] == map[k] by {
        let i = choose|i: int| 0 <= i < pairs.len() && (#[trigger] pairs[i]) == (k, map[k]);
        lemma_last_occurrence_wins(pairs, i);
    }
    assert(made =~= map);
}

/// `Vec::from_iter` of std, on a `HashMap`: the map's consuming iterator
/// moves each of its entries out once, in an order of its own, and the
/// vector holds them in that order.
#[verifier::external_body]
fn entries_of<D, V, S>(hash: HashMap<D, V, S>) -> (pairs: Vec<(D, V)>)
    ensures
        obeys_key_model::<D>() && builds_valid_hashers::<S>() ==> holds_exactly(pairs@, hash@),
{
    Vec::from_iter(hash)
}

impl<K, V, KS: SerdeMapStrategy<K>, S> From<HashMap<KS::Des, V, S>> for SerdeMap<K, V, KS> {
    /// The container of the entries of a hash map, each once, in the order
    /// in which the hash map hands them out: any order.
    #[inline]
    fn from(hash: HashMap<KS::Des, V, S>) -> (map: Self)
        ensures
            obeys_key_model::<KS::Des>() && builds_valid_hashers::<S>() ==> holds_exactly(
                map@,
                hash@,
            ),
    {
        SerdeMap(entries_of(hash), PhantomData)
    }
}

impl<K, V, KS: SerdeMapStrategy<K>, S> FromSpecImpl<HashMap<KS::Des, V, S>> for SerdeMap<K, V, KS> {
    /// The order of the pairs is open, so no one container is the result.
    open spec fn obeys_from_spec() -> bool {
        false
    }

    open spec fn from_spec(hash: HashMap<KS::Des, V, S>) -> Self {
        arbitrary()
    }
}

impl<K, V, KS: SerdeMapStrategy<K>, S> From<SerdeMap<K, V, KS>> for HashMap<KS::Des, V, S> where
    KS::Des: Eq + Hash,
    S: Default + BuildHasher,
 {
    /// The hash map of the pairs, inserted oldest first: under a key that
    /// occurs more than once, the value of its last pair.
    #[inline]
    fn from(v: SerdeMap<K, V, KS>) -> (hash: Self)
        ensures
            obeys_key_model::<KS::Des>() && builds_valid_hashers::<S>() ==> hash@ == last_wins(
                v@,
            ),
    {
        let mut hash: HashMap<KS::Des, V, S> = HashMap::default();
        let ghost pairs = v@;
        for pair in it: v.0
            invariant
                it.seq() == pairs,
                obeys_key_model::<KS::Des>() && builds_valid_hashers::<S>() ==> hash@ == last_wins(
                    pairs.take(it.index()),
                ),
        {
            let ghost idx = it.index();
            assert(pairs.take(idx + 1).drop_last() == pairs.take(idx));
            hash.insert(pair.0, pair.1);
        }
        assert(pairs.take(pairs.len() as int) == pairs);
        hash
    }
}

impl<K, V, KS: SerdeMapStrategy<K>, S> FromSpecImpl<SerdeMap<K, V, KS>> for HashMap<KS::Des, V, S> where
    KS::Des: Eq + Hash,
    S: Default + BuildHasher,
 {
    /// A hash map is known by its entries only.
    open spec fn obeys_from_spec() -> bool {
        false
    }

    open spec fn from_spec(v: SerdeMap<K, V, KS>) -> Self {
        arbitrary()
    }
}

} // verus!
