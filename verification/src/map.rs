//! The container: key/value pairs in the order in which they were inserted.

use std::marker::PhantomData;
use vstd::prelude::*;
use vstd::std_specs::cmp::PartialEqSpec;
use vstd::std_specs::convert::FromSpecImpl;
use crate::outcome::{all_ok, first_err_at, values};
use crate::strategy::{Linear, SerdeMapStrategy};

verus! {

/// Key/value pairs kept in insertion order, with keys of the stored form of
/// the strategy `KS` for wire keys of type `K`.
///
/// Nothing is looked up by key and no key is unique: two pairs with the same
/// key are two entries.
#[derive(Debug)]
pub struct SerdeMap<K, V, KS: SerdeMapStrategy<K> = Linear>(
    pub Vec<(KS::Des, V)>,
    pub PhantomData<KS>,
);

impl<K, V, KS: SerdeMapStrategy<K>> View for SerdeMap<K, V, KS> {
    type V = Seq<(KS::Des, V)>;

    /// The pairs, oldest first.
    open spec fn view(&self) -> Seq<(KS::Des, V)> {
        self.0@
    }
}

impl<K, V, KS: SerdeMapStrategy<K>> SerdeMap<K, V, KS> {
    /// An empty container.
    #[inline]
    pub fn new() -> (map: Self)
        ensures
            map@ == Seq::<(KS::Des, V)>::empty(),
    {
        SerdeMap(Vec::new(), PhantomData)
    }

    /// An empty container with room for `capacity` pairs.
    #[inline]
    pub fn with_capacity(capacity: usize) -> (map: Self)
        ensures
            map@ == Seq::<(KS::Des, V)>::empty(),
    {
        SerdeMap(Vec::with_capacity(capacity), PhantomData)
    }

    /// Appends a pair, whatever keys are there already.
    #[inline]
    pub fn insert_unchecked(&mut self, k: KS::Des, v: V)
        ensures
            final(self)@ == old(self)@.push((k, v)),
    {
        self.0.push((k, v));
    }

    /// The number of pairs.
    #[inline(always)]
    pub fn len(&self) -> (n: usize)
        ensures
            n == self@.len(),
    {
        self.0.len()
    }

    /// Whether there is no pair.
    #[inline(always)]
    pub fn is_empty(&self) -> (b: bool)
        ensures
            b == (self@.len() == 0),
    {
        self.0.is_empty()
    }

    /// Gives up the container for its pairs, oldest first.
    #[inline]
    pub fn into_vec(self) -> (pairs: Vec<(KS::Des, V)>)
        ensures
            pairs@ == self@,
    {
        self.0
    }

    /// Gathers pairs that were read one by one, each of which may have
    /// failed: all of them in their order where none failed, and the first
    /// failure where one did.
    pub fn collect_entries<E>(entries: Vec<Result<(KS::Des, V), E>>) -> (r: Result<Self, E>)
        ensures
            all_ok(entries@) ==> (r matches Ok(map) && map@ == values(entries@)),
            !all_ok(entries@) ==> exists|i: int|
                {
                    &&& #[trigger] first_err_at(entries@, i)
                    &&& r matches Err(err)
                    &&& entries@[i] == Err::<(KS::Des, V), E>(err)
                },
    {
        let mut map = Self::with_capacity(entries.len());
        let ghost all = entries@;
        for entry in it: entries
            invariant
                it.seq() == all,
                all_ok(all.take(it.index())),
                map@ == values(all.take(it.index())),
        {
            let ghost idx = it.index();
            match entry {
                Ok((k, v)) => {
                    map.insert_unchecked(k, v);
                    assert(map@ =~= values(all.take(idx + 1)));
                },
                Err(err) => {
                    assert(first_err_at(all, idx));
                    return Err(err);
                },
            }
        }
        assert(all.take(all.len() as int) == all);
        Ok(map)
    }
}

impl<K, V, KS: SerdeMapStrategy<K>> From<Vec<(KS::Des, V)>> for SerdeMap<K, V, KS> {
    /// The container of the given pairs, in their order.
    #[inline]
    fn from(data: Vec<(KS::Des, V)>) -> (map: Self)
        ensures
            map@ == data@,
    {
        SerdeMap(data, PhantomData)
    }
}

impl<K, V, KS: SerdeMapStrategy<K>> FromSpecImpl<Vec<(KS::Des, V)>> for SerdeMap<K, V, KS> {
    open spec fn obeys_from_spec() -> bool {
        true
    }

    open spec fn from_spec(data: Vec<(KS::Des, V)>) -> Self {
        SerdeMap(data, PhantomData)
    }
}

impl<K, V: Clone, KS: SerdeMapStrategy<K>> Clone for SerdeMap<K, V, KS> where KS::Des: Clone {
    /// A container of as many pairs, each a clone of the pair in its place.
    fn clone(&self) -> (map: Self)
        ensures
            map@.len() == self@.len(),
            forall|i: int| 0 <= i < self@.len() ==> cloned(self@[i], #[trigger] map@[i]),
    {
        SerdeMap(self.0.clone(), PhantomData)
    }
}

impl<K, V, KS: SerdeMapStrategy<K>> Default for SerdeMap<K, V, KS> {
    /// An empty container.
    #[inline]
    fn default() -> (map: Self)
        ensures
            map@ == Seq::<(KS::Des, V)>::empty(),
    {
        Self::new()
    }
}

impl<K, V, KS: SerdeMapStrategy<K>> IntoIterator for SerdeMap<K, V, KS> {
    type Item = (KS::Des, V);

    type IntoIter = std::vec::IntoIter<(KS::Des, V)>;

    /// Hands the pairs out, oldest first.
    #[inline]
    fn into_iter(self) -> (iter: std::vec::IntoIter<(KS::Des, V)>)
        ensures
            iter == vstd::std_specs::vec::spec_into_iter(self.0),
    {
        self.0.into_iter()
    }
}

impl<'a, K, V, KS: SerdeMapStrategy<K>> IntoIterator for &'a SerdeMap<K, V, KS> {
    type Item = &'a (KS::Des, V);

    type IntoIter = std::slice::Iter<'a, (KS::Des, V)>;

    /// Shows the pairs, oldest first.
    #[inline]
    fn into_iter(self) -> (iter: std::slice::Iter<'a, (KS::Des, V)>)
        ensures
            iter == vstd::std_specs::vec::spec_into_iter_borrowed(&self.0),
    {
        (&self.0).into_iter()
    }
}

impl<'a, K, V, KS: SerdeMapStrategy<K>> IntoIterator for &'a mut SerdeMap<K, V, KS> {
    type Item = &'a mut (KS::Des, V);

    type IntoIter = std::vec::IntoIter<&'a mut (KS::Des, V)>;

    /// Hands each pair out for change, oldest first: as many references as
    /// there are pairs, each to the pair in its place. What is written
    /// through a reference is what the container holds in that place
    /// afterwards; no pair is added or taken away.
    #[inline]
    fn into_iter(self) -> (iter: std::vec::IntoIter<&'a mut (KS::Des, V)>)
        ensures
            ({
                let handed = vstd::std_specs::iter::IteratorSpec::remaining(&iter);
                &&& handed.len() == old(self)@.len()
                &&& final(self)@.len() == old(self)@.len()
                &&& forall|i: int|
                    0 <= i < handed.len() ==> *(#[trigger] handed[i]) == old(self)@[i]
                &&& forall|i: int|
                    0 <= i < handed.len() ==> final(self)@[i] == *final(#[trigger] handed[i])
            }),
            vstd::std_specs::iter::IteratorSpec::decrease(&iter) is Some,
            vstd::std_specs::iter::IteratorSpec::initial_value_relation(&iter, &iter),
    {
        let ghost start = self@;
        let ghost end = final(self)@;
        let mut refs: Vec<&'a mut (KS::Des, V)> = Vec::with_capacity(self.0.len());
        let mut rest = self.0.as_mut_slice();
        while rest.len() > 0
            invariant
                refs@.len() + rest@.len() == start.len(),
                forall|i: int| 0 <= i < refs@.len() ==> *(#[trigger] refs@[i]) == start[i],
                rest@ == start.skip(refs@.len() as int),
                end.len() == refs@.len() + final(rest)@.len(),
                forall|i: int| 0 <= i < refs@.len() ==> end[i] == *final(#[trigger] refs@[i]),
                forall|i: int|
                    0 <= i < final(rest)@.len() ==> end[refs@.len() + i]
                        == #[trigger] final(rest)@[i],
            decreases rest.len(),
        {
            let ghost n = refs@.len() as int;
            let ghost before = refs@;
            let whole = rest;
            let ghost whole_end = final(whole)@;
            let (head, tail) = whole.split_at_mut(1);
            let ghost head_end = final(head)@;
            assert(whole_end == head_end + final(tail)@);
            match head.first_mut() {
                Some(first) => {
                    assert(head_end == seq![*final(first)]);
                    refs.push(first);
                },
                None => {},
            }
            assert(forall|i: int| 0 <= i < n ==> refs@[i] == before[i]);
            assert(whole_end[0] == *final(refs@[n]));
            assert(forall|i: int|
                0 <= i < final(tail)@.len() ==> whole_end[i + 1] == final(tail)@[i]);
            rest = tail;
        }
        refs.into_iter()
    }
}

/// The pairs of a container into which `pairs` were inserted one after the
/// other, after those it held.
pub open spec fn inserted<P>(held: Seq<P>, pairs: Seq<P>) -> Seq<P> {
    pairs.fold_left(held, |so_far: Seq<P>, pair: P| so_far.push(pair))
}

/// Insertion keeps every pair, equal keys too, and keeps them in the order
/// in which they came: a container that was empty holds exactly the pairs
/// that were inserted, as many as there were insertions.
pub proof fn lemma_insertion_order<P>(held: Seq<P>, pairs: Seq<P>)
    ensures
        inserted(held, pairs) == held + pairs,
        inserted(Seq::empty(), pairs) == pairs,
        inserted(Seq::empty(), pairs).len() == pairs.len(),
    decreases pairs.len(), held.len(),
{
    if pairs.len() > 0 {
        lemma_insertion_order(held, pairs.drop_last());
        assert(held + pairs =~= (held + pairs.drop_last()).push(pairs.last()));
    } else {
        assert(held + pairs =~= held);
    }
    if held.len() > 0 {
        lemma_insertion_order(Seq::empty(), pairs);
    } else {
        assert(held + pairs =~= pairs);
    }
}

/// The groups after `v` has come in under the key `k`: `v` joins the last
/// group where that group's key equals `k`, and starts a group of its own
/// where it does not, or where there is no group yet.
pub open spec fn merge_group<D: PartialEq, V>(groups: Seq<(D, Seq<V>)>, k: D, v: V) -> Seq<
    (D, Seq<V>),
> {
    if groups.len() > 0 && groups.last().0.eq_spec(&k) {
        joined(groups, v)
    } else {
        appended(groups, k, v)
    }
}

/// The groups with `v` added to the last of them.
pub open spec fn joined<D, V>(groups: Seq<(D, Seq<V>)>, v: V) -> Seq<(D, Seq<V>)>
    recommends
        groups.len() > 0,
{
    groups.update(groups.len() - 1, (groups.last().0, groups.last().1.push(v)))
}

/// The groups with one more at the end, of the key `k` and of `v` alone.
pub open spec fn appended<D, V>(groups: Seq<(D, Seq<V>)>, k: D, v: V) -> Seq<(D, Seq<V>)> {
    groups.push((k, seq![v]))
}

impl<K, V, KS: SerdeMapStrategy<K>> SerdeMap<K, Vec<V>, KS> {
    /// The pairs with each value seen as the sequence it holds.
    pub open spec fn groups(self) -> Seq<(KS::Des, Seq<V>)> {
        self@.map_values(|pair: (KS::Des, Vec<V>)| (pair.0, pair.1@))
    }

    /// Appends `v` to the values of the last pair where that pair's key
    /// equals `k`; appends the pair of `k` and `v` alone where it does not.
    ///
    /// Only the last pair is looked at: an equal key further up is left alone.
    /// Where the key type's `==` is not known to follow its `eq_spec`, the
    /// outcome is still one of the two.
    #[inline]
    pub fn push_to_same_last(&mut self, k: KS::Des, v: V) where KS::Des: PartialEq
        ensures
            <KS::Des as PartialEqSpec>::obeys_eq_spec() ==> final(self).groups() == merge_group(
                old(self).groups(),
                k,
                v,
            ),
            final(self).groups() == appended(old(self).groups(), k, v) || (old(self)@.len() > 0
                && final(self).groups() == joined(old(self).groups(), v)),
    {
        let ghost before = *self;
        if let Some(last) = self.0.last_mut() {
            if last.0 == k {
                last.1.push(v);
                assert(self@ =~= before@.update(before@.len() - 1, self@.last()));
                assert(self.groups() =~= before.groups().update(
                    before@.len() - 1,
                    (before@.last().0, before@.last().1@.push(v)),
                ));
                return ;
            }
        }
        assert(self@ =~= before@);
        let group = vec![v];
        assert(group@ =~= seq![v]);
        self.0.push((k, group));
        assert(self.groups() =~= before.groups().push((k, seq![v])));
    }
}

/// Two values that come in under one key, one right after the other, make
/// one group: from nothing, the single pair of the key and the two values.
pub proof fn lemma_merge_same_key<D: PartialEq, V>(groups: Seq<(D, Seq<V>)>, k: D, v1: V, v2: V)
    requires
        k.eq_spec(&k),
    ensures
        merge_group(merge_group(groups, k, v1), k, v2) == joined(merge_group(groups, k, v1), v2),
        merge_group(merge_group(groups, k, v1), k, v2).len() == merge_group(groups, k, v1).len(),
        merge_group(merge_group(Seq::<(D, Seq<V>)>::empty(), k, v1), k, v2) == seq![
            (k, seq![v1, v2]),
        ],
{
    let none = Seq::<(D, Seq<V>)>::empty();
    assert(merge_group(none, k, v1) =~= seq![(k, seq![v1])]);
    assert(seq![v1].push(v2) =~= seq![v1, v2]);
    assert(joined(seq![(k, seq![v1])], v2) =~= seq![(k, seq![v1, v2])]);
}

/// A different key in between keeps two values of one key apart: from
/// nothing, three pairs, the first and the last of the same key.
pub proof fn lemma_merge_other_key_between<D: PartialEq, V>(k: D, k2: D, v1: V, v3: V, v2: V)
    requires
        !k.eq_spec(&k2),
        !k2.eq_spec(&k),
    ensures
        merge_group(
            merge_group(merge_group(Seq::<(D, Seq<V>)>::empty(), k, v1), k2, v3),
            k,
            v2,
        ) == seq![(k, seq![v1]), (k2, seq![v3]), (k, seq![v2])],
{
    let none = Seq::<(D, Seq<V>)>::empty();
    let one = merge_group(none, k, v1);
    assert(one =~= seq![(k, seq![v1])]);
    let two = merge_group(one, k2, v3);
    assert(two =~= seq![(k, seq![v1]), (k2, seq![v3])]);
    assert(merge_group(two, k, v2) =~= seq![(k, seq![v1]), (k2, seq![v3]), (k, seq![v2])]);
}

} // verus!
