//! The container as a map of a structured-data format: what is written for
//! it, and how it is built up from what is read.
//!
//! A writer declares `len()` entries and writes the entries of
//! [`SerdeMap::wire_entries`] in their order. A reader hands each entry it
//! reads to [`SerdeMap::insert_wire_entry`] and stops at the first error.

use vstd::prelude::*;
use crate::map::SerdeMap;
use crate::strategy::{lifts, projects, DecodeError, Linear, SerRet, SerdeMapStrategy};

verus! {

/// `wire` is what a writer may see of `pairs`: as many entries in the same
/// order, each key in a wire form that the strategy gave for it, each value
/// as it is.
pub open spec fn encodes<K, V, KS: SerdeMapStrategy<K>>(
    pairs: Seq<(KS::Des, V)>,
    wire: Seq<(K, V)>,
) -> bool {
    &&& wire.len() == pairs.len()
    &&& forall|i: int|
        0 <= i < pairs.len() ==> projects::<K, KS>(pairs[i].0, (#[trigger] wire[i]).0)
            && wire[i].1 == pairs[i].1
}

/// `pairs` is what a reader may make of `wire`: all entries in their order,
/// each key in a stored form that the strategy gave for it.
pub open spec fn reads<K, V, KS: SerdeMapStrategy<K>>(
    wire: Seq<(K, V)>,
    pairs: Seq<(KS::Des, V)>,
) -> bool {
    &&& pairs.len() == wire.len()
    &&& forall|i: int|
        0 <= i < wire.len() ==> lifts::<K, KS>(wire[i].0, Ok((#[trigger] pairs[i]).0))
            && pairs[i].1 == wire[i].1
}

/// `err` is an error that may end the reading of `wire`: the one that the
/// strategy gave for the first key that it refused.
pub open spec fn refuses<K, V, KS: SerdeMapStrategy<K>>(
    wire: Seq<(K, V)>,
    err: DecodeError,
) -> bool {
    exists|i: int| refused_at::<K, V, KS>(wire, i, err)
}

/// `r` is an outcome of reading `wire`.
pub open spec fn decodes<K, V, KS: SerdeMapStrategy<K>>(
    wire: Seq<(K, V)>,
    r: Result<Seq<(KS::Des, V)>, DecodeError>,
) -> bool {
    match r {
        Ok(pairs) => reads::<K, V, KS>(wire, pairs),
        Err(err) => refuses::<K, V, KS>(wire, err),
    }
}

/// The strategy gave a stored form for each key of `wire` before entry `i`,
/// and the error `err` for the key of entry `i`.
pub open spec fn refused_at<K, V, KS: SerdeMapStrategy<K>>(
    wire: Seq<(K, V)>,
    i: int,
    err: DecodeError,
) -> bool {
    &&& 0 <= i < wire.len()
    &&& lifts::<K, KS>(wire[i].0, Err(err))
    &&& forall|j: int| 0 <= j < i ==> accepted::<K, KS>((#[trigger] wire[j]).0)
}

/// The strategy gave a stored form for the wire key `s`.
pub open spec fn accepted<K, KS: SerdeMapStrategy<K>>(s: K) -> bool {
    exists|d: KS::Des| #[trigger] lifts::<K, KS>(s, Ok(d))
}

/// What a writer sees of the entries that are handed to it.
pub open spec fn wire_view<'a, K, V>(entries: Seq<(SerRet<'a, K>, &'a V)>) -> Seq<(K, V)> {
    entries.map_values(|entry: (SerRet<'a, K>, &'a V)| (entry.0.wire(), *entry.1))
}

impl<K, V, KS: SerdeMapStrategy<K>> SerdeMap<K, V, KS> {
    /// The entries to write, oldest pair first: each key in its wire form,
    /// each value as it is. There are `len()` of them.
    pub fn wire_entries<'a>(&'a self) -> (entries: Vec<(SerRet<'a, K>, &'a V)>)
        ensures
            encodes::<K, V, KS>(self@, wire_view(entries@)),
    {
        let mut entries: Vec<(SerRet<'a, K>, &'a V)> = Vec::with_capacity(self.0.len());
        let n = self.0.len();
        let mut i: usize = 0;
        while i < n
            invariant
                n == self@.len(),
                i <= n,
                encodes::<K, V, KS>(self@.take(i as int), wire_view(entries@)),
            decreases n - i,
        {
            let pair = &self.0[i];
            let key = KS::serialize(&pair.0);
            let ghost before = entries@;
            entries.push((key, &pair.1));
            proof {
                let wire = wire_view(entries@);
                assert(wire.len() == i + 1);
                assert forall|j: int| 0 <= j < i + 1 implies projects::<K, KS>(
                    self@.take(i + 1)[j].0,
                    (#[trigger] wire[j]).0,
                ) && wire[j].1 == self@.take(i + 1)[j].1 by {
                    if j < i {
                        assert(wire[j] == wire_view(before)[j]);
                        assert(self@.take(i + 1)[j] == self@.take(i as int)[j]);
                    }
                }
            }
            i += 1;
        }
        assert(self@.take(n as int) == self@);
        entries
    }

    /// Appends the pair of a key that was brought into its stored form and
    /// of `value`; where the key was refused, changes nothing and passes
    /// the error on.
    pub fn insert_lifted(&mut self, lifted: Result<KS::Des, DecodeError>, value: V) -> (r: Result<
        (),
        DecodeError,
    >)
        ensures
            match lifted {
                Ok(d) => r is Ok && final(self)@ == old(self)@.push((d, value)),
                Err(err) => r == Err::<(), DecodeError>(err) && final(self)@ == old(self)@,
            },
    {
        match lifted {
            Ok(d) => {
                self.insert_unchecked(d, value);
                Ok(())
            },
            Err(err) => Err(err),
        }
    }

    /// Takes in one entry as it was read: brings the key into its stored
    /// form and appends the pair, or changes nothing and returns the
    /// strategy's error.
    pub fn insert_wire_entry(&mut self, key: K, value: V) -> (r: Result<(), DecodeError>)
        ensures
            match r {
                Ok(_) => exists|d: KS::Des| #[trigger]
                    lifts::<K, KS>(key, Ok(d)) && final(self)@ == old(self)@.push((d, value)),
                Err(err) => lifts::<K, KS>(key, Err(err)) && final(self)@ == old(self)@,
            },
    {
        let lifted = KS::deserialize(key);
        assert(lifts::<K, KS>(key, lifted));
        self.insert_lifted(lifted, value)
    }

    /// Builds the container from entries as they were read, in their order.
    /// The first key that the strategy refuses ends it with that error.
    pub fn from_wire_entries(entries: Vec<(K, V)>) -> (r: Result<Self, DecodeError>)
        ensures
            match r {
                Ok(map) => decodes::<K, V, KS>(entries@, Ok(map@)),
                Err(err) => decodes::<K, V, KS>(entries@, Err(err)),
            },
    {
        let mut map = Self::with_capacity(entries.len());
        let ghost wire = entries@;
        for entry in it: entries
            invariant
                it.seq() == wire,
                reads::<K, V, KS>(wire.take(it.index()), map@),
        {
            let ghost idx = it.index();
            let ghost before = map@;
            let (key, value) = entry;
            match map.insert_wire_entry(key, value) {
                Ok(_) => {
                    assert forall|i: int| 0 <= i < idx + 1 implies lifts::<K, KS>(
                        wire.take(idx + 1)[i].0,
                        Ok((#[trigger] map@[i]).0),
                    ) && map@[i].1 == wire.take(idx + 1)[i].1 by {
                        if i < idx {
                            assert(map@[i] == before[i]);
                            assert(wire.take(idx + 1)[i] == wire.take(idx)[i]);
                        }
                    }
                },
                Err(err) => {
                    assert forall|j: int| 0 <= j < idx implies accepted::<K, KS>(
                        (#[trigger] wire[j]).0,
                    ) by {
                        assert(wire.take(idx)[j] == wire[j]);
                        assert(lifts::<K, KS>(wire[j].0, Ok(before[j].0)));
                    }
                    assert(refused_at::<K, V, KS>(wire, idx, err));
                    return Err(err);
                },
            }
        }
        assert(wire.take(wire.len() as int) == wire);
        Ok(map)
    }
}

/// The shape that a reader asks of its source, in words for the error of a
/// source that is shaped otherwise.
pub fn expecting() -> (shape: &'static str)
    ensures
        shape@ == "a map"@,
{
    "a map"
}

/// Writing and reading back gives the pairs again, in their order, under
/// any strategy that brings each wire form it gives for a key of the pairs
/// back to that key.
pub proof fn lemma_round_trip<K, V, KS: SerdeMapStrategy<K>>(
    pairs: Seq<(KS::Des, V)>,
    wire: Seq<(K, V)>,
    r: Result<Seq<(KS::Des, V)>, DecodeError>,
)
    requires
        encodes::<K, V, KS>(pairs, wire),
        decodes::<K, V, KS>(wire, r),
        forall|i: int, w: K, lifted: Result<KS::Des, DecodeError>|
            0 <= i < pairs.len() && #[trigger] projects::<K, KS>(pairs[i].0, w) && #[trigger] lifts::<
                K,
                KS,
            >(w, lifted) ==> lifted == Ok::<KS::Des, DecodeError>(pairs[i].0),
    ensures
        r == Ok::<Seq<(KS::Des, V)>, DecodeError>(pairs),
{
    match r {
        Ok(read) => {
            assert forall|i: int| 0 <= i < pairs.len() implies read[i] == pairs[i] by {
                assert(projects::<K, KS>(pairs[i].0, wire[i].0));
                assert(lifts::<K, KS>(wire[i].0, Ok(read[i].0)));
            }
            assert(read =~= pairs);
        },
        Err(err) => {
            let i = choose|i: int| refused_at::<K, V, KS>(wire, i, err);
            assert(lifts::<K, KS>(wire[i].0, Err(err)));
            assert(projects::<K, KS>(pairs[i].0, wire[i].0));
        },
    }
}

/// With the strategy that stores keys as they are on the wire, writing a
/// container and reading it back gives the same pairs in the same order.
pub proof fn lemma_linear_round_trip<K, V>(
    pairs: Seq<(K, V)>,
    wire: Seq<(K, V)>,
    r: Result<Seq<(K, V)>, DecodeError>,
)
    requires
        encodes::<K, V, Linear>(pairs, wire),
        decodes::<K, V, Linear>(wire, r),
    ensures
        wire == pairs,
        r == Ok::<Seq<(K, V)>, DecodeError>(pairs),
{
    lemma_round_trip::<K, V, Linear>(pairs, wire, r);
    assert(wire =~= pairs);
}

} // verus!
