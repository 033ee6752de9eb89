//! A reference model of the destination store: a map from keys to values
//! under last-write-wins "SET" semantics.  It gives the batched writes their
//! meaning, and re-ingesting the same entries is proved to leave the state
//! unchanged.

use vstd::prelude::*;

use crate::record::entry_views;

verus! {

/// The store state after applying the entries in order, each one a
/// last-write-wins "SET".
pub open spec fn apply_entries(
    m: Map<Seq<char>, Seq<u8>>,
    es: Seq<(Seq<char>, Seq<u8>)>,
) -> Map<Seq<char>, Seq<u8>>
    decreases es.len(),
{
    if es.len() == 0 {
        m
    } else {
        apply_entries(m.insert(es[0].0, es[0].1), es.drop_first())
    }
}

/// The value the last entry with key `k` writes, if there is one.
pub open spec fn last_value(es: Seq<(Seq<char>, Seq<u8>)>, k: Seq<char>) -> Option<Seq<u8>>
    decreases es.len(),
{
    if es.len() == 0 {
        None
    } else {
        let rest = last_value(es.drop_first(), k);
        if rest is Some {
            rest
        } else if es[0].0 == k {
            Some(es[0].1)
        } else {
            None
        }
    }
}

/// After applying the entries, a key holds the last value written for it,
/// and a key no entry writes keeps what it held before.
pub proof fn lemma_apply_lookup(
    m: Map<Seq<char>, Seq<u8>>,
    es: Seq<(Seq<char>, Seq<u8>)>,
    k: Seq<char>,
)
    ensures
        last_value(es, k) matches Some(v) ==> apply_entries(m, es).contains_key(k)
            && apply_entries(m, es)[k] == v,
        last_value(es, k) is None ==> (apply_entries(m, es).contains_key(k) <==> m.contains_key(
            k,
        )) && (m.contains_key(k) ==> apply_entries(m, es)[k] == m[k]),
    decreases es.len(),
{
    if es.len() > 0 {
        lemma_apply_lookup(m.insert(es[0].0, es[0].1), es.drop_first(), k);
    }
}

/// Re-ingesting an unchanged sequence of entries leaves the store state it
/// produced the first time unchanged.
pub proof fn lemma_reingest_same_state(
    m: Map<Seq<char>, Seq<u8>>,
    es: Seq<(Seq<char>, Seq<u8>)>,
)
    ensures
        apply_entries(apply_entries(m, es), es) == apply_entries(m, es),
{
    let once = apply_entries(m, es);
    let twice = apply_entries(once, es);
    assert forall|k: Seq<char>| #[trigger] twice.contains_key(k) <==> once.contains_key(k) by {
        lemma_apply_lookup(m, es, k);
        lemma_apply_lookup(once, es, k);
    }
    assert forall|k: Seq<char>| once.contains_key(k) implies #[trigger] twice[k] == once[k] by {
        lemma_apply_lookup(m, es, k);
        lemma_apply_lookup(once, es, k);
    }
    assert(twice =~= once);
}

/// An executable image of the store state, for checking runs against the
/// model: the pairs pushed so far, later pushes overriding earlier ones.
#[derive(Debug, Clone, PartialEq, Eq)]
pub struct StoreModel {
    pub pairs: Vec<(String, Vec<u8>)>,
}

/// The map a pushed-pair history denotes: each pair inserted in order.
pub open spec fn assoc_map(ps: Seq<(String, Vec<u8>)>) -> Map<Seq<char>, Seq<u8>>
    decreases ps.len(),
{
    if ps.len() == 0 {
        Map::empty()
    } else {
        assoc_map(ps.drop_last()).insert(ps.last().0@, ps.last().1@)
    }
}

impl StoreModel {
    /// The store state this image denotes.
    pub open spec fn state(self) -> Map<Seq<char>, Seq<u8>> {
        assoc_map(self.pairs@)
    }

    /// An empty store.
    pub fn new() -> (s: StoreModel)
        ensures
            s.state() == Map::<Seq<char>, Seq<u8>>::empty(),
    {
        StoreModel { pairs: Vec::new() }
    }

    /// One "SET key value": the key now holds this value.
    pub fn set(&mut self, key: String, value: Vec<u8>)
        ensures
            final(self).state() == old(self).state().insert(key@, value@),
    {
        let ghost before = self.pairs@;
        self.pairs.push((key, value));
        proof {
            assert(self.pairs@.drop_last() =~= before);
        }
    }

    /// The value the key holds, if it holds one.
    pub fn get(&self, key: &String) -> (r: Option<&Vec<u8>>)
        ensures
            match r {
                Some(v) => self.state().contains_key(key@) && v@ == self.state()[key@],
                None => !self.state().contains_key(key@),
            },
    {
        let mut j = self.pairs.len();
        proof {
            assert(self.pairs@.take(j as int) =~= self.pairs@);
        }
        while j > 0
            invariant
                j <= self.pairs@.len(),
                self.state().contains_key(key@) <==> assoc_map(
                    self.pairs@.take(j as int),
                ).contains_key(key@),
                self.state().contains_key(key@) ==> self.state()[key@] == assoc_map(
                    self.pairs@.take(j as int),
                )[key@],
            decreases j,
        {
            proof {
                assert(self.pairs@.take(j as int).last() == self.pairs@[j - 1]);
                assert(self.pairs@.take(j as int).drop_last() =~= self.pairs@.take(j - 1));
            }
            if self.pairs[j - 1].0.eq(key) {
                return Some(&self.pairs[j - 1].1);
            }
            j = j - 1;
        }
        None
    }

    /// Applies a shard's write entries in order.
    pub fn apply(&mut self, entries: &Vec<(String, Vec<u8>)>)
        ensures
            final(self).state() == apply_entries(old(self).state(), entry_views(entries@)),
    {
        let ghost es = entry_views(entries@);
        let mut i: usize = 0;
        proof {
            assert(es.skip(0) =~= es);
        }
        while i < entries.len()
            invariant
                i <= entries@.len(),
                es == entry_views(entries@),
                apply_entries(old(self).state(), es) == apply_entries(
                    self.state(),
                    es.skip(i as int),
                ),
            decreases entries@.len() - i,
        {
            let key = entries[i].0.clone();
            let value = entries[i].1.clone();
            proof {
                assert(es[i as int] == (entries@[i as int].0@, entries@[i as int].1@));
                assert(key@ == entries@[i as int].0@);
                assert(forall|q: int|
                    0 <= q < value@.len() ==> value@[q] == entries@[i as int].1@[q]);
                assert(value@ =~= entries@[i as int].1@);
                assert(es.skip(i as int)[0] == es[i as int]);
                assert(es.skip(i as int).drop_first() =~= es.skip(i as int + 1));
            }
            self.set(key, value);
            i = i + 1;
        }
        proof {
            assert(es.skip(es.len() as int) =~= Seq::<(Seq<char>, Seq<u8>)>::empty());
        }
    }
}

} // verus!
