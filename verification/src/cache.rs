//! The transposition cache: memoized material scores keyed by position hash.
//!
//! Only the depth-independent material evaluation is ever cached, so a hit is
//! correct in any search context; a full search result is never stored, since
//! a value found under narrower bounds or a shallower depth would not be
//! safely reusable.

use vstd::prelude::*;

use crate::adapter::board_key;
use crate::adapter::position_key;
use crate::eval::evaluation;
use crate::eval::spec_material;

verus! {

broadcast use vstd::std_specs::hash::group_hash_axioms;

/// The canonical key is trusted to identify a position's material: two
/// positions with the same key have the same material score. The rules
/// engine owes this to the cache; a hash collision that breaks it is an
/// accepted, unmitigated risk of memoization by hash.
pub open spec fn key_determines_material() -> bool {
    forall|b1: chess::Board, b2: chess::Board|
        #[trigger] position_key(b1) == #[trigger] position_key(b2) ==> spec_material(b1)
            == spec_material(b2)
}

/// A cached pairing holds the material score of some position with that key.
pub open spec fn records_material(k: u64, v: i32) -> bool {
    exists|bd: chess::Board| #[trigger] position_key(bd) == k && v as int == spec_material(bd)
}

/// An unbounded mapping from position hash to cached score. No eviction, no
/// expiry: an entry, once written, is authoritative for the rest of the run.
pub struct TranspositionCache {
    table: std::collections::HashMap<u64, i32>,
}

impl TranspositionCache {
    /// The entries currently held, as a mathematical map.
    pub closed spec fn entries(self) -> Map<u64, i32> {
        self.table@
    }

    /// Every entry ever written came from evaluating a position with that
    /// key, so the cache only ever hands back true material scores.
    pub open spec fn wf(self) -> bool {
        forall|k: u64| #[trigger]
            self.entries().contains_key(k) ==> records_material(k, self.entries()[k])
    }

    /// Makes an empty cache.
    pub fn new() -> (c: Self)
        ensures
            c.wf(),
            c.entries() == Map::<u64, i32>::empty(),
    {
        TranspositionCache { table: std::collections::HashMap::new() }
    }

    /// How many positions have been cached.
    pub fn len(&self) -> (n: usize)
        ensures
            n == self.entries().len(),
    {
        self.table.len()
    }

    /// Looks a position hash up: the cached score, if one was recorded.
    pub fn lookup(&self, key: u64) -> (r: Option<i32>)
        ensures
            match r {
                Some(s) => self.entries().contains_key(key) && s == self.entries()[key],
                None => !self.entries().contains_key(key),
            },
    {
        match self.table.get(&key) {
            Some(v) => Some(*v),
            None => None,
        }
    }

    /// Records a score for a position hash, overwriting unconditionally.
    pub fn insert(&mut self, key: u64, score: i32)
        ensures
            final(self).entries() == old(self).entries().insert(key, score),
    {
        self.table.insert(key, score);
    }
}

/// The caching variant of the evaluator: consult the cache first, return a
/// hit unchanged, and otherwise compute the material score and record it.
pub fn evaluation_cached(b: &chess::Board, cache: &mut TranspositionCache) -> (s: i32)
    requires
        old(cache).wf(),
        key_determines_material(),
    ensures
        final(cache).wf(),
        s as int == spec_material(*b),
{
    let key = board_key(b);
    match cache.lookup(key) {
        Some(v) => {
            proof {
                assert(records_material(key, v));
                let bd = choose|bd: chess::Board|
                    #[trigger] position_key(bd) == key && v as int == spec_material(bd);
                assert(position_key(bd) == position_key(*b));
                assert(spec_material(bd) == spec_material(*b));
            }
            v
        },
        None => {
            let s = evaluation(b);
            cache.insert(key, s);
            proof {
                assert(records_material(key, s)) by {
                    assert(position_key(*b) == key && s as int == spec_material(*b));
                }
                assert forall|k: u64| #[trigger]
                    cache.entries().contains_key(k) implies records_material(
                    k,
                    cache.entries()[k],
                ) by {
                    if k != key {
                        assert(old(cache).entries().contains_key(k));
                    }
                }
            }
            s
        },
    }
}

/// The evaluator handed to the searcher: the plain material evaluation,
/// optionally short-circuited through a transposition cache.
pub struct Evaluator {
    use_cache: bool,
    cache: TranspositionCache,
}

impl Evaluator {
    /// Whether this evaluator consults and fills its cache.
    pub closed spec fn caching(self) -> bool {
        self.use_cache
    }

    /// The evaluator's cache entries.
    pub closed spec fn entries(self) -> Map<u64, i32> {
        self.cache.entries()
    }

    /// The evaluator's cache only ever holds true material scores.
    pub closed spec fn wf(self) -> bool {
        self.cache.wf()
    }

    /// An evaluator with caching disabled.
    pub fn new() -> (ev: Self)
        ensures
            ev.wf(),
            !ev.caching(),
    {
        Evaluator { use_cache: false, cache: TranspositionCache::new() }
    }

    /// An evaluator with caching enabled, starting from an empty cache.
    pub fn with_cache() -> (ev: Self)
        ensures
            ev.wf(),
            ev.caching(),
            ev.entries() == Map::<u64, i32>::empty(),
    {
        Evaluator { use_cache: true, cache: TranspositionCache::new() }
    }

    /// How many positions this evaluator has cached.
    pub fn cached_count(&self) -> (n: usize)
        ensures
            n == self.entries().len(),
    {
        self.cache.len()
    }

    /// Scores a position: exactly the material evaluation, whether or not
    /// the cache was consulted on the way.
    pub fn evaluate(&mut self, b: &chess::Board) -> (s: i32)
        requires
            old(self).wf(),
            old(self).caching() ==> key_determines_material(),
        ensures
            final(self).wf(),
            final(self).caching() == old(self).caching(),
            s as int == spec_material(*b),
    {
        if self.use_cache {
            evaluation_cached(b, &mut self.cache)
        } else {
            evaluation(b)
        }
    }
}

} // verus!
