//! Seed search: a filter tree evaluated on each seed of a range, in
//! ascending order, up to a number of matches.
use vstd::prelude::*;

pub mod evaluate;
pub mod filter;

pub use evaluate::{evaluate_filter, filter_holds, lemma_luck_filter_round_trip};
pub use filter::{FilterCondition, FilterNode};

use crate::mechanics::traveling_cart::CartObject;
use crate::version::GameVersion;

verus! {

/// The seeds of `[lo, hi]` that the filter accepts, in ascending order.
pub open spec fn matches_in(
    filter: FilterNode,
    lo: int,
    hi: int,
    version: GameVersion,
    catalog: Seq<CartObject>,
) -> Seq<i32>
    decreases hi - lo + 1,
{
    if hi < lo {
        Seq::empty()
    } else {
        let rest = matches_in(filter, lo, hi - 1, version, catalog);
        if filter_holds(hi as i32, filter, version, catalog) {
            rest.push(hi as i32)
        } else {
            rest
        }
    }
}

/// The first `max_results` matches of `[lo, hi]`.
pub open spec fn capped_matches(
    filter: FilterNode,
    lo: int,
    hi: int,
    max_results: int,
    version: GameVersion,
    catalog: Seq<CartObject>,
) -> Seq<i32> {
    let all = matches_in(filter, lo, hi, version, catalog);
    if all.len() <= max_results {
        all
    } else {
        all.take(max_results)
    }
}

proof fn lemma_matches_prefix(
    filter: FilterNode,
    lo: int,
    x: int,
    hi: int,
    version: GameVersion,
    catalog: Seq<CartObject>,
)
    requires
        x <= hi,
    ensures
        matches_in(filter, lo, x, version, catalog).len() <= matches_in(filter, lo, hi, version, catalog).len(),
        matches_in(filter, lo, hi, version, catalog).take(matches_in(filter, lo, x, version, catalog).len() as int)
            == matches_in(filter, lo, x, version, catalog),
    decreases hi - x,
{
    let short = matches_in(filter, lo, x, version, catalog);
    if x == hi {
        assert(short.take(short.len() as int) =~= short);
    } else {
        lemma_matches_prefix(filter, lo, x, hi - 1, version, catalog);
        let mid = matches_in(filter, lo, hi - 1, version, catalog);
        let long = matches_in(filter, lo, hi, version, catalog);
        if hi >= lo {
            assert(long.take(short.len() as int) =~= mid.take(short.len() as int));
        }
    }
}

/// The first `max_results` seeds of `[start_seed, end_seed]` that the filter
/// accepts, in ascending order.
pub fn search_seeds(
    filter: &FilterNode,
    start_seed: i32,
    end_seed: i32,
    max_results: u32,
    version: GameVersion,
    catalog: &[CartObject],
) -> (r: Vec<i32>)
    ensures
        r@ == capped_matches(*filter, start_seed as int, end_seed as int, max_results as int, version, catalog@),
{
    let mut found: Vec<i32> = Vec::new();
    let mut seed: i64 = start_seed as i64;
    while seed <= end_seed as i64
        invariant
            start_seed <= seed <= end_seed + 1 || (start_seed > end_seed && seed == start_seed),
            found@ == matches_in(*filter, start_seed as int, seed - 1, version, catalog@),
            found@.len() < max_results || (found@.len() == 0 && max_results == 0),
        decreases end_seed + 1 - seed,
    {
        if found.len() >= max_results as usize {
            proof {
                lemma_matches_prefix(*filter, start_seed as int, seed - 1, end_seed as int, version, catalog@);
            }
            return found;
        }
        if evaluate_filter(seed as i32, filter, version, catalog) {
            found.push(seed as i32);
        }
        seed = seed + 1;
        if found.len() >= max_results as usize {
            proof {
                lemma_matches_prefix(*filter, start_seed as int, seed - 1, end_seed as int, version, catalog@);
            }
            return found;
        }
    }
    found
}

/// A search in progress over a seed range, for hosts that report progress
/// and may stop between seeds.
pub struct SearchCursor {
    /// The next seed to evaluate.
    pub next_seed: i64,
    /// The last seed of the range.
    pub end_seed: i64,
    pub max_results: u32,
    /// Matches found so far.
    pub matches: u32,
    /// Seeds evaluated so far.
    pub checked: u64,
}

impl SearchCursor {
    /// A search of `[start_seed, end_seed]` that stops after `max_results`
    /// matches.
    pub fn new(start_seed: i32, end_seed: i32, max_results: u32) -> (r: SearchCursor)
        ensures
            r.next_seed == start_seed,
            r.end_seed == end_seed,
            r.max_results == max_results,
            r.matches == 0,
            r.checked == 0,
    {
        SearchCursor {
            next_seed: start_seed as i64,
            end_seed: end_seed as i64,
            max_results,
            matches: 0,
            checked: 0,
        }
    }

    /// Whether the range is exhausted or enough matches were found.
    pub fn is_finished(&self) -> (r: bool)
        ensures
            r == (self.next_seed > self.end_seed || self.matches >= self.max_results),
    {
        self.next_seed > self.end_seed || self.matches >= self.max_results
    }

    /// Evaluates the next seed and moves past it; gives the seed if it
    /// matches.
    pub fn step(&mut self, filter: &FilterNode, version: GameVersion, catalog: &[CartObject]) -> (r: Option<i32>)
        requires
            !(old(self).next_seed > old(self).end_seed || old(self).matches >= old(self).max_results),
            i32::MIN <= old(self).next_seed,
            old(self).end_seed <= i32::MAX,
            old(self).checked < u64::MAX,
        ensures
            r == (if filter_holds(old(self).next_seed as i32, *filter, version, catalog@) {
                Some(old(self).next_seed as i32)
            } else {
                None
            }),
            final(self).next_seed == old(self).next_seed + 1,
            final(self).end_seed == old(self).end_seed,
            final(self).max_results == old(self).max_results,
            final(self).checked == old(self).checked + 1,
            final(self).matches == old(self).matches + (if r is Some {
                1int
            } else {
                0int
            }),
    {
        let seed = self.next_seed as i32;
        let hit = evaluate_filter(seed, filter, version, catalog);
        self.next_seed = self.next_seed + 1;
        self.checked = self.checked + 1;
        if hit {
            self.matches = self.matches + 1;
            Some(seed)
        } else {
            None
        }
    }
}

} // verus!
