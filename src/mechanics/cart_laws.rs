//! The newest cart never repeats an id when the catalog's ids are distinct.
use vstd::prelude::*;

use super::hashing::day_hash_seed;
use super::traveling_cart::{
    cart_for_day, key_position, min_position, price_draws, priced, qualified, select_ascending,
    shuffle_candidates, shuffle_eligible, CartObject,
};
use crate::rng::cs_random::{advance, init_state, raw, RngState};
use crate::version::GameVersion;

verus! {

/// No two candidates share a catalog index.
pub open spec fn indices_distinct(c: Seq<(i32, usize)>) -> bool {
    forall|a: int, b: int| 0 <= a < b < c.len() ==> c[a].1 != c[b].1
}

/// The entry is one of the first `n` candidates.
pub open spec fn among(c: Seq<(i32, usize)>, n: int, e: (i32, usize)) -> bool {
    exists|k: int| 0 <= k < n && c[k] == e
}

/// Some candidate has the catalog index.
pub open spec fn index_among(c: Seq<(i32, usize)>, idx: usize) -> bool {
    exists|j: int| 0 <= j < c.len() && c[j].1 == idx
}

proof fn lemma_key_position_range(c: Seq<(i32, usize)>, key: i32)
    ensures
        -1 <= key_position(c, key) < c.len(),
        key_position(c, key) >= 0 ==> c[key_position(c, key)].0 == key,
    decreases c.len(),
{
    if c.len() > 0 {
        lemma_key_position_range(c.drop_last(), key);
    }
}

proof fn lemma_candidates_distinct(catalog: Seq<CartObject>, s0: RngState, n: nat)
    requires
        n <= usize::MAX,
    ensures
        indices_distinct(shuffle_candidates(catalog, s0, n)),
        forall|a: int|
            0 <= a < shuffle_candidates(catalog, s0, n).len() ==> #[trigger] shuffle_candidates(catalog, s0, n)[a].1 < n,
    decreases n,
{
    if n > 0 {
        lemma_candidates_distinct(catalog, s0, (n - 1) as nat);
        let prev = shuffle_candidates(catalog, s0, (n - 1) as nat);
        let i = (n - 1) as int;
        let key = raw(advance(s0, i as nat)) as i32;
        lemma_key_position_range(prev, key);
        let c = shuffle_candidates(catalog, s0, n);
        let e = (key, i as usize);
        assert(e.1 == n - 1);
        if !shuffle_eligible(catalog[i]) {
            assert(c == prev);
        } else if key_position(prev, key) >= 0 {
            let kp = key_position(prev, key);
            assert(c == prev.update(kp, e));
            assert forall|a: int, b: int| 0 <= a < b < c.len() implies c[a].1 != c[b].1 by {
                if a == kp {
                    assert(c[b] == prev[b]);
                    assert(prev[b].1 < n - 1);
                } else if b == kp {
                    assert(c[a] == prev[a]);
                    assert(prev[a].1 < n - 1);
                } else {
                    assert(c[a] == prev[a]);
                    assert(c[b] == prev[b]);
                }
            }
            assert forall|a: int| 0 <= a < c.len() implies #[trigger] c[a].1 < n by {
                if a != kp {
                    assert(c[a] == prev[a]);
                }
            }
        } else {
            assert(c == prev.push(e));
            assert forall|a: int, b: int| 0 <= a < b < c.len() implies c[a].1 != c[b].1 by {
                assert(c[a] == prev[a]);
                assert(prev[a].1 < n - 1);
                if b < prev.len() {
                    assert(c[b] == prev[b]);
                }
            }
            assert forall|a: int| 0 <= a < c.len() implies #[trigger] c[a].1 < n by {
                if a < prev.len() {
                    assert(c[a] == prev[a]);
                }
            }
        }
    }
}

proof fn lemma_qualified_from(catalog: Seq<CartObject>, c: Seq<(i32, usize)>, n: nat)
    requires
        n <= c.len(),
        indices_distinct(c),
    ensures
        indices_distinct(qualified(catalog, c, n)),
        forall|a: int|
            0 <= a < qualified(catalog, c, n).len() ==> #[trigger] among(c, n as int, qualified(catalog, c, n)[a]),
        forall|a: int|
            0 <= a < qualified(catalog, c, n).len() ==> #[trigger] qualified(catalog, c, n)[a].1 < catalog.len(),
    decreases n,
{
    if n > 0 {
        lemma_qualified_from(catalog, c, (n - 1) as nat);
        let prev = qualified(catalog, c, (n - 1) as nat);
        let q = qualified(catalog, c, n);
        assert forall|a: int| 0 <= a < q.len() implies #[trigger] among(c, n as int, q[a]) by {
            if a < prev.len() {
                assert(among(c, n - 1, prev[a]));
                let k = choose|k: int| 0 <= k < n - 1 && c[k] == prev[a];
                assert(c[k] == q[a]);
            } else {
                assert(c[n - 1] == q[a]);
            }
        }
        assert forall|a: int, b: int| 0 <= a < b < q.len() implies q[a].1 != q[b].1 by {
            if b >= prev.len() {
                assert(among(c, n - 1, prev[a]));
                let k = choose|k: int| 0 <= k < n - 1 && c[k] == prev[a];
                assert(q[a] == c[k]);
                assert(q[b] == c[n - 1]);
            }
        }
    }
}

proof fn lemma_min_position_range(c: Seq<(i32, usize)>)
    requires
        c.len() > 0,
    ensures
        0 <= min_position(c) < c.len(),
    decreases c.len(),
{
    if c.len() > 1 {
        lemma_min_position_range(c.drop_last());
    }
}

proof fn lemma_select_distinct(c: Seq<(i32, usize)>, k: nat)
    requires
        indices_distinct(c),
    ensures
        forall|a: int, b: int|
            0 <= a < b < select_ascending(c, k).len() ==> select_ascending(c, k)[a] != select_ascending(c, k)[b],
        forall|a: int|
            0 <= a < select_ascending(c, k).len() ==> #[trigger] index_among(c, select_ascending(c, k)[a]),
    decreases k,
{
    if k > 0 && c.len() > 0 {
        let m = min_position(c);
        lemma_min_position_range(c);
        let rest = c.remove(m);
        assert forall|a: int, b: int| 0 <= a < b < rest.len() implies rest[a].1 != rest[b].1 by {
            let ia = if a < m { a } else { a + 1 };
            let ib = if b < m { b } else { b + 1 };
            assert(rest[a] == c[ia]);
            assert(rest[b] == c[ib]);
        }
        lemma_select_distinct(rest, (k - 1) as nat);
        let tail = select_ascending(rest, (k - 1) as nat);
        let all = select_ascending(c, k);
        assert(all == seq![c[m].1] + tail);
        assert forall|a: int| 0 <= a < tail.len() implies tail[a] != c[m].1 && #[trigger] index_among(c, tail[a]) by {
            assert(index_among(rest, tail[a]));
            let j = choose|j: int| 0 <= j < rest.len() && rest[j].1 == tail[a];
            let jj = if j < m { j } else { j + 1 };
            assert(rest[j] == c[jj]);
            assert(c[jj].1 == tail[a]);
            assert(jj != m);
            if jj < m {
                assert(c[jj].1 != c[m].1);
            } else {
                assert(c[m].1 != c[jj].1);
            }
        }
        assert forall|a: int| 0 <= a < all.len() implies #[trigger] index_among(c, all[a]) by {
            if a > 0 {
                assert(all[a] == tail[a - 1]);
                assert(index_among(c, tail[a - 1]));
            } else {
                assert(c[m].1 == all[a]);
            }
        }
        assert forall|a: int, b: int| 0 <= a < b < all.len() implies all[a] != all[b] by {
            assert(all[b] == tail[b - 1]);
            if a > 0 {
                assert(all[a] == tail[a - 1]);
            } else {
                let x = tail[b - 1];
                assert(index_among(rest, x));
                let j = choose|j: int| 0 <= j < rest.len() && rest[j].1 == x;
                let jj = if j < m { j } else { j + 1 };
                assert(rest[j] == c[jj]);
                if jj < m {
                    assert(c[jj].1 != c[m].1);
                } else {
                    assert(c[m].1 != c[jj].1);
                }
            }
        }
    }
}

proof fn lemma_priced_ids(catalog: Seq<CartObject>, s: RngState, sel: Seq<usize>)
    ensures
        priced(catalog, s, sel).len() == sel.len(),
        forall|j: int| 0 <= j < sel.len() ==> #[trigger] priced(catalog, s, sel)[j].item_id == catalog[sel[j] as int].id,
    decreases sel.len(),
{
    if sel.len() > 0 {
        let o = catalog[sel[0] as int];
        let (price, quantity, s1) = price_draws(s, o.price as int);
        lemma_priced_ids(catalog, s1, sel.drop_first());
        let all = priced(catalog, s, sel);
        assert forall|j: int| 0 <= j < sel.len() implies #[trigger] all[j].item_id == catalog[sel[j] as int].id by {
            if j > 0 {
                assert(all[j] == priced(catalog, s1, sel.drop_first())[j - 1]);
                assert(sel.drop_first()[j - 1] == sel[j]);
            }
        }
    }
}

/// With a catalog whose ids are distinct, the newest cart never stocks an
/// id twice.
pub proof fn lemma_newest_cart_distinct(catalog: Seq<CartObject>, game_id: i32, day: i32)
    requires
        catalog.len() <= usize::MAX,
        forall|a: int, b: int| 0 <= a < b < catalog.len() ==> catalog[a].id != catalog[b].id,
    ensures
        forall|i: int, j: int|
            0 <= i < j < cart_for_day(catalog, game_id, day, GameVersion::V1_6).len() ==> cart_for_day(
                catalog,
                game_id,
                day,
                GameVersion::V1_6,
            )[i].item_id != cart_for_day(catalog, game_id, day, GameVersion::V1_6)[j].item_id,
{
    reveal(cart_for_day);
    let s0 = init_state(day_hash_seed(day, game_id));
    let c = shuffle_candidates(catalog, s0, catalog.len());
    lemma_candidates_distinct(catalog, s0, catalog.len());
    let q = qualified(catalog, c, c.len());
    lemma_qualified_from(catalog, c, c.len());
    let sel = select_ascending(q, 10);
    lemma_select_distinct(q, 10);
    let items = priced(catalog, advance(s0, catalog.len()), sel);
    lemma_priced_ids(catalog, advance(s0, catalog.len()), sel);
    assert forall|i: int, j: int| 0 <= i < j < items.len() implies items[i].item_id != items[j].item_id by {
        assert(index_among(q, sel[i]));
        assert(index_among(q, sel[j]));
        let ji = choose|x: int| 0 <= x < q.len() && q[x].1 == sel[i];
        let jj = choose|x: int| 0 <= x < q.len() && q[x].1 == sel[j];
        assert(q[ji].1 < catalog.len());
        assert(q[jj].1 < catalog.len());
        assert(sel[i] < catalog.len());
        assert(sel[j] < catalog.len());
        assert(sel[i] != sel[j]);
        if sel[i] < sel[j] {
            assert(catalog[sel[i] as int].id != catalog[sel[j] as int].id);
        } else {
            assert(catalog[sel[j] as int].id != catalog[sel[i] as int].id);
        }
    }
}

} // verus!
