//! The traveling merchant's stock: three algorithms, by version. Item base
//! prices and categories come from the game's object catalog, which the
//! caller supplies.
use vstd::prelude::*;

use super::cart_tables::{CART_ITEMS_1_4, CART_ROLL_TO_ID_PRE14};
use super::hashing::{day_hash_seed, hash_seed};
use crate::rng::cs_random::{advance, below, init_state, next_state, pick, raw, well_formed, RngState};
use crate::rng::{int_overflow, CSRandom};
use crate::version::GameVersion;

verus! {


/// One object of the game's catalog, as the cart sees it.
#[derive(Clone, Copy, Debug, PartialEq, Eq, Structural, Hash)]
pub struct CartObject {
    pub id: i32,
    /// The base price; 0 means the object is never sold.
    pub price: i32,
    /// Excluded from random sales.
    pub offlimits: bool,
    pub category: i32,
    /// Of a type the cart never sells (artifacts, minerals, quest items).
    pub type_excluded: bool,
}

/// An item of the cart's stock.
#[derive(Clone, Copy, Debug, PartialEq, Eq, Structural, Hash)]
pub struct CartItem {
    pub item_id: i32,
    pub price: i32,
    pub quantity: i32,
}

pub open spec fn valid_cart_item_1_4(id: i32) -> bool {
    CART_ITEMS_1_4@.contains(id)
}

/// Whether the mid-era cart may stock an item.
pub fn is_valid_cart_item_1_4(item_id: i32) -> (r: bool)
    ensures
        r == valid_cart_item_1_4(item_id),
{
    let mut i: usize = 0;
    while i < 335
        invariant
            i <= 335,
            forall|k: int| 0 <= k < i ==> CART_ITEMS_1_4@[k] != item_id,
        decreases 335 - i,
    {
        if CART_ITEMS_1_4[i] == item_id {
            assert(CART_ITEMS_1_4@[i as int] == item_id);
            return true;
        }
        i = i + 1;
    }
    false
}

/// The base price of the first catalog object from index `i` on with the
/// id, or 0 if there is none.
pub open spec fn base_price_from(catalog: Seq<CartObject>, id: i32, i: int) -> int
    decreases catalog.len() - i,
{
    if i < 0 || i >= catalog.len() {
        0
    } else if catalog[i].id == id {
        catalog[i].price as int
    } else {
        base_price_from(catalog, id, i + 1)
    }
}

pub open spec fn base_price(catalog: Seq<CartObject>, id: i32) -> int {
    base_price_from(catalog, id, 0)
}

/// The base price of an item, from the first catalog object with its id.
fn get_item_base_price(catalog: &[CartObject], item_id: i32) -> (r: i32)
    ensures
        r == base_price(catalog@, item_id),
{
    let mut i: usize = 0;
    while i < catalog.len()
        invariant
            i <= catalog@.len(),
            base_price(catalog@, item_id) == base_price_from(catalog@, item_id, i as int),
        decreases catalog@.len() - i,
    {
        if catalog[i].id == item_id {
            return catalog[i].price;
        }
        i = i + 1;
    }
    0
}

/// The price and quantity draws of a slot: the larger of `100 * [1, 11)`
/// and `[3, 6) * base` (32-bit), then a quantity of 5 at 10%, else 1.
pub open spec fn price_draws(s: RngState, base: int) -> (int, int, RngState) {
    let random_price = pick(s, 1, 11) * 100;
    let s1 = next_state(s);
    let scaled_price = (pick(s1, 3, 6) * base) as i32 as int;
    let s2 = next_state(s1);
    let price = if random_price >= scaled_price {
        random_price
    } else {
        scaled_price
    };
    let quantity = if below(s2, 1, 10) {
        5
    } else {
        1
    };
    (price, quantity, next_state(s2))
}

pub open spec fn cart_item(id: i32, price: int, quantity: int) -> CartItem {
    CartItem { item_id: id, price: price as i32, quantity: quantity as i32 }
}

fn draw_price(rng: &mut CSRandom, base_price: i32) -> (r: (i32, i32))
    requires
        well_formed(old(rng)@),
    ensures
        well_formed(final(rng)@),
        price_draws(old(rng)@, base_price as int) == (r.0 as int, r.1 as int, final(rng)@),
{
    let random_price = rng.next_range(1, 11) * 100;
    let factor = rng.next_range(3, 6) as i64;
    let base = base_price as i64;
    assert(-10737418240 <= factor * base <= 10737418235) by (nonlinear_arith)
        requires
            3 <= factor < 6,
            -2147483648 <= base <= 2147483647,
    ;
    let scaled_price = int_overflow(factor * base);
    let price = if random_price >= scaled_price {
        random_price
    } else {
        scaled_price
    };
    let quantity = if rng.chance(1, 10) {
        5
    } else {
        1
    };
    (price, quantity)
}

/// One slot of the oldest cart: a roll looked up in the roll table.
pub open spec fn pre14_slot(catalog: Seq<CartObject>, s: RngState) -> (CartItem, RngState) {
    let id = CART_ROLL_TO_ID_PRE14@[pick(s, 2, 790) - 2];
    let (price, quantity, s1) = price_draws(next_state(s), base_price(catalog, id));
    (cart_item(id, price, quantity), s1)
}

/// `n` slots of the oldest cart, drawn in turn from `s`.
pub open spec fn pre14_slots(catalog: Seq<CartObject>, s: RngState, n: nat) -> Seq<CartItem>
    decreases n,
{
    if n == 0 {
        Seq::empty()
    } else {
        let (item, s1) = pre14_slot(catalog, s);
        seq![item] + pre14_slots(catalog, s1, (n - 1) as nat)
    }
}

/// The oldest cart: ten independent rolls, duplicates allowed.
fn get_cart_stock_pre14(catalog: &[CartObject], seed: i32) -> (r: Vec<CartItem>)
    ensures
        r@ == pre14_slots(catalog@, init_state(seed), 10),
{
    let mut rng = CSRandom::new(seed);
    let mut stock: Vec<CartItem> = Vec::new();
    let mut i: usize = 0;
    while i < 10
        invariant
            i <= 10,
            well_formed(rng@),
            pre14_slots(catalog@, init_state(seed), 10) == stock@ + pre14_slots(catalog@, rng@, (10 - i) as nat),
        decreases 10 - i,
    {
        let ghost s = rng@;
        let roll = rng.next_range(2, 790);
        let item_id = CART_ROLL_TO_ID_PRE14[(roll - 2) as usize];
        let base_price = get_item_base_price(catalog, item_id);
        let (price, quantity) = draw_price(&mut rng, base_price);
        let item = CartItem { item_id, price, quantity };
        assert(pre14_slots(catalog@, s, (10 - i) as nat) == seq![item] + pre14_slots(catalog@, rng@, (10 - i - 1) as nat));
        let ghost before = stock@;
        stock.push(item);
        assert(before + (seq![item] + pre14_slots(catalog@, rng@, (10 - i - 1) as nat)) =~= stock@
            + pre14_slots(catalog@, rng@, (10 - i - 1) as nat));
        i = i + 1;
    }
    assert(pre14_slots(catalog@, rng@, 0) =~= Seq::<CartItem>::empty());
    assert(stock@ + Seq::<CartItem>::empty() =~= stock@);
    stock
}

/// How many ids a mid-era slot probes at most: the whole id space once.
pub const PROBE_LIMIT: u32 = 790;

/// The mid-era probe: from `id`, try the next id (wrapping at 790) while
/// fuel lasts. Every valid id tried consumes its price draws, also one
/// already in the stock, which is passed over.
pub open spec fn probe(
    catalog: Seq<CartObject>,
    s: RngState,
    id: int,
    seen: Seq<i32>,
    fuel: nat,
) -> (Option<CartItem>, RngState)
    decreases fuel,
{
    if fuel == 0 {
        (None, s)
    } else {
        let next = ((id + 1) % 790) as i32;
        if valid_cart_item_1_4(next) {
            let (price, quantity, s1) = price_draws(s, base_price(catalog, next));
            if !seen.contains(next) {
                (Some(cart_item(next, price, quantity)), s1)
            } else {
                probe(catalog, s1, next as int, seen, (fuel - 1) as nat)
            }
        } else {
            probe(catalog, s, next as int, seen, (fuel - 1) as nat)
        }
    }
}

/// `n` slots of the mid-era cart drawn in turn from `s`, avoiding `seen`.
pub open spec fn probed_slots(catalog: Seq<CartObject>, s: RngState, seen: Seq<i32>, n: nat) -> Seq<CartItem>
    decreases n,
{
    if n == 0 {
        Seq::empty()
    } else {
        let (found, s1) = probe(catalog, next_state(s), pick(s, 2, 790), seen, PROBE_LIMIT as nat);
        match found {
            Some(item) => seq![item] + probed_slots(catalog, s1, seen.push(item.item_id), (n - 1) as nat),
            None => probed_slots(catalog, s1, seen, (n - 1) as nat),
        }
    }
}

fn contains_id(v: &Vec<i32>, x: i32) -> (r: bool)
    ensures
        r == v@.contains(x),
{
    let mut i: usize = 0;
    while i < v.len()
        invariant
            i <= v@.len(),
            forall|k: int| 0 <= k < i ==> v@[k] != x,
        decreases v@.len() - i,
    {
        if v[i] == x {
            assert(v@[i as int] == x);
            return true;
        }
        i = i + 1;
    }
    false
}

fn probe_exec(
    rng: &mut CSRandom,
    catalog: &[CartObject],
    id: i32,
    seen: &Vec<i32>,
    fuel: u32,
) -> (r: Option<CartItem>)
    requires
        well_formed(old(rng)@),
        0 <= id < 790,
    ensures
        well_formed(final(rng)@),
        (r, final(rng)@) == probe(catalog@, old(rng)@, id as int, seen@, fuel as nat),
    decreases fuel,
{
    if fuel == 0 {
        return None;
    }
    let next = (id + 1) % 790;
    if is_valid_cart_item_1_4(next) {
        let base_price = get_item_base_price(catalog, next);
        let (price, quantity) = draw_price(rng, base_price);
        if !contains_id(seen, next) {
            Some(CartItem { item_id: next, price, quantity })
        } else {
            probe_exec(rng, catalog, next, seen, fuel - 1)
        }
    } else {
        probe_exec(rng, catalog, next, seen, fuel - 1)
    }
}

/// The mid-era cart: each slot rolls an id and probes upward for a valid
/// id not yet stocked.
fn get_cart_stock_1_4_plus(catalog: &[CartObject], seed: i32) -> (r: Vec<CartItem>)
    ensures
        r@ == probed_slots(catalog@, init_state(seed), Seq::empty(), 10),
{
    let mut rng = CSRandom::new(seed);
    let mut stock: Vec<CartItem> = Vec::new();
    let mut seen: Vec<i32> = Vec::new();
    let mut i: usize = 0;
    while i < 10
        invariant
            i <= 10,
            well_formed(rng@),
            probed_slots(catalog@, init_state(seed), Seq::empty(), 10) == stock@ + probed_slots(
                catalog@,
                rng@,
                seen@,
                (10 - i) as nat,
            ),
        decreases 10 - i,
    {
        let ghost s = rng@;
        let start = rng.next_range(2, 790);
        let found = probe_exec(&mut rng, catalog, start, &seen, PROBE_LIMIT);
        let ghost rest = probed_slots(catalog@, rng@, seen@, (10 - i - 1) as nat);
        match found {
            Some(item) => {
                let ghost before = stock@;
                assert(before + (seq![item] + probed_slots(catalog@, rng@, seen@.push(item.item_id), (10 - i - 1) as nat))
                    =~= before.push(item) + probed_slots(catalog@, rng@, seen@.push(item.item_id), (10 - i - 1) as nat));
                stock.push(item);
                seen.push(item.item_id);
            },
            None => {},
        }
        i = i + 1;
    }
    assert(stock@ + Seq::<CartItem>::empty() =~= stock@);
    stock
}

proof fn lemma_probe_unseen(catalog: Seq<CartObject>, s: RngState, id: int, seen: Seq<i32>, fuel: nat)
    ensures
        probe(catalog, s, id, seen, fuel).0 matches Some(item) ==> !seen.contains(item.item_id),
    decreases fuel,
{
    if fuel > 0 {
        let next = ((id + 1) % 790) as i32;
        let s1 = price_draws(s, base_price(catalog, next)).2;
        lemma_probe_unseen(catalog, s1, next as int, seen, (fuel - 1) as nat);
        lemma_probe_unseen(catalog, s, next as int, seen, (fuel - 1) as nat);
    }
}

/// No two items share an id, and none has an id of `seen`.
pub open spec fn ids_fresh(items: Seq<CartItem>, seen: Seq<i32>) -> bool {
    &&& forall|i: int, j: int| 0 <= i < j < items.len() ==> items[i].item_id != items[j].item_id
    &&& forall|i: int| 0 <= i < items.len() ==> !seen.contains(#[trigger] items[i].item_id)
}

proof fn lemma_fresh_cons(item: CartItem, rest: Seq<CartItem>, seen: Seq<i32>)
    requires
        !seen.contains(item.item_id),
        ids_fresh(rest, seen.push(item.item_id)),
    ensures
        ids_fresh(seq![item] + rest, seen),
{
    let seen2 = seen.push(item.item_id);
    let all = seq![item] + rest;
    assert forall|i: int| 0 <= i < rest.len() implies !seen.contains(#[trigger] rest[i].item_id)
        && rest[i].item_id != item.item_id by {
        assert(!seen2.contains(rest[i].item_id));
        if seen.contains(rest[i].item_id) {
            let k = choose|k: int| 0 <= k < seen.len() && seen[k] == rest[i].item_id;
            assert(seen2[k] == rest[i].item_id);
        }
        assert(seen2[seen.len() as int] == item.item_id);
    }
    assert forall|i: int| 0 <= i < all.len() implies !seen.contains(#[trigger] all[i].item_id) by {
        if i > 0 {
            assert(all[i] == rest[i - 1]);
        }
    }
    assert forall|i: int, j: int| 0 <= i < j < all.len() implies all[i].item_id != all[j].item_id by {
        assert(all[j] == rest[j - 1]);
        if i > 0 {
            assert(all[i] == rest[i - 1]);
        }
    }
}

/// Slots of the mid-era cart never repeat an id, nor take one of `seen`.
pub proof fn lemma_probed_slots_distinct(catalog: Seq<CartObject>, s: RngState, seen: Seq<i32>, n: nat)
    ensures
        ids_fresh(probed_slots(catalog, s, seen, n), seen),
    decreases n,
{
    if n > 0 {
        let (found, s1) = probe(catalog, next_state(s), pick(s, 2, 790), seen, PROBE_LIMIT as nat);
        lemma_probe_unseen(catalog, next_state(s), pick(s, 2, 790), seen, PROBE_LIMIT as nat);
        match found {
            Some(item) => {
                lemma_probed_slots_distinct(catalog, s1, seen.push(item.item_id), (n - 1) as nat);
                lemma_fresh_cons(item, probed_slots(catalog, s1, seen.push(item.item_id), (n - 1) as nat), seen);
            },
            None => {
                lemma_probed_slots_distinct(catalog, s1, seen, (n - 1) as nat);
            },
        }
    }
}

/// Whether a catalog object enters the newest cart's shuffle: it has a
/// price, is not off limits, and its id lies in `[2, 789]`.
pub open spec fn shuffle_eligible(o: CartObject) -> bool {
    o.price != 0 && !o.offlimits && 2 <= o.id <= 789
}

/// The position of `key` among the candidates, or -1.
pub open spec fn key_position(c: Seq<(i32, usize)>, key: i32) -> int
    decreases c.len(),
{
    if c.len() == 0 {
        -1
    } else if c.last().0 == key {
        c.len() - 1
    } else {
        key_position(c.drop_last(), key)
    }
}

/// The shuffle candidates, as `(key, catalog index)`, after the first `n`
/// catalog objects. Every object takes a key draw; an eligible object whose
/// key is taken replaces the earlier one.
pub open spec fn shuffle_candidates(catalog: Seq<CartObject>, s0: RngState, n: nat) -> Seq<(i32, usize)>
    decreases n,
{
    if n == 0 {
        Seq::empty()
    } else {
        let prev = shuffle_candidates(catalog, s0, (n - 1) as nat);
        let i = (n - 1) as int;
        let key = raw(advance(s0, i as nat)) as i32;
        if !shuffle_eligible(catalog[i]) {
            prev
        } else if key_position(prev, key) >= 0 {
            prev.update(key_position(prev, key), (key, i as usize))
        } else {
            prev.push((key, i as usize))
        }
    }
}

/// Whether the first catalog object from index `i` on with the id passes
/// the category checks: a negative category other than -999, and a type the
/// cart sells. An id without an object fails.
pub open spec fn category_ok_from(catalog: Seq<CartObject>, id: i32, i: int) -> bool
    decreases catalog.len() - i,
{
    if i < 0 || i >= catalog.len() {
        false
    } else if catalog[i].id == id {
        catalog[i].category < 0 && catalog[i].category != -999 && !catalog[i].type_excluded
    } else {
        category_ok_from(catalog, id, i + 1)
    }
}

/// The candidates among the first `n` that pass the category checks.
pub open spec fn qualified(catalog: Seq<CartObject>, c: Seq<(i32, usize)>, n: nat) -> Seq<(i32, usize)>
    decreases n,
{
    if n == 0 {
        Seq::empty()
    } else {
        let prev = qualified(catalog, c, (n - 1) as nat);
        let e = c[n - 1];
        if 0 <= e.1 < catalog.len() && category_ok_from(catalog, catalog[e.1 as int].id, 0) {
            prev.push(e)
        } else {
            prev
        }
    }
}

/// The position of the first smallest key.
pub open spec fn min_position(c: Seq<(i32, usize)>) -> int
    decreases c.len(),
{
    if c.len() <= 1 {
        0
    } else {
        let m = min_position(c.drop_last());
        if c.last().0 < c[m].0 {
            c.len() - 1
        } else {
            m
        }
    }
}

/// Up to `k` catalog indices in ascending order of key.
pub open spec fn select_ascending(c: Seq<(i32, usize)>, k: nat) -> Seq<usize>
    decreases k,
{
    if k == 0 || c.len() == 0 {
        Seq::empty()
    } else {
        let m = min_position(c);
        seq![c[m].1] + select_ascending(c.remove(m), (k - 1) as nat)
    }
}

/// The selected objects priced in turn from `s`.
pub open spec fn priced(catalog: Seq<CartObject>, s: RngState, sel: Seq<usize>) -> Seq<CartItem>
    decreases sel.len(),
{
    if sel.len() == 0 {
        Seq::empty()
    } else {
        let o = catalog[sel[0] as int];
        let (price, quantity, s1) = price_draws(s, o.price as int);
        seq![cart_item(o.id, price, quantity)] + priced(catalog, s1, sel.drop_first())
    }
}

/// The newest cart from its generator `s0`.
pub open spec fn shuffled_stock(catalog: Seq<CartObject>, s0: RngState) -> Seq<CartItem> {
    let c = shuffle_candidates(catalog, s0, catalog.len());
    let sel = select_ascending(qualified(catalog, c, c.len()), 10);
    priced(catalog, advance(s0, catalog.len()), sel)
}

fn find_key(c: &Vec<(i32, usize)>, key: i32) -> (r: Option<usize>)
    ensures
        r matches Some(k) ==> k == key_position(c@, key) && 0 <= k < c@.len(),
        r is None ==> key_position(c@, key) == -1,
{
    let mut i: usize = c.len();
    assert(c@.take(i as int) =~= c@);
    while i > 0
        invariant
            i <= c@.len(),
            key_position(c@, key) == key_position(c@.take(i as int), key),
        decreases i,
    {
        assert(c@.take(i as int).drop_last() =~= c@.take(i - 1));
        if c[i - 1].0 == key {
            return Some(i - 1);
        }
        i = i - 1;
    }
    None
}

fn category_ok(catalog: &[CartObject], id: i32) -> (r: bool)
    ensures
        r == category_ok_from(catalog@, id, 0),
{
    let mut i: usize = 0;
    while i < catalog.len()
        invariant
            i <= catalog@.len(),
            category_ok_from(catalog@, id, 0) == category_ok_from(catalog@, id, i as int),
        decreases catalog@.len() - i,
    {
        let o = catalog[i];
        if o.id == id {
            return o.category < 0 && o.category != -999 && !o.type_excluded;
        }
        i = i + 1;
    }
    false
}

fn min_position_of(c: &Vec<(i32, usize)>) -> (r: usize)
    requires
        c@.len() > 0,
    ensures
        r == min_position(c@),
        r < c@.len(),
{
    let mut m: usize = 0;
    let mut i: usize = 1;
    while i < c.len()
        invariant
            1 <= i <= c@.len(),
            m < i,
            m == min_position(c@.take(i as int)),
        decreases c@.len() - i,
    {
        assert(c@.take(i + 1).drop_last() =~= c@.take(i as int));
        if c[i].0 < c[m].0 {
            m = i;
        }
        i = i + 1;
    }
    assert(c@.take(c@.len() as int) =~= c@);
    m
}

/// The newest cart: every catalog object takes a shuffle key; eligible
/// objects keep the last object per key; the ten smallest keys that pass the
/// category checks are sold in ascending order, each with its price draws.
fn get_cart_stock_v16(catalog: &[CartObject], game_id: i32, day: i32) -> (r: Vec<CartItem>)
    ensures
        r@ == shuffled_stock(catalog@, init_state(day_hash_seed(day, game_id))),
{
    let mut rng = CSRandom::new(hash_seed(day, game_id / 2));
    let ghost s0 = rng@;
    let mut candidates: Vec<(i32, usize)> = Vec::new();
    let mut i: usize = 0;
    while i < catalog.len()
        invariant
            i <= catalog@.len(),
            well_formed(rng@),
            rng@ == advance(s0, i as nat),
            candidates@ == shuffle_candidates(catalog@, s0, i as nat),
        decreases catalog@.len() - i,
    {
        proof {
            crate::rng::cs_random::lemma_advance_succ(s0, i as nat);
        }
        let key = rng.sample_raw();
        let o = catalog[i];
        if o.price != 0 && !o.offlimits && 2 <= o.id && o.id <= 789 {
            match find_key(&candidates, key) {
                Some(k) => {
                    candidates.set(k, (key, i));
                },
                None => {
                    candidates.push((key, i));
                },
            }
        }
        i = i + 1;
    }
    let mut pool: Vec<(i32, usize)> = Vec::new();
    let mut j: usize = 0;
    while j < candidates.len()
        invariant
            j <= candidates@.len(),
            candidates@ == shuffle_candidates(catalog@, s0, catalog@.len()),
            pool@ == qualified(catalog@, candidates@, j as nat),
            forall|q: int| 0 <= q < pool@.len() ==> #[trigger] pool@[q].1 < catalog@.len(),
            well_formed(rng@),
            rng@ == advance(s0, catalog@.len()),
        decreases candidates@.len() - j,
    {
        let e = candidates[j];
        if e.1 < catalog.len() && category_ok(catalog, catalog[e.1].id) {
            pool.push(e);
        }
        j = j + 1;
    }
    let ghost all = pool@;
    let mut selected: Vec<usize> = Vec::new();
    let mut k: usize = 0;
    while k < 10 && pool.len() > 0
        invariant
            k <= 10,
            select_ascending(all, 10) == selected@ + select_ascending(pool@, (10 - k) as nat),
            forall|q: int| 0 <= q < pool@.len() ==> #[trigger] pool@[q].1 < catalog@.len(),
            forall|q: int| 0 <= q < selected@.len() ==> #[trigger] selected@[q] < catalog@.len(),
            well_formed(rng@),
            rng@ == advance(s0, catalog@.len()),
        decreases 10 - k,
    {
        let m = min_position_of(&pool);
        let ghost old_pool = pool@;
        let e = pool.remove(m);
        assert(e.1 < catalog@.len());
        assert forall|q: int| 0 <= q < pool@.len() implies #[trigger] pool@[q].1 < catalog@.len() by {
            if q < m {
                assert(pool@[q] == old_pool[q]);
            } else {
                assert(pool@[q] == old_pool[q + 1]);
            }
        }
        let ghost before = selected@;
        selected.push(e.1);
        assert(before + (seq![e.1] + select_ascending(pool@, (10 - k - 1) as nat)) =~= selected@
            + select_ascending(pool@, (10 - k - 1) as nat));
        k = k + 1;
    }
    assert(select_ascending(pool@, (10 - k) as nat) =~= Seq::<usize>::empty());
    assert(selected@ + Seq::<usize>::empty() =~= selected@);
    let mut stock: Vec<CartItem> = Vec::new();
    let mut t: usize = 0;
    assert(selected@.skip(0) =~= selected@);
    while t < selected.len()
        invariant
            t <= selected@.len(),
            well_formed(rng@),
            forall|q: int| 0 <= q < selected@.len() ==> #[trigger] selected@[q] < catalog@.len(),
            priced(catalog@, advance(s0, catalog@.len()), selected@) == stock@ + priced(
                catalog@,
                rng@,
                selected@.skip(t as int),
            ),
        decreases selected@.len() - t,
    {
        let o = catalog[selected[t]];
        let ghost rest = selected@.skip(t as int);
        assert(rest.drop_first() =~= selected@.skip(t + 1));
        let (price, quantity) = draw_price(&mut rng, o.price);
        let item = CartItem { item_id: o.id, price, quantity };
        let ghost before = stock@;
        stock.push(item);
        assert(before + (seq![item] + priced(catalog@, rng@, selected@.skip(t + 1))) =~= stock@ + priced(
            catalog@,
            rng@,
            selected@.skip(t + 1),
        ));
        t = t + 1;
    }
    assert(selected@.skip(selected@.len() as int) =~= Seq::<usize>::empty());
    assert(stock@ + Seq::<CartItem>::empty() =~= stock@);
    stock
}

/// The stock that the older algorithms draw from a cart seed; the newest
/// version seeds by day instead and has none here.
pub open spec fn stock_spec(catalog: Seq<CartObject>, seed: i32, version: GameVersion) -> Seq<CartItem> {
    match version {
        GameVersion::V1_3 => pre14_slots(catalog, init_state(seed), 10),
        GameVersion::V1_4 | GameVersion::V1_5 => probed_slots(catalog, init_state(seed), Seq::empty(), 10),
        GameVersion::V1_6 => Seq::empty(),
    }
}

/// The cart of a world on a day: older versions seed with `game_id + day`,
/// the newest hashes the day with `game_id / 2`.
#[verifier::opaque]
pub open spec fn cart_for_day(catalog: Seq<CartObject>, game_id: i32, day: i32, version: GameVersion) -> Seq<CartItem> {
    if version == GameVersion::V1_6 {
        shuffled_stock(catalog, init_state(day_hash_seed(day, game_id)))
    } else {
        stock_spec(catalog, game_id.wrapping_add(day), version)
    }
}

/// The traveling cart's stock for a cart seed, by the algorithm of the
/// oldest or the mid-era versions. The newest version's cart depends on the
/// day: see `get_cart_for_day`.
pub fn get_traveling_cart_stock(seed: i32, version: GameVersion, catalog: &[CartObject]) -> (r: Vec<CartItem>)
    ensures
        r@ == stock_spec(catalog@, seed, version),
{
    match version {
        GameVersion::V1_3 => get_cart_stock_pre14(catalog, seed),
        GameVersion::V1_4 | GameVersion::V1_5 => get_cart_stock_1_4_plus(catalog, seed),
        GameVersion::V1_6 => Vec::new(),
    }
}

/// The traveling cart's stock for a world on a day.
pub fn get_cart_for_day(game_id: i32, day_number: i32, version: GameVersion, catalog: &[CartObject]) -> (r: Vec<CartItem>)
    ensures
        r@ == cart_for_day(catalog@, game_id, day_number, version),
{
    proof {
        reveal(cart_for_day);
    }
    match version {
        GameVersion::V1_6 => get_cart_stock_v16(catalog, game_id, day_number),
        _ => get_traveling_cart_stock(game_id.wrapping_add(day_number), version, catalog),
    }
}

pub open spec fn stocks_item(items: Seq<CartItem>, target: i32) -> bool {
    exists|k: int| 0 <= k < items.len() && #[trigger] items[k].item_id == target
}

/// Whether the cart of a day stocks the item.
pub fn cart_has_item(
    game_id: i32,
    day_number: i32,
    target_item: i32,
    version: GameVersion,
    catalog: &[CartObject],
) -> (r: bool)
    ensures
        r == stocks_item(cart_for_day(catalog@, game_id, day_number, version), target_item),
{
    let stock = get_cart_for_day(game_id, day_number, version, catalog);
    first_item(&stock, target_item).is_some()
}

/// The first item of the stock with the id.
pub open spec fn first_with_id(items: Seq<CartItem>, target: i32) -> Option<CartItem>
    decreases items.len(),
{
    if items.len() == 0 {
        None
    } else if items[0].item_id == target {
        Some(items[0])
    } else {
        first_with_id(items.drop_first(), target)
    }
}

proof fn lemma_first_with_id(items: Seq<CartItem>, target: i32)
    ensures
        first_with_id(items, target) is Some <==> stocks_item(items, target),
        first_with_id(items, target) matches Some(it) ==> it.item_id == target,
    decreases items.len(),
{
    if items.len() > 0 {
        lemma_first_with_id(items.drop_first(), target);
        if items[0].item_id != target {
            if stocks_item(items, target) {
                let k = choose|k: int| 0 <= k < items.len() && #[trigger] items[k].item_id == target;
                assert(items.drop_first()[k - 1].item_id == target);
            }
            if stocks_item(items.drop_first(), target) {
                let k = choose|k: int| 0 <= k < items.drop_first().len() && #[trigger] items.drop_first()[k].item_id == target;
                assert(items[k + 1].item_id == target);
            }
        }
    }
}

fn first_item(items: &Vec<CartItem>, target: i32) -> (r: Option<CartItem>)
    ensures
        r == first_with_id(items@, target),
        r is Some <==> stocks_item(items@, target),
{
    proof {
        lemma_first_with_id(items@, target);
    }
    let mut i: usize = 0;
    assert(items@.skip(0) =~= items@);
    while i < items.len()
        invariant
            i <= items@.len(),
            first_with_id(items@, target) == first_with_id(items@.skip(i as int), target),
        decreases items@.len() - i,
    {
        assert(items@.skip(i as int).drop_first() =~= items@.skip(i + 1));
        if items[i].item_id == target {
            return Some(items[i]);
        }
        i = i + 1;
    }
    None
}

/// The first hit of the search from the cart day `day` on: each week's
/// Friday `day`, then its Sunday `day + 2`, up to `max_days`.
pub open spec fn find_in_cart_from(
    catalog: Seq<CartObject>,
    game_id: i32,
    target: i32,
    day: int,
    max_days: int,
    version: GameVersion,
) -> Option<(i32, i32, i32)>
    decreases max_days - day + 8,
{
    if day > max_days {
        None
    } else {
        match first_with_id(cart_for_day(catalog, game_id, day as i32, version), target) {
            Some(it) => Some((day as i32, it.price, it.quantity)),
            None => {
                let sunday = if day + 2 <= max_days {
                    first_with_id(cart_for_day(catalog, game_id, (day + 2) as i32, version), target)
                } else {
                    None
                };
                match sunday {
                    Some(it) => Some(((day + 2) as i32, it.price, it.quantity)),
                    None => find_in_cart_from(catalog, game_id, target, day + 7, max_days, version),
                }
            },
        }
    }
}

/// The first cart day (Fridays and Sundays, from day 5) up to `max_days`
/// whose cart stocks the item: `(day, price, quantity)`.
pub fn find_item_in_cart(
    game_id: i32,
    target_item: i32,
    max_days: i32,
    version: GameVersion,
    catalog: &[CartObject],
) -> (r: Option<(i32, i32, i32)>)
    ensures
        r == find_in_cart_from(catalog@, game_id, target_item, 5, max_days as int, version),
{
    let mut day: i64 = 5;
    while day <= max_days as i64
        invariant
            5 <= day,
            find_in_cart_from(catalog@, game_id, target_item, 5, max_days as int, version)
                == find_in_cart_from(catalog@, game_id, target_item, day as int, max_days as int, version),
        decreases max_days - day + 8,
    {
        let friday = get_cart_for_day(game_id, day as i32, version, catalog);
        if let Some(item) = first_item(&friday, target_item) {
            return Some((day as i32, item.price, item.quantity));
        }
        if day + 2 <= max_days as i64 {
            let sunday = get_cart_for_day(game_id, (day + 2) as i32, version, catalog);
            if let Some(item) = first_item(&sunday, target_item) {
                return Some(((day + 2) as i32, item.price, item.quantity));
            }
        }
        day = day + 7;
    }
    None
}

/// The mid-era carts never stock an id twice (the oldest cart may).
pub proof fn lemma_modern_cart_distinct(catalog: Seq<CartObject>, game_id: i32, day: i32, version: GameVersion)
    requires
        version == GameVersion::V1_4 || version == GameVersion::V1_5,
    ensures
        forall|i: int, j: int|
            0 <= i < j < cart_for_day(catalog, game_id, day, version).len() ==> cart_for_day(catalog, game_id, day, version)[i].item_id
                != cart_for_day(catalog, game_id, day, version)[j].item_id,
{
    reveal(cart_for_day);
    lemma_probed_slots_distinct(catalog, init_state(game_id.wrapping_add(day)), Seq::empty(), 10);
}

} // verus!
