//! The saloon's dish of the day and the daily luck, which share one
//! generator per day.
use vstd::prelude::*;

use crate::rng::cs_random::{advance, below, init_state, next_state, pick, well_formed, RngState};
use crate::rng::{int_overflow, trunc_div, CSRandom};

verus! {

/// How many times an excluded dish is rolled again before the last roll
/// stands. Seven dishes in a row from the excluded set are beyond any
/// realistic run of the generator.
pub const DISH_REROLL_LIMIT: u32 = 64;

/// Dishes the saloon never serves as the dish of the day.
pub open spec fn is_excluded_dish(d: int) -> bool {
    d == 346 || d == 196 || d == 216 || d == 224 || d == 206 || d == 395 || d == 217
}

/// The seed of a day's shared generator.
pub open spec fn day_seed(seed: i32, days_played: i32, steps: i32) -> i32 {
    (trunc_div(seed as int, 100) + (days_played - 1) * 10 + 1 + steps) as i32
}

/// How many draws the dish of the day skips: the day of the month of the
/// previous day, or none on the first day.
pub open spec fn dish_skips(local_days_played: int) -> nat {
    if local_days_played > 0 {
        ((local_days_played - 1) % 28 + 1) as nat
    } else {
        0
    }
}

/// Rolls again while the dish `d` is excluded, at most `budget` times;
/// gives the dish and the generator after it.
pub open spec fn reroll_dish(d: int, s: RngState, budget: nat) -> (int, RngState)
    decreases budget,
{
    if is_excluded_dish(d) && budget > 0 {
        reroll_dish(pick(s, 194, 240), next_state(s), (budget - 1) as nat)
    } else {
        (d, s)
    }
}

/// The dish of the day drawn from `s`: dish id, quantity, and the generator
/// after the trailing draw.
pub open spec fn dish_draws(s: RngState, local_days_played: int) -> (int, int, RngState) {
    let s1 = advance(s, dish_skips(local_days_played));
    let (dish, s2) = reroll_dish(pick(s1, 194, 240), next_state(s1), DISH_REROLL_LIMIT as nat);
    let bonus: int = if below(s2, 8, 100) {
        10
    } else {
        0
    };
    let s3 = next_state(s2);
    (dish, pick(s3, 1, 4 + bonus), next_state(next_state(s3)))
}

/// The dish of the day and its quantity.
pub open spec fn dish_of_the_day_spec(seed: i32, days_played: i32, steps: i32) -> (int, int) {
    let (dish, qty, _) = dish_draws(init_state(day_seed(seed, days_played, steps)), days_played - 1);
    (dish, qty)
}

/// The daily luck in thousandths.
pub open spec fn daily_luck_spec(seed: i32, days_played: i32, steps: i32, has_friends: bool) -> int {
    let (_, _, s1) = dish_draws(init_state(day_seed(seed, days_played, steps)), days_played - 1);
    let s2 = if has_friends {
        advance(s1, 2)
    } else {
        s1
    };
    let roll = pick(next_state(s2), -100, 101);
    if roll > 100 {
        100
    } else {
        roll
    }
}

fn day_rng(seed: i32, days_played: i32, steps: i32) -> (r: CSRandom)
    ensures
        r@ == init_state(day_seed(seed, days_played, steps)),
        well_formed(r@),
{
    let s: i64 = (seed / 100) as i64 + ((days_played as i64) - 1) * 10 + 1 + steps as i64;
    CSRandom::new(int_overflow(s))
}

fn is_excluded(d: i32) -> (r: bool)
    ensures
        r == is_excluded_dish(d as int),
{
    d == 346 || d == 196 || d == 216 || d == 224 || d == 206 || d == 395 || d == 217
}

/// The dish of the day drawn from a generator already seeded for the day.
fn dish_of_the_day_with_rng(rng: &mut CSRandom, local_days_played: i64) -> (r: (i32, i32))
    requires
        well_formed(old(rng)@),
    ensures
        well_formed(final(rng)@),
        dish_draws(old(rng)@, local_days_played as int) == (r.0 as int, r.1 as int, final(rng)@),
        194 <= r.0 < 240,
        1 <= r.1 < 14,
{
    let day_of_month: u32 = if local_days_played > 0 {
        (((local_days_played - 1) % 28) + 1) as u32
    } else {
        0
    };
    rng.skip(day_of_month);
    let ghost s1 = rng@;
    let mut dish = rng.next_range(194, 240);
    let mut budget: u32 = DISH_REROLL_LIMIT;
    while is_excluded(dish) && budget > 0
        invariant
            well_formed(rng@),
            194 <= dish < 240,
            reroll_dish(dish as int, rng@, budget as nat) == reroll_dish(
                pick(s1, 194, 240),
                next_state(s1),
                DISH_REROLL_LIMIT as nat,
            ),
        decreases budget,
    {
        dish = rng.next_range(194, 240);
        budget = budget - 1;
    }
    let bonus: i32 = if rng.chance(8, 100) {
        10
    } else {
        0
    };
    let quantity = rng.next_range(1, 4 + bonus);
    rng.sample_raw();
    (dish, quantity)
}

/// The saloon's dish of the day: `(dish id, quantity)`. The id lies in
/// `[194, 240)` and the quantity in `[1, 14)`.
pub fn dish_of_the_day(seed: i32, days_played: i32, steps: i32) -> (r: (i32, i32))
    ensures
        (r.0 as int, r.1 as int) == dish_of_the_day_spec(seed, days_played, steps),
        194 <= r.0 < 240,
        1 <= r.1 < 14,
{
    let mut rng = day_rng(seed, days_played, steps);
    dish_of_the_day_with_rng(&mut rng, (days_played as i64) - 1)
}

/// The daily luck, in thousandths: a value in `[-100, 100]`, that is a luck
/// of `-0.1` to `0.1`. Players with friends consume two more draws.
pub fn daily_luck(seed: i32, days_played: i32, steps: i32, has_friends: bool) -> (r: i32)
    ensures
        r == daily_luck_spec(seed, days_played, steps, has_friends),
        -100 <= r <= 100,
{
    let mut rng = day_rng(seed, days_played, steps);
    dish_of_the_day_with_rng(&mut rng, (days_played as i64) - 1);
    if has_friends {
        rng.skip(2);
    }
    rng.sample_raw();
    let roll = rng.next_range(-100, 101);
    if roll > 100 {
        100
    } else {
        roll
    }
}

} // verus!
