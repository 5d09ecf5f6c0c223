//! Overnight events, rolled at 6am for the night that just passed.
use vstd::prelude::*;

use super::hashing::{day_hash_seed, hash_seed};
use crate::rng::cs_random::{advance, below, init_state, next_state, RngState};
use crate::rng::{int_overflow, trunc_div, trunc_rem, CSRandom};
use crate::version::GameVersion;

verus! {

/// The kinds of night event.
#[derive(Clone, Copy, Debug, PartialEq, Eq, Structural, Hash)]
pub enum NightEvent {
    Fairy,
    Witch,
    Meteor,
    /// The strange capsule.
    Ufo,
    /// The stone owl.
    Owl,
    /// The earthquake of the first summer's third day.
    Earthquake,
}

/// The month index (season) of an event day.
pub open spec fn event_month(event_day: int) -> int {
    trunc_rem(trunc_div(event_day - 1, 28), 4)
}

/// The year of an event day.
pub open spec fn event_year(event_day: int) -> int {
    1 + trunc_div(event_day - 1, 112)
}

/// The checks of the second and third versions: fairy, witch, meteor, then
/// capsule before owl, with capsule and owl at `odds` per thousand.
pub open spec fn legacy_checks(s: RngState, event_day: int, odds: int) -> Option<NightEvent> {
    let s1 = next_state(s);
    let s2 = next_state(s1);
    let s3 = next_state(s2);
    let s4 = next_state(s3);
    if below(s, 1, 100) && event_month(event_day) < 3 {
        Some(NightEvent::Fairy)
    } else if below(s1, 1, 100) {
        Some(NightEvent::Witch)
    } else if below(s2, 1, 100) {
        Some(NightEvent::Meteor)
    } else if below(s3, odds, 1000) && event_year(event_day) > 1 {
        Some(NightEvent::Ufo)
    } else if below(s4, odds, 1000) {
        Some(NightEvent::Owl)
    } else {
        None
    }
}

/// The checks of the newest version, after ten priming draws: the witch
/// needs day 21, the meteor day 6, and the owl comes before the capsule.
pub open spec fn newest_checks(s: RngState, event_day: int) -> Option<NightEvent> {
    let s0 = advance(s, 10);
    let s1 = next_state(s0);
    let s2 = next_state(s1);
    let s3 = next_state(s2);
    let s4 = next_state(s3);
    if below(s0, 1, 100) && event_month(event_day) < 3 {
        Some(NightEvent::Fairy)
    } else if below(s1, 1, 100) && event_day > 20 {
        Some(NightEvent::Witch)
    } else if below(s2, 1, 100) && event_day > 5 {
        Some(NightEvent::Meteor)
    } else if below(s3, 5, 1000) {
        Some(NightEvent::Owl)
    } else if below(s4, 8, 1000) && event_year(event_day) > 1 {
        Some(NightEvent::Ufo)
    } else {
        None
    }
}

/// The additive seed of the older versions: `seed / 2 + event_day`.
pub open spec fn additive_seed(seed: i32, event_day: i32) -> i32 {
    (trunc_div(seed as int, 2) + event_day) as i32
}

/// The night event after a day of play.
pub open spec fn night_event_spec(seed: i32, days_played: i32, version: GameVersion) -> Option<NightEvent> {
    let event_day = days_played.wrapping_add(1);
    if event_day == 30 {
        Some(NightEvent::Earthquake)
    } else {
        match version {
            GameVersion::V1_6 => newest_checks(init_state(day_hash_seed(event_day, seed)), event_day as int),
            GameVersion::V1_5 => legacy_checks(init_state(additive_seed(seed, event_day)), event_day as int, 8),
            _ => legacy_checks(init_state(additive_seed(seed, event_day)), event_day as int, 10),
        }
    }
}

/// The night event that follows day `days_played`, if any. The night after
/// day 29 is always the earthquake, and no capsule lands in the first year.
pub fn night_event(seed: i32, days_played: i32, version: GameVersion) -> (r: Option<NightEvent>)
    ensures
        r == night_event_spec(seed, days_played, version),
        days_played == 29 ==> r == Some(NightEvent::Earthquake),
        days_played <= 111 ==> r != Some(NightEvent::Ufo),
{
    let event_day: i32 = days_played.wrapping_add(1);
    if event_day == 30 {
        return Some(NightEvent::Earthquake);
    }
    match version {
        GameVersion::V1_6 => night_event_v16(seed, event_day),
        GameVersion::V1_5 => night_event_v15(seed, event_day),
        GameVersion::V1_4 => night_event_v14(seed, event_day),
        GameVersion::V1_3 => night_event_v13(seed, event_day),
    }
}

fn month_and_year(event_day: i32) -> (r: (i64, i64))
    ensures
        r.0 == event_month(event_day as int),
        r.1 == event_year(event_day as int),
{
    let d: i64 = (event_day as i64) - 1;
    ((d / 28) % 4, 1 + d / 112)
}

/// The newest version: hashed seed, ten priming draws, reordered checks.
fn night_event_v16(seed: i32, event_day: i32) -> (r: Option<NightEvent>)
    ensures
        r == newest_checks(init_state(day_hash_seed(event_day, seed)), event_day as int),
{
    let mut rng = CSRandom::new(hash_seed(event_day, seed / 2));
    rng.skip(10);
    let (month, year) = month_and_year(event_day);
    // One roll serves both the greenhouse windstorm check and the fairy.
    if rng.chance(1, 100) && month < 3 {
        return Some(NightEvent::Fairy);
    }
    if rng.chance(1, 100) && event_day > 20 {
        return Some(NightEvent::Witch);
    }
    if rng.chance(1, 100) && event_day > 5 {
        return Some(NightEvent::Meteor);
    }
    if rng.chance(5, 1000) {
        return Some(NightEvent::Owl);
    }
    if rng.chance(8, 1000) && year > 1 {
        return Some(NightEvent::Ufo);
    }
    None
}

/// The older checks with capsule and owl at `odds` per thousand.
fn legacy_night_event(seed: i32, event_day: i32, odds: i32) -> (r: Option<NightEvent>)
    requires
        0 <= odds,
    ensures
        r == legacy_checks(init_state(additive_seed(seed, event_day)), event_day as int, odds as int),
{
    let mut rng = CSRandom::new(int_overflow((seed / 2) as i64 + event_day as i64));
    let (month, year) = month_and_year(event_day);
    if rng.chance(1, 100) && month < 3 {
        return Some(NightEvent::Fairy);
    }
    if rng.chance(1, 100) {
        return Some(NightEvent::Witch);
    }
    if rng.chance(1, 100) {
        return Some(NightEvent::Meteor);
    }
    if rng.chance(odds, 1000) && year > 1 {
        return Some(NightEvent::Ufo);
    }
    if rng.chance(odds, 1000) {
        return Some(NightEvent::Owl);
    }
    None
}

/// The third version: additive seed, capsule and owl at 0.8% each.
fn night_event_v15(seed: i32, event_day: i32) -> (r: Option<NightEvent>)
    ensures
        r == legacy_checks(init_state(additive_seed(seed, event_day)), event_day as int, 8),
{
    legacy_night_event(seed, event_day, 8)
}

/// The second version: additive seed, capsule and owl at 1% each.
fn night_event_v14(seed: i32, event_day: i32) -> (r: Option<NightEvent>)
    ensures
        r == legacy_checks(init_state(additive_seed(seed, event_day)), event_day as int, 10),
{
    legacy_night_event(seed, event_day, 10)
}

/// The oldest version rolls night events as the second does.
fn night_event_v13(seed: i32, event_day: i32) -> (r: Option<NightEvent>)
    ensures
        r == legacy_checks(init_state(additive_seed(seed, event_day)), event_day as int, 10),
{
    night_event_v14(seed, event_day)
}

/// The night events after the days of `[lo, hi]`, in order of day.
pub open spec fn night_events_in(seed: i32, lo: int, hi: int, version: GameVersion) -> Seq<(i32, NightEvent)>
    decreases hi - lo + 1,
{
    if hi < lo {
        Seq::empty()
    } else {
        let rest = night_events_in(seed, lo, hi - 1, version);
        match night_event_spec(seed, hi as i32, version) {
            Some(e) => rest.push((hi as i32, e)),
            None => rest,
        }
    }
}

/// Every night event after the days of `[start_day, end_day]`, with its day.
pub fn find_night_events(seed: i32, start_day: i32, end_day: i32, version: GameVersion) -> (r: Vec<(i32, NightEvent)>)
    ensures
        r@ == night_events_in(seed, start_day as int, end_day as int, version),
{
    let mut events: Vec<(i32, NightEvent)> = Vec::new();
    let mut day: i64 = start_day as i64;
    while day <= end_day as i64
        invariant
            start_day <= day <= end_day + 1 || (start_day > end_day && day == start_day),
            events@ == night_events_in(seed, start_day as int, day - 1, version),
        decreases end_day + 1 - day,
    {
        if let Some(event) = night_event(seed, day as i32, version) {
            events.push((day as i32, event));
        }
        day = day + 1;
    }
    events
}

} // verus!
