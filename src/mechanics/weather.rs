//! Tomorrow's weather, drawn from the day's shared generator after the
//! draws of the dish of the day and the daily luck.
use vstd::prelude::*;

use super::daily_luck::day_seed;
use crate::rng::cs_random::{advance, below, init_state, next_state, pick, RngState};
use crate::rng::{int_overflow, trunc_div, trunc_rem, CSRandom};
use crate::version::GameVersion;

verus! {

/// Weather kinds and their codes: sunny 0, rain 1, debris 2, lightning 3,
/// snow 5.
#[derive(Clone, Copy, Debug, PartialEq, Eq, Structural, Hash)]
pub enum Weather {
    Sunny,
    Rain,
    /// Windy, with leaves or petals in the air.
    Debris,
    Lightning,
    Snow,
}

pub open spec fn weather_code(w: Weather) -> u8 {
    match w {
        Weather::Sunny => 0,
        Weather::Rain => 1,
        Weather::Debris => 2,
        Weather::Lightning => 3,
        Weather::Snow => 5,
    }
}

impl Weather {
    /// The weather for a code; an unknown code reads as sunny.
    pub fn from_code(code: u8) -> (r: Weather)
        ensures
            code == 0 || code == 1 || code == 2 || code == 3 || code == 5 ==> weather_code(r) == code,
            !(code == 0 || code == 1 || code == 2 || code == 3 || code == 5) ==> r == Weather::Sunny,
    {
        match code {
            0 => Weather::Sunny,
            1 => Weather::Rain,
            2 => Weather::Debris,
            3 => Weather::Lightning,
            5 => Weather::Snow,
            _ => Weather::Sunny,
        }
    }

    /// The weather's code.
    pub fn to_code(self) -> (r: u8)
        ensures
            r == weather_code(self),
    {
        match self {
            Weather::Sunny => 0,
            Weather::Rain => 1,
            Weather::Debris => 2,
            Weather::Lightning => 3,
            Weather::Snow => 5,
        }
    }
}

/// The season of a day: 0 spring, 1 summer, 2 fall, 3 winter.
pub open spec fn season_of(days_played: int) -> int {
    trunc_rem(trunc_div(days_played - 1, 28), 4)
}

/// The day of the month, 1 to 28 for a day of play.
pub open spec fn day_of_month(days_played: int) -> int {
    trunc_rem(days_played - 1, 28) + 1
}

/// The draws that come before the weather's own: the dish (two), the luck
/// (one), a friend's draw, the island's draw, and after a day of debris a
/// burst of six draws per round for a random number of rounds.
pub open spec fn weather_prelude(
    s: RngState,
    weather_today: u8,
    has_friends: bool,
    version: GameVersion,
) -> RngState {
    let s1 = advance(s, 3);
    let s2 = if has_friends {
        next_state(s1)
    } else {
        s1
    };
    let s3 = if version == GameVersion::V1_5 || version == GameVersion::V1_6 {
        next_state(s2)
    } else {
        s2
    };
    if weather_today == 2 {
        advance(next_state(s3), (6 * pick(s3, 16, 65)) as nat)
    } else {
        s3
    }
}

/// The weather's own draws from the generator `s`.
pub open spec fn weather_rolls(s: RngState, days_played: int) -> Weather {
    let season = season_of(days_played);
    let dom = day_of_month(days_played);
    let rains = if season == 1 {
        below(s, 3 * dom + 120, 1000)
    } else if season == 3 {
        below(s, 63, 100)
    } else {
        below(s, 183, 1000)
    };
    let s1 = next_state(s);
    if rains {
        if season == 3 {
            Weather::Snow
        } else if season == 1 && below(s1, 85, 100) {
            Weather::Lightning
        } else {
            let s2 = if season == 1 {
                next_state(s1)
            } else {
                s1
            };
            if below(s2, 25, 100) && dom > 2 && dom < 28 {
                Weather::Lightning
            } else {
                Weather::Rain
            }
        }
    } else if days_played <= 2 {
        Weather::Sunny
    } else if season == 0 && below(s1, 20, 100) {
        Weather::Debris
    } else if season == 2 && below(s1, 60, 100) {
        Weather::Debris
    } else {
        Weather::Sunny
    }
}

/// Tomorrow's weather.
pub open spec fn weather_spec(
    seed: i32,
    days_played: i32,
    steps: i32,
    weather_today: u8,
    has_friends: bool,
    version: GameVersion,
) -> Weather {
    let s = weather_prelude(
        init_state(day_seed(seed, days_played, steps)),
        weather_today,
        has_friends,
        version,
    );
    weather_rolls(s, days_played as int)
}

/// Predicts tomorrow's weather for a day. `weather_today` is today's code:
/// a day of debris (code 2) consumes an extra burst of draws. The first two
/// days of a world never roll anything but rain, storm or sun.
pub fn weather_tomorrow(
    seed: i32,
    days_played: i32,
    steps: i32,
    weather_today: u8,
    has_friends: bool,
    version: GameVersion,
) -> (r: Weather)
    ensures
        r == weather_spec(seed, days_played, steps, weather_today, has_friends, version),
{
    let s: i64 = (seed / 100) as i64 + ((days_played as i64) - 1) * 10 + 1 + steps as i64;
    let mut rng = CSRandom::new(int_overflow(s));
    // The dish of the day, then the daily luck.
    rng.skip(3);
    if has_friends {
        rng.sample_raw();
    }
    if version.has_ginger_isle() {
        rng.sample_raw();
    }
    if weather_today == 2 {
        let rounds = rng.next_range(16, 64 + 1);
        rng.skip((6 * rounds) as u32);
    }
    let d: i64 = (days_played as i64) - 1;
    let season: i64 = (d / 28) % 4;
    let dom: i64 = d % 28 + 1;
    let spring = season == 0;
    let summer = season == 1;
    let fall = season == 2;
    let winter = season == 3;
    let rains = if summer {
        rng.chance((3 * dom + 120) as i32, 1000)
    } else if winter {
        rng.chance(63, 100)
    } else {
        rng.chance(183, 1000)
    };
    if rains {
        if winter {
            Weather::Snow
        } else if summer && rng.chance(85, 100) {
            Weather::Lightning
        } else if rng.chance(25, 100) && dom > 2 && dom < 28 {
            Weather::Lightning
        } else {
            Weather::Rain
        }
    } else if days_played <= 2 {
        Weather::Sunny
    } else if spring && rng.chance(20, 100) {
        Weather::Debris
    } else if fall && rng.chance(60, 100) {
        Weather::Debris
    } else {
        Weather::Sunny
    }
}

/// The days in `[lo, hi]` whose next day has the weather `target`, taking
/// each day as sunny, in ascending order.
pub open spec fn weather_days(seed: i32, lo: int, hi: int, target: Weather, version: GameVersion) -> Seq<i32>
    decreases hi - lo + 1,
{
    if hi < lo {
        Seq::empty()
    } else {
        let rest = weather_days(seed, lo, hi - 1, target, version);
        if weather_spec(seed, hi as i32, 0, 0, false, version) == target {
            rest.push(hi as i32)
        } else {
            rest
        }
    }
}

/// The days in `[start_day, end_day]` whose next day has the target
/// weather, in ascending order, taking each day as sunny.
pub fn find_weather_days(
    seed: i32,
    start_day: i32,
    end_day: i32,
    target_weather: Weather,
    version: GameVersion,
) -> (r: Vec<i32>)
    ensures
        r@ == weather_days(seed, start_day as int, end_day as int, target_weather, version),
{
    let mut results: Vec<i32> = Vec::new();
    let mut day: i64 = start_day as i64;
    while day <= end_day as i64
        invariant
            start_day <= day <= end_day + 1 || (start_day > end_day && day == start_day),
            results@ == weather_days(seed, start_day as int, day - 1, target_weather, version),
        decreases end_day + 1 - day,
    {
        let weather = weather_tomorrow(seed, day as i32, 0, 0, false, version);
        if weather == target_weather {
            results.push(day as i32);
        }
        day = day + 1;
    }
    results
}

} // verus!
