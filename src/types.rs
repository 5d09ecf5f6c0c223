//! The value types of the library's forecast interface.
use vstd::prelude::*;

use crate::rng::trunc_rem;

verus! {

/// Everything a single day brings.
pub struct DayPrediction {
    /// The daily luck in thousandths: `-100` to `100` stand for `-0.1` to `0.1`.
    pub luck: i32,
    pub dish: DishOfDay,
    /// Tomorrow's weather.
    pub weather: WeatherType,
    pub night_event: NightEventType,
    /// The traveling cart's stock, on Fridays and Sundays only.
    pub cart: Option<Vec<CartItem>>,
}

/// The saloon's dish of the day.
#[derive(Clone, Copy, Debug, PartialEq, Eq, Structural, Hash)]
pub struct DishOfDay {
    pub id: i32,
    pub quantity: i32,
}

/// Weather kinds with their codes: sunny 0, rain 1, debris 2, lightning 3,
/// snow 5, green rain 6.
#[derive(Clone, Copy, Debug, PartialEq, Eq, Structural, Hash)]
pub enum WeatherType {
    Sunny,
    Rain,
    Debris,
    Lightning,
    Snow,
    GreenRain,
}

pub open spec fn weather_type_code(w: WeatherType) -> u8 {
    match w {
        WeatherType::Sunny => 0,
        WeatherType::Rain => 1,
        WeatherType::Debris => 2,
        WeatherType::Lightning => 3,
        WeatherType::Snow => 5,
        WeatherType::GreenRain => 6,
    }
}

pub open spec fn weather_type_of(code: u8) -> WeatherType {
    if code == 1 {
        WeatherType::Rain
    } else if code == 2 {
        WeatherType::Debris
    } else if code == 3 {
        WeatherType::Lightning
    } else if code == 5 {
        WeatherType::Snow
    } else if code == 6 {
        WeatherType::GreenRain
    } else {
        WeatherType::Sunny
    }
}

impl WeatherType {
    /// The weather of a code; unknown codes read as sunny.
    pub fn from_code(code: u8) -> (r: WeatherType)
        ensures
            r == weather_type_of(code),
    {
        match code {
            1 => WeatherType::Rain,
            2 => WeatherType::Debris,
            3 => WeatherType::Lightning,
            5 => WeatherType::Snow,
            6 => WeatherType::GreenRain,
            _ => WeatherType::Sunny,
        }
    }

    /// The code of the weather.
    pub fn to_code(self) -> (r: u8)
        ensures
            r == weather_type_code(self),
            weather_type_of(r) == self,
    {
        match self {
            WeatherType::Sunny => 0,
            WeatherType::Rain => 1,
            WeatherType::Debris => 2,
            WeatherType::Lightning => 3,
            WeatherType::Snow => 5,
            WeatherType::GreenRain => 6,
        }
    }
}

/// Night events with their codes: none 0, fairy 1, witch 2, meteor 3,
/// capsule 4, owl 5, earthquake 6.
#[derive(Clone, Copy, Debug, PartialEq, Eq, Structural, Hash)]
pub enum NightEventType {
    /// A quiet night.
    NoEvent,
    Fairy,
    Witch,
    Meteor,
    Ufo,
    Owl,
    Earthquake,
}

pub open spec fn night_event_type_code(e: NightEventType) -> u8 {
    match e {
        NightEventType::NoEvent => 0,
        NightEventType::Fairy => 1,
        NightEventType::Witch => 2,
        NightEventType::Meteor => 3,
        NightEventType::Ufo => 4,
        NightEventType::Owl => 5,
        NightEventType::Earthquake => 6,
    }
}

impl NightEventType {
    /// The event of a code; unknown codes read as a quiet night.
    pub fn from_code(code: u8) -> (r: NightEventType)
        ensures
            code <= 6 ==> night_event_type_code(r) == code,
            code > 6 ==> r == NightEventType::NoEvent,
    {
        match code {
            1 => NightEventType::Fairy,
            2 => NightEventType::Witch,
            3 => NightEventType::Meteor,
            4 => NightEventType::Ufo,
            5 => NightEventType::Owl,
            6 => NightEventType::Earthquake,
            _ => NightEventType::NoEvent,
        }
    }

    /// The code of the event.
    pub fn to_code(self) -> (r: u8)
        ensures
            r == night_event_type_code(self),
    {
        match self {
            NightEventType::NoEvent => 0,
            NightEventType::Fairy => 1,
            NightEventType::Witch => 2,
            NightEventType::Meteor => 3,
            NightEventType::Ufo => 4,
            NightEventType::Owl => 5,
            NightEventType::Earthquake => 6,
        }
    }
}

/// An item of the traveling cart.
#[derive(Clone, Copy, Debug, PartialEq, Eq, Structural, Hash)]
pub struct CartItem {
    pub id: i32,
    pub price: i32,
    pub quantity: i32,
}

/// What a geode yields.
#[derive(Clone, Copy, Debug, PartialEq, Eq, Structural, Hash)]
pub struct GeodeResult {
    pub item_id: i32,
    pub quantity: i32,
}

/// Geode kinds by name.
#[derive(Clone, Copy, Debug, PartialEq, Eq, Structural, Hash)]
pub enum GeodeType {
    Geode,
    FrozenGeode,
    MagmaGeode,
    OmniGeode,
    ArtifactTrove,
    GoldenCoconut,
}

/// The geode kind of a name; unknown names read as the plain geode.
pub open spec fn geode_type_of(s: Seq<char>) -> GeodeType {
    if s == "frozen"@ || s == "frozen_geode"@ {
        GeodeType::FrozenGeode
    } else if s == "magma"@ || s == "magma_geode"@ {
        GeodeType::MagmaGeode
    } else if s == "omni"@ || s == "omni_geode"@ {
        GeodeType::OmniGeode
    } else if s == "trove"@ || s == "artifact_trove"@ {
        GeodeType::ArtifactTrove
    } else if s == "coconut"@ || s == "golden_coconut"@ {
        GeodeType::GoldenCoconut
    } else {
        GeodeType::Geode
    }
}

/// Whether two strings hold the same characters.
pub fn same_text(a: &str, b: &str) -> (r: bool)
    ensures
        r == (a@ == b@),
{
    let n = a.unicode_len();
    if n != b.unicode_len() {
        return false;
    }
    let mut i: usize = 0;
    while i < n
        invariant
            n == a@.len() == b@.len(),
            i <= n,
            forall|k: int| 0 <= k < i ==> a@[k] == b@[k],
        decreases n - i,
    {
        if a.get_char(i) != b.get_char(i) {
            return false;
        }
        i = i + 1;
    }
    assert(a@ =~= b@);
    true
}

impl GeodeType {
    /// Reads a geode kind name: `geode`, `frozen`, `magma`, `omni`, `trove`,
    /// `coconut`, or the long forms such as `frozen_geode`.
    pub fn from_str(s: &str) -> (r: GeodeType)
        ensures
            r == geode_type_of(s@),
    {
        if same_text(s, "frozen") || same_text(s, "frozen_geode") {
            GeodeType::FrozenGeode
        } else if same_text(s, "magma") || same_text(s, "magma_geode") {
            GeodeType::MagmaGeode
        } else if same_text(s, "omni") || same_text(s, "omni_geode") {
            GeodeType::OmniGeode
        } else if same_text(s, "trove") || same_text(s, "artifact_trove") {
            GeodeType::ArtifactTrove
        } else if same_text(s, "coconut") || same_text(s, "golden_coconut") {
            GeodeType::GoldenCoconut
        } else {
            GeodeType::Geode
        }
    }
}

/// A mine floor's conditions and chest.
#[derive(Clone, Copy, Debug, PartialEq, Eq, Structural, Hash)]
pub struct FloorPrediction {
    pub floor: i32,
    pub is_monster_floor: bool,
    pub is_dark_floor: bool,
    pub is_mushroom_floor: bool,
    /// The remixed chest's item, on the floors that have one.
    pub chest: Option<ChestItem>,
}

/// The kinds of item of a remixed chest.
#[derive(Clone, Copy, Debug, PartialEq, Eq, Structural, Hash)]
pub enum ChestItemType {
    Boots,
    MeleeWeapon,
    Ring,
}

/// An item of a remixed chest.
#[derive(Clone, Copy, Debug, PartialEq, Eq, Structural, Hash)]
pub struct ChestItem {
    pub item_type: ChestItemType,
    pub item_id: i32,
}

/// Whether a day is a cart day: a Friday or a Sunday, day 1 being a Monday.
pub open spec fn cart_day(day: int) -> bool {
    let day_of_week = trunc_rem(day - 1, 7) + 1;
    day_of_week == 5 || day_of_week == 7
}

/// Whether a day is a cart day (Friday or Sunday).
pub fn is_cart_day(day: i32) -> (r: bool)
    ensures
        r == cart_day(day as int),
{
    let day_of_week = ((day as i64) - 1) % 7 + 1;
    day_of_week == 5 || day_of_week == 7
}

} // verus!
