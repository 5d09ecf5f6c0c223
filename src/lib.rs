//! Seed prediction for a farming life-simulation game: an exact model of the
//! game's legacy subtractive random generator, the version-aware mechanics
//! built on it, and a filter engine that searches seed ranges.
//!
//! The forecast functions here take the version as text and return plain
//! values; the mechanics under `mechanics` take the parsed version.
use vstd::prelude::*;

pub mod mechanics;
pub mod rng;
pub mod search;
pub mod types;
pub mod version;

pub use rng::CSRandom;
pub use search::{search_seeds, SearchCursor};
pub use types::{
    is_cart_day, CartItem, ChestItem, ChestItemType, DayPrediction, DishOfDay, FloorPrediction,
    GeodeResult, GeodeType, NightEventType, WeatherType,
};
pub use version::GameVersion;

use mechanics::daily_luck::{daily_luck_spec, dish_of_the_day_spec};
use mechanics::geodes::geode_spec;
use mechanics::mine::{floors_where, FloorKind};
use mechanics::night_events::{night_event_spec, NightEvent};
use mechanics::traveling_cart::{cart_for_day, find_in_cart_from, CartObject};
use mechanics::weather::{weather_code, weather_spec};
use types::{cart_day, geode_type_of, weather_type_of};
use version::{numeric_parts, pieces, version_of};

verus! {

/// The version that a version string names.
pub open spec fn named_version(s: Seq<char>) -> GameVersion {
    version_of(numeric_parts(pieces(s)))
}

/// The forecast code of a night event.
pub open spec fn night_event_type_of(e: Option<NightEvent>) -> NightEventType {
    match e {
        None => NightEventType::NoEvent,
        Some(NightEvent::Fairy) => NightEventType::Fairy,
        Some(NightEvent::Witch) => NightEventType::Witch,
        Some(NightEvent::Meteor) => NightEventType::Meteor,
        Some(NightEvent::Ufo) => NightEventType::Ufo,
        Some(NightEvent::Owl) => NightEventType::Owl,
        Some(NightEvent::Earthquake) => NightEventType::Earthquake,
    }
}

/// The forecast form of cart items.
pub open spec fn forecast_items(items: Seq<mechanics::CartItem>) -> Seq<CartItem> {
    items.map_values(|c: mechanics::CartItem| CartItem { id: c.item_id, price: c.price, quantity: c.quantity })
}

/// The forecast form of geode results.
pub open spec fn forecast_geodes(items: Seq<mechanics::GeodeResult>) -> Seq<GeodeResult> {
    items.map_values(|g: mechanics::GeodeResult| GeodeResult { item_id: g.item_id, quantity: g.quantity })
}

/// The mechanics' geode kind of a forecast geode kind.
pub open spec fn mechanics_geode(t: GeodeType) -> mechanics::GeodeType {
    match t {
        GeodeType::Geode => mechanics::GeodeType::Geode,
        GeodeType::FrozenGeode => mechanics::GeodeType::FrozenGeode,
        GeodeType::MagmaGeode => mechanics::GeodeType::MagmaGeode,
        GeodeType::OmniGeode => mechanics::GeodeType::OmniGeode,
        GeodeType::ArtifactTrove => mechanics::GeodeType::ArtifactTrove,
        GeodeType::GoldenCoconut => mechanics::GeodeType::GoldenCoconut,
    }
}

fn to_forecast_items(items: Vec<mechanics::CartItem>) -> (r: Vec<CartItem>)
    ensures
        r@ == forecast_items(items@),
{
    let mut out: Vec<CartItem> = Vec::new();
    let mut i: usize = 0;
    while i < items.len()
        invariant
            i <= items@.len(),
            out@ =~= forecast_items(items@.take(i as int)),
        decreases items@.len() - i,
    {
        let c = items[i];
        out.push(CartItem { id: c.item_id, price: c.price, quantity: c.quantity });
        assert(forecast_items(items@.take(i + 1)) =~= forecast_items(items@.take(i as int)).push(
            CartItem { id: c.item_id, price: c.price, quantity: c.quantity },
        ));
        i = i + 1;
    }
    assert(items@.take(items@.len() as int) =~= items@);
    out
}

/// Everything one day brings: luck, dish of the day, tomorrow's weather,
/// the night's event, and the cart on Fridays and Sundays.
pub fn predict_day(seed: i32, day: i32, version: &str, catalog: &[CartObject]) -> (r: DayPrediction)
    ensures
        r.luck == daily_luck_spec(seed, day, 0, false),
        (r.dish.id as int, r.dish.quantity as int) == dish_of_the_day_spec(seed, day, 0),
        r.weather == weather_type_of(weather_code(weather_spec(seed, day, 0, 0, false, named_version(version@)))),
        r.night_event == night_event_type_of(night_event_spec(seed, day, named_version(version@))),
        r.cart is Some <==> cart_day(day as int),
        r.cart matches Some(c) ==> c@ == forecast_items(cart_for_day(catalog@, seed, day, named_version(version@))),
{
    let v = GameVersion::parse(version);
    let (dish_id, dish_qty) = mechanics::dish_of_the_day(seed, day, 0);
    let luck = mechanics::daily_luck(seed, day, 0, false);
    let weather_code = mechanics::weather_tomorrow(seed, day, 0, 0, false, v).to_code();
    let night_event = match mechanics::night_event(seed, day, v) {
        None => NightEventType::NoEvent,
        Some(NightEvent::Fairy) => NightEventType::Fairy,
        Some(NightEvent::Witch) => NightEventType::Witch,
        Some(NightEvent::Meteor) => NightEventType::Meteor,
        Some(NightEvent::Ufo) => NightEventType::Ufo,
        Some(NightEvent::Owl) => NightEventType::Owl,
        Some(NightEvent::Earthquake) => NightEventType::Earthquake,
    };
    let cart = if is_cart_day(day) {
        Some(to_forecast_items(mechanics::get_cart_for_day(seed, day, v, catalog)))
    } else {
        None
    };
    DayPrediction {
        luck,
        dish: DishOfDay { id: dish_id, quantity: dish_qty },
        weather: WeatherType::from_code(weather_code),
        night_event,
        cart,
    }
}

/// A run of `count` geodes of a named kind from `start`, as for a player
/// whose deepest mine level is 120.
pub fn predict_geodes(seed: i32, start: i32, count: i32, geode_type: &str, version: &str) -> (r: Vec<GeodeResult>)
    ensures
        r@.len() == (if count > 0 {
            count as int
        } else {
            0
        }),
        forall|i: int|
            0 <= i < r@.len() ==> #[trigger] r@[i] == (GeodeResult {
                item_id: geode_spec(seed, (start + i) as i32, mechanics_geode(geode_type_of(geode_type@)), 120, named_version(version@)).item_id,
                quantity: geode_spec(seed, (start + i) as i32, mechanics_geode(geode_type_of(geode_type@)), 120, named_version(version@)).quantity,
            }),
{
    let v = GameVersion::parse(version);
    let internal = match GeodeType::from_str(geode_type) {
        GeodeType::Geode => mechanics::GeodeType::Geode,
        GeodeType::FrozenGeode => mechanics::GeodeType::FrozenGeode,
        GeodeType::MagmaGeode => mechanics::GeodeType::MagmaGeode,
        GeodeType::OmniGeode => mechanics::GeodeType::OmniGeode,
        GeodeType::ArtifactTrove => mechanics::GeodeType::ArtifactTrove,
        GeodeType::GoldenCoconut => mechanics::GeodeType::GoldenCoconut,
    };
    let results = mechanics::predict_geode_sequence(seed, start, count, internal, 120, v);
    let mut out: Vec<GeodeResult> = Vec::new();
    let mut i: usize = 0;
    while i < results.len()
        invariant
            i <= results@.len(),
            out@.len() == i,
            forall|k: int| 0 <= k < i ==> #[trigger] out@[k] == (GeodeResult {
                item_id: results@[k].item_id,
                quantity: results@[k].quantity,
            }),
        decreases results@.len() - i,
    {
        let g = results[i];
        out.push(GeodeResult { item_id: g.item_id, quantity: g.quantity });
        i = i + 1;
    }
    out
}

/// The monster floors of a range, for a version named by text.
pub fn find_monster_floors(seed: i32, days_played: i32, start_floor: i32, end_floor: i32, version: &str) -> (r: Vec<i32>)
    ensures
        r@ == floors_where(seed, days_played, start_floor as int, end_floor as int, named_version(version@), FloorKind::Monster),
{
    let v = GameVersion::parse(version);
    mechanics::find_monster_floors(seed, days_played, start_floor, end_floor, v)
}

/// The unusually dark floors of a range.
pub fn find_dark_floors(seed: i32, days_played: i32, start_floor: i32, end_floor: i32) -> (r: Vec<i32>)
    ensures
        r@ == floors_where(seed, days_played, start_floor as int, end_floor as int, GameVersion::V1_6, FloorKind::Dark),
{
    mechanics::find_dark_floors(seed, days_played, start_floor, end_floor)
}

/// The mushroom floors of a range, for a version named by text.
pub fn find_mushroom_floors(seed: i32, days_played: i32, start_floor: i32, end_floor: i32, version: &str) -> (r: Vec<i32>)
    ensures
        r@ == floors_where(seed, days_played, start_floor as int, end_floor as int, named_version(version@), FloorKind::Mushroom),
{
    let v = GameVersion::parse(version);
    mechanics::find_mushroom_floors(seed, days_played, start_floor, end_floor, v)
}

/// The first cart day up to `max_days` that stocks the item, as
/// `[day, price, quantity]`, or nothing.
pub fn find_item_in_cart(seed: i32, target_item: i32, max_days: i32, version: &str, catalog: &[CartObject]) -> (r: Vec<i32>)
    ensures
        match find_in_cart_from(catalog@, seed, target_item, 5, max_days as int, named_version(version@)) {
            Some((d, p, q)) => r@ == seq![d, p, q],
            None => r@.len() == 0,
        },
{
    let v = GameVersion::parse(version);
    match mechanics::find_item_in_cart(seed, target_item, max_days, v, catalog) {
        Some((day, price, qty)) => {
            let out = vec![day, price, qty];
            assert(out@ =~= seq![day, price, qty]);
            out
        },
        None => Vec::new(),
    }
}

} // verus!
