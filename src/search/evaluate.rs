//! Evaluating a filter tree on one seed.
use vstd::prelude::*;

use super::filter::{FilterCondition, FilterNode};
use crate::mechanics::daily_luck::{daily_luck, daily_luck_spec, dish_of_the_day, dish_of_the_day_spec};
use crate::mechanics::geodes::{geode_spec, next_geode_item, GeodeType};
use crate::mechanics::mine::{
    find_dark_floors, find_monster_floors, find_mushroom_floors, floors_where, FloorKind,
};
use crate::mechanics::night_events::{night_event, night_event_spec, NightEvent};
use crate::mechanics::traveling_cart::{cart_for_day, get_cart_for_day, CartItem, CartObject};
use crate::mechanics::weather::{weather_spec, weather_tomorrow, Weather};
use crate::types::{cart_day, is_cart_day, same_text};
use crate::version::GameVersion;

verus! {

/// What `str::to_lowercase` gives for a string.
pub uninterp spec fn lower_of(s: Seq<char>) -> Seq<char>;

/// Relies on `str::to_lowercase`: the result depends on the characters alone.
#[verifier::external_body]
fn lowercase(s: &str) -> (r: String)
    ensures
        r@ == lower_of(s@),
{
    s.to_lowercase()
}

/// The night event that a lower-case name stands for.
pub open spec fn night_event_named(name: Seq<char>) -> Option<NightEvent> {
    if name == "fairy"@ {
        Some(NightEvent::Fairy)
    } else if name == "witch"@ {
        Some(NightEvent::Witch)
    } else if name == "meteor"@ {
        Some(NightEvent::Meteor)
    } else if name == "ufo"@ || name == "capsule"@ {
        Some(NightEvent::Ufo)
    } else if name == "owl"@ {
        Some(NightEvent::Owl)
    } else if name == "earthquake"@ {
        Some(NightEvent::Earthquake)
    } else {
        None
    }
}

/// The geode kind that a lower-case name stands for; unknown names read as
/// the plain geode.
pub open spec fn geode_type_named(name: Seq<char>) -> GeodeType {
    if name == "frozen"@ || name == "frozen_geode"@ {
        GeodeType::FrozenGeode
    } else if name == "magma"@ || name == "magma_geode"@ {
        GeodeType::MagmaGeode
    } else if name == "omni"@ || name == "omni_geode"@ {
        GeodeType::OmniGeode
    } else if name == "trove"@ || name == "artifact_trove"@ {
        GeodeType::ArtifactTrove
    } else if name == "coconut"@ || name == "golden_coconut"@ {
        GeodeType::GoldenCoconut
    } else {
        GeodeType::Geode
    }
}

/// The weather that a lower-case name stands for; unknown names read as sun.
pub open spec fn weather_named(name: Seq<char>) -> Weather {
    if name == "rain"@ || name == "rainy"@ {
        Weather::Rain
    } else if name == "debris"@ || name == "windy"@ || name == "wind"@ {
        Weather::Debris
    } else if name == "lightning"@ || name == "storm"@ || name == "stormy"@ {
        Weather::Lightning
    } else if name == "snow"@ || name == "snowy"@ {
        Weather::Snow
    } else {
        Weather::Sunny
    }
}

/// The night event of a lower-case name.
pub fn night_event_from_name(name: &str) -> (r: Option<NightEvent>)
    ensures
        r == night_event_named(name@),
{
    if same_text(name, "fairy") {
        Some(NightEvent::Fairy)
    } else if same_text(name, "witch") {
        Some(NightEvent::Witch)
    } else if same_text(name, "meteor") {
        Some(NightEvent::Meteor)
    } else if same_text(name, "ufo") || same_text(name, "capsule") {
        Some(NightEvent::Ufo)
    } else if same_text(name, "owl") {
        Some(NightEvent::Owl)
    } else if same_text(name, "earthquake") {
        Some(NightEvent::Earthquake)
    } else {
        None
    }
}

/// The geode kind of a lower-case name.
pub fn geode_type_from_name(name: &str) -> (r: GeodeType)
    ensures
        r == geode_type_named(name@),
{
    if same_text(name, "frozen") || same_text(name, "frozen_geode") {
        GeodeType::FrozenGeode
    } else if same_text(name, "magma") || same_text(name, "magma_geode") {
        GeodeType::MagmaGeode
    } else if same_text(name, "omni") || same_text(name, "omni_geode") {
        GeodeType::OmniGeode
    } else if same_text(name, "trove") || same_text(name, "artifact_trove") {
        GeodeType::ArtifactTrove
    } else if same_text(name, "coconut") || same_text(name, "golden_coconut") {
        GeodeType::GoldenCoconut
    } else {
        GeodeType::Geode
    }
}

/// The weather of a lower-case name.
pub fn weather_from_name(name: &str) -> (r: Weather)
    ensures
        r == weather_named(name@),
{
    if same_text(name, "rain") || same_text(name, "rainy") {
        Weather::Rain
    } else if same_text(name, "debris") || same_text(name, "windy") || same_text(name, "wind") {
        Weather::Debris
    } else if same_text(name, "lightning") || same_text(name, "storm") || same_text(name, "stormy") {
        Weather::Lightning
    } else if same_text(name, "snow") || same_text(name, "snowy") {
        Weather::Snow
    } else {
        Weather::Sunny
    }
}

/// Reads a night event name in any case.
fn parse_night_event(s: &str) -> (r: Option<NightEvent>)
    ensures
        r == night_event_named(lower_of(s@)),
{
    let lowered = lowercase(s);
    night_event_from_name(lowered.as_str())
}

/// Reads a geode kind name in any case.
fn parse_geode_type(s: &str) -> (r: GeodeType)
    ensures
        r == geode_type_named(lower_of(s@)),
{
    let lowered = lowercase(s);
    geode_type_from_name(lowered.as_str())
}

/// Reads a weather name in any case.
fn parse_weather(s: &str) -> (r: Weather)
    ensures
        r == weather_named(lower_of(s@)),
{
    let lowered = lowercase(s);
    weather_from_name(lowered.as_str())
}

pub open spec fn luck_in(seed: i32, day: int, min_luck: i32, max_luck: i32) -> bool {
    min_luck <= daily_luck_spec(seed, day as i32, 0, false) <= max_luck
}

/// The cart of the day stocks the item within the price ceiling.
pub open spec fn cart_offers(
    catalog: Seq<CartObject>,
    seed: i32,
    day: int,
    item_id: i32,
    max_price: Option<i32>,
    version: GameVersion,
) -> bool {
    items_offer(cart_for_day(catalog, seed, day as i32, version), item_id, max_price)
}

/// Some item has the id and a price within the ceiling.
pub open spec fn items_offer(items: Seq<CartItem>, item_id: i32, max_price: Option<i32>) -> bool {
    exists|k: int|
        0 <= k < items.len() && #[trigger] items[k].item_id == item_id && match max_price {
            Some(m) => items[k].price <= m,
            None => true,
        }
}

pub open spec fn cart_day_offers(
    catalog: Seq<CartObject>,
    seed: i32,
    day: int,
    item_id: i32,
    max_price: Option<i32>,
    version: GameVersion,
) -> bool {
    cart_day(day) && cart_offers(catalog, seed, day, item_id, max_price, version)
}

pub open spec fn night_matches(seed: i32, day: int, target: Option<NightEvent>, any: bool, version: GameVersion) -> bool {
    match night_event_spec(seed, day as i32, version) {
        Some(e) => target == Some(e) || any,
        None => false,
    }
}

pub open spec fn dish_is(seed: i32, day: int, dish_id: i32) -> bool {
    dish_of_the_day_spec(seed, day as i32, 0).0 == dish_id
}

pub open spec fn weather_matches(seed: i32, day: int, target: Weather, any: bool, version: GameVersion) -> bool {
    let w = weather_spec(seed, day as i32, 0, 0, false, version);
    w == target || (any && w != Weather::Sunny)
}

/// The floor wishes of one day: no monster floor, no dark floor, and a
/// mushroom floor among those from 81 on, as asked.
pub open spec fn floors_ok(
    seed: i32,
    day: int,
    floor_start: i32,
    floor_end: i32,
    no_monsters: bool,
    no_dark: bool,
    has_mushroom: bool,
    version: GameVersion,
) -> bool {
    let d = day as i32;
    let mush_start: int = if floor_start > 81 {
        floor_start as int
    } else {
        81
    };
    &&& !(no_monsters && floors_where(seed, d, floor_start as int, floor_end as int, version, FloorKind::Monster).len() > 0)
    &&& !(no_dark && floors_where(seed, d, floor_start as int, floor_end as int, GameVersion::V1_6, FloorKind::Dark).len() > 0)
    &&& (has_mushroom ==> mush_start <= floor_end && floors_where(seed, d, mush_start, floor_end as int, version, FloorKind::Mushroom).len() > 0)
}

/// The night after the day has the named event, or any event for `"any"`.
pub open spec fn night_condition_at(seed: i32, day: int, event_type: Seq<char>, version: GameVersion) -> bool {
    night_matches(seed, day, night_event_named(lower_of(event_type)), event_type == "any"@, version)
}

/// The day after has the named weather, or any but sun for `"any"`.
pub open spec fn weather_condition_at(seed: i32, day: int, weather_type: Seq<char>, version: GameVersion) -> bool {
    weather_matches(seed, day, weather_named(lower_of(weather_type)), weather_type == "any"@, version)
}

/// Some day of `[day_start, day_end]` has a luck within the bounds.
pub open spec fn some_lucky_day(seed: i32, day_start: i32, day_end: i32, min_luck: i32, max_luck: i32) -> bool {
    exists|d: int| day_start <= d <= day_end && #[trigger] luck_in(seed, d, min_luck, max_luck)
}

/// Whether a condition holds of a seed.
pub open spec fn condition_holds(
    seed: i32,
    cond: FilterCondition,
    version: GameVersion,
    catalog: Seq<CartObject>,
) -> bool {
    match cond {
        FilterCondition::DailyLuck { day_start, day_end, min_luck, max_luck } => some_lucky_day(
            seed,
            day_start,
            day_end,
            min_luck,
            max_luck,
        ),
        FilterCondition::CartItem { day_start, day_end, item_id, max_price } => exists|d: int|
            day_start <= d <= day_end && #[trigger] cart_day_offers(catalog, seed, d, item_id, max_price, version),
        FilterCondition::NightEvent { day_start, day_end, event_type } => exists|d: int|
            day_start <= d <= day_end && #[trigger] night_condition_at(seed, d, event_type@, version),
        FilterCondition::Geode { geode_number, geode_type, target_items } => target_items@.contains(
            geode_spec(seed, geode_number, geode_type_named(lower_of(geode_type@)), 120, version).item_id,
        ),
        FilterCondition::DishOfDay { day_start, day_end, dish_id } => exists|d: int|
            day_start <= d <= day_end && #[trigger] dish_is(seed, d, dish_id),
        FilterCondition::Weather { day_start, day_end, weather_type } => exists|d: int|
            day_start <= d <= day_end && #[trigger] weather_condition_at(seed, d, weather_type@, version),
        FilterCondition::MineFloor {
            day_start,
            day_end,
            floor_start,
            floor_end,
            no_monsters,
            no_dark,
            has_mushroom,
        } => exists|d: int|
            day_start <= d <= day_end && #[trigger] floors_ok(
                seed,
                d,
                floor_start,
                floor_end,
                no_monsters,
                no_dark,
                has_mushroom,
                version,
            ),
    }
}

/// Whether a filter tree holds of a seed.
pub open spec fn filter_holds(
    seed: i32,
    node: FilterNode,
    version: GameVersion,
    catalog: Seq<CartObject>,
) -> bool
    decreases node,
{
    match node {
        FilterNode::And { conditions } => all_hold(seed, conditions@, version, catalog),
        FilterNode::Or { conditions } => any_holds(seed, conditions@, version, catalog),
        FilterNode::Condition(cond) => condition_holds(seed, *cond, version, catalog),
    }
}

/// Every filter of the list holds.
pub open spec fn all_hold(seed: i32, nodes: Seq<FilterNode>, version: GameVersion, catalog: Seq<CartObject>) -> bool
    decreases nodes,
{
    if nodes.len() == 0 {
        true
    } else {
        all_hold(seed, nodes.drop_last(), version, catalog) && filter_holds(seed, nodes.last(), version, catalog)
    }
}

/// Some filter of the list holds.
pub open spec fn any_holds(seed: i32, nodes: Seq<FilterNode>, version: GameVersion, catalog: Seq<CartObject>) -> bool
    decreases nodes,
{
    if nodes.len() == 0 {
        false
    } else {
        any_holds(seed, nodes.drop_last(), version, catalog) || filter_holds(seed, nodes.last(), version, catalog)
    }
}

/// Whether the cart of a day stocks the item within the price ceiling.
fn check_cart_has_item(
    seed: i32,
    day: i32,
    item_id: i32,
    max_price: Option<i32>,
    version: GameVersion,
    catalog: &[CartObject],
) -> (r: bool)
    ensures
        r == cart_offers(catalog@, seed, day as int, item_id, max_price, version),
{
    let cart = get_cart_for_day(seed, day, version, catalog);
    let mut i: usize = 0;
    while i < cart.len()
        invariant
            i <= cart@.len(),
            cart@ == cart_for_day(catalog@, seed, day, version),
            forall|k: int|
                0 <= k < i ==> !(#[trigger] cart@[k].item_id == item_id && match max_price {
                    Some(m) => cart@[k].price <= m,
                    None => true,
                }),
        decreases cart@.len() - i,
    {
        let item = cart[i];
        if item.item_id == item_id {
            match max_price {
                Some(max) => {
                    if item.price <= max {
                        assert(cart@[i as int].item_id == item_id);
                        assert(items_offer(cart@, item_id, max_price));
                        return true;
                    }
                },
                None => {
                    assert(cart@[i as int].item_id == item_id);
                    assert(items_offer(cart@, item_id, max_price));
                    return true;
                },
            }
        }
        i = i + 1;
    }
    false
}

/// The floor wishes of one day.
fn check_mine_floors(
    seed: i32,
    day: i32,
    floor_start: i32,
    floor_end: i32,
    no_monsters: bool,
    no_dark: bool,
    has_mushroom: bool,
    version: GameVersion,
) -> (r: bool)
    ensures
        r == floors_ok(seed, day as int, floor_start, floor_end, no_monsters, no_dark, has_mushroom, version),
{
    if no_monsters {
        let monster_floors = find_monster_floors(seed, day, floor_start, floor_end, version);
        if monster_floors.len() > 0 {
            return false;
        }
    }
    if no_dark {
        let dark_floors = find_dark_floors(seed, day, floor_start, floor_end);
        if dark_floors.len() > 0 {
            return false;
        }
    }
    if has_mushroom {
        let mush_start = if floor_start > 81 {
            floor_start
        } else {
            81
        };
        if mush_start <= floor_end {
            let mushroom_floors = find_mushroom_floors(seed, day, mush_start, floor_end, version);
            if mushroom_floors.len() == 0 {
                return false;
            }
        } else {
            return false;
        }
    }
    true
}

/// Whether some day of `[day_start, day_end]` has a luck within the bounds.
fn any_lucky_day(seed: i32, day_start: i32, day_end: i32, min_luck: i32, max_luck: i32) -> (r: bool)
    ensures
        r == some_lucky_day(seed, day_start, day_end, min_luck, max_luck),
{
    let mut day: i64 = day_start as i64;
    while day <= day_end as i64
        invariant
            day_start <= day,
            forall|d: int| day_start <= d < day ==> !#[trigger] luck_in(seed, d, min_luck, max_luck),
        decreases day_end + 1 - day,
    {
        let luck = daily_luck(seed, day as i32, 0, false);
        if luck >= min_luck && luck <= max_luck {
            assert(luck_in(seed, day as int, min_luck, max_luck));
            return true;
        }
        day = day + 1;
    }
    false
}

/// Whether some cart day of the range offers the item within the ceiling.
fn any_cart_day(
    seed: i32,
    day_start: i32,
    day_end: i32,
    item_id: i32,
    max_price: Option<i32>,
    version: GameVersion,
    catalog: &[CartObject],
) -> (r: bool)
    ensures
        r == exists|d: int|
            day_start <= d <= day_end && #[trigger] cart_day_offers(catalog@, seed, d, item_id, max_price, version),
{
    let mut day: i64 = day_start as i64;
    while day <= day_end as i64
        invariant
            day_start <= day,
            forall|d: int|
                day_start <= d < day ==> !#[trigger] cart_day_offers(catalog@, seed, d, item_id, max_price, version),
        decreases day_end + 1 - day,
    {
        if is_cart_day(day as i32) && check_cart_has_item(seed, day as i32, item_id, max_price, version, catalog) {
            assert(cart_day_offers(catalog@, seed, day as int, item_id, max_price, version));
            return true;
        }
        day = day + 1;
    }
    false
}

/// Whether some night of the range has the named event.
fn any_night(seed: i32, day_start: i32, day_end: i32, event_type: &str, version: GameVersion) -> (r: bool)
    ensures
        r == exists|d: int| day_start <= d <= day_end && #[trigger] night_condition_at(seed, d, event_type@, version),
{
    let target = parse_night_event(event_type);
    let any = same_text(event_type, "any");
    let mut day: i64 = day_start as i64;
    while day <= day_end as i64
        invariant
            day_start <= day,
            target == night_event_named(lower_of(event_type@)),
            any == (event_type@ == "any"@),
            forall|d: int| day_start <= d < day ==> !#[trigger] night_condition_at(seed, d, event_type@, version),
        decreases day_end + 1 - day,
    {
        if let Some(event) = night_event(seed, day as i32, version) {
            if target == Some(event) || any {
                assert(night_condition_at(seed, day as int, event_type@, version));
                return true;
            }
        }
        day = day + 1;
    }
    false
}

/// Whether the numbered geode yields one of the items.
fn geode_yields(seed: i32, geode_number: i32, geode_type: &str, target_items: &Vec<i32>, version: GameVersion) -> (r: bool)
    ensures
        r == target_items@.contains(
            geode_spec(seed, geode_number, geode_type_named(lower_of(geode_type@)), 120, version).item_id,
        ),
{
    let gt = parse_geode_type(geode_type);
    let result = next_geode_item(seed, geode_number, gt, 120, version);
    let mut i: usize = 0;
    while i < target_items.len()
        invariant
            i <= target_items@.len(),
            result == geode_spec(seed, geode_number, geode_type_named(lower_of(geode_type@)), 120, version),
            forall|k: int| 0 <= k < i ==> target_items@[k] != result.item_id,
        decreases target_items@.len() - i,
    {
        if target_items[i] == result.item_id {
            assert(target_items@[i as int] == result.item_id);
            return true;
        }
        i = i + 1;
    }
    false
}

/// Whether some day of the range serves the dish.
fn any_dish_day(seed: i32, day_start: i32, day_end: i32, dish_id: i32) -> (r: bool)
    ensures
        r == exists|d: int| day_start <= d <= day_end && #[trigger] dish_is(seed, d, dish_id),
{
    let mut day: i64 = day_start as i64;
    while day <= day_end as i64
        invariant
            day_start <= day,
            forall|d: int| day_start <= d < day ==> !#[trigger] dish_is(seed, d, dish_id),
        decreases day_end + 1 - day,
    {
        let (dish, _quantity) = dish_of_the_day(seed, day as i32, 0);
        if dish == dish_id {
            assert(dish_is(seed, day as int, dish_id));
            return true;
        }
        day = day + 1;
    }
    false
}

/// Whether some day of the range is followed by the named weather.
fn any_weather_day(seed: i32, day_start: i32, day_end: i32, weather_type: &str, version: GameVersion) -> (r: bool)
    ensures
        r == exists|d: int| day_start <= d <= day_end && #[trigger] weather_condition_at(seed, d, weather_type@, version),
{
    let target = parse_weather(weather_type);
    let any = same_text(weather_type, "any");
    let mut day: i64 = day_start as i64;
    while day <= day_end as i64
        invariant
            day_start <= day,
            target == weather_named(lower_of(weather_type@)),
            any == (weather_type@ == "any"@),
            forall|d: int| day_start <= d < day ==> !#[trigger] weather_condition_at(seed, d, weather_type@, version),
        decreases day_end + 1 - day,
    {
        let weather = weather_tomorrow(seed, day as i32, 0, 0, false, version);
        if weather == target || (any && weather != Weather::Sunny) {
            assert(weather_condition_at(seed, day as int, weather_type@, version));
            return true;
        }
        day = day + 1;
    }
    false
}

/// Whether some day of the range meets the floor wishes.
fn any_floor_day(
    seed: i32,
    day_start: i32,
    day_end: i32,
    floor_start: i32,
    floor_end: i32,
    no_monsters: bool,
    no_dark: bool,
    has_mushroom: bool,
    version: GameVersion,
) -> (r: bool)
    ensures
        r == exists|d: int|
            day_start <= d <= day_end && #[trigger] floors_ok(
                seed,
                d,
                floor_start,
                floor_end,
                no_monsters,
                no_dark,
                has_mushroom,
                version,
            ),
{
    let mut day: i64 = day_start as i64;
    while day <= day_end as i64
        invariant
            day_start <= day,
            forall|d: int|
                day_start <= d < day ==> !#[trigger] floors_ok(
                    seed,
                    d,
                    floor_start,
                    floor_end,
                    no_monsters,
                    no_dark,
                    has_mushroom,
                    version,
                ),
        decreases day_end + 1 - day,
    {
        if check_mine_floors(seed, day as i32, floor_start, floor_end, no_monsters, no_dark, has_mushroom, version) {
            assert(floors_ok(seed, day as int, floor_start, floor_end, no_monsters, no_dark, has_mushroom, version));
            return true;
        }
        day = day + 1;
    }
    false
}

/// Whether a condition holds of a seed; each condition scans its own days
/// and stops at the first that meets it.
fn evaluate_condition(seed: i32, cond: &FilterCondition, version: GameVersion, catalog: &[CartObject]) -> (r: bool)
    ensures
        r == condition_holds(seed, *cond, version, catalog@),
{
    match cond {
        FilterCondition::DailyLuck { day_start, day_end, min_luck, max_luck } => {
            any_lucky_day(seed, *day_start, *day_end, *min_luck, *max_luck)
        },
        FilterCondition::CartItem { day_start, day_end, item_id, max_price } => {
            any_cart_day(seed, *day_start, *day_end, *item_id, *max_price, version, catalog)
        },
        FilterCondition::NightEvent { day_start, day_end, event_type } => {
            any_night(seed, *day_start, *day_end, event_type.as_str(), version)
        },
        FilterCondition::Geode { geode_number, geode_type, target_items } => {
            geode_yields(seed, *geode_number, geode_type.as_str(), target_items, version)
        },
        FilterCondition::DishOfDay { day_start, day_end, dish_id } => {
            any_dish_day(seed, *day_start, *day_end, *dish_id)
        },
        FilterCondition::Weather { day_start, day_end, weather_type } => {
            any_weather_day(seed, *day_start, *day_end, weather_type.as_str(), version)
        },
        FilterCondition::MineFloor {
            day_start,
            day_end,
            floor_start,
            floor_end,
            no_monsters,
            no_dark,
            has_mushroom,
        } => {
            any_floor_day(
                seed,
                *day_start,
                *day_end,
                *floor_start,
                *floor_end,
                *no_monsters,
                *no_dark,
                *has_mushroom,
                version,
            )
        },
    }
}

proof fn lemma_all_hold_prefix(seed: i32, s: Seq<FilterNode>, i: int, version: GameVersion, catalog: Seq<CartObject>)
    requires
        0 <= i <= s.len(),
        all_hold(seed, s, version, catalog),
    ensures
        all_hold(seed, s.take(i), version, catalog),
    decreases s.len(),
{
    if i < s.len() {
        lemma_all_hold_prefix(seed, s.drop_last(), i, version, catalog);
        assert(s.drop_last().take(i) =~= s.take(i));
    } else {
        assert(s.take(i) =~= s);
    }
}

proof fn lemma_any_holds_prefix(seed: i32, s: Seq<FilterNode>, i: int, version: GameVersion, catalog: Seq<CartObject>)
    requires
        0 <= i <= s.len(),
        any_holds(seed, s.take(i), version, catalog),
    ensures
        any_holds(seed, s, version, catalog),
    decreases s.len(),
{
    if i < s.len() {
        assert(s.drop_last().take(i) =~= s.take(i));
        lemma_any_holds_prefix(seed, s.drop_last(), i, version, catalog);
    } else {
        assert(s.take(i) =~= s);
    }
}

/// Whether a filter tree holds of a seed. AND stops at the first child that
/// fails, OR at the first that holds.
pub fn evaluate_filter(seed: i32, filter: &FilterNode, version: GameVersion, catalog: &[CartObject]) -> (r: bool)
    ensures
        r == filter_holds(seed, *filter, version, catalog@),
    decreases filter,
{
    broadcast use vstd::std_specs::vec::group_vec_axioms;

    match filter {
        FilterNode::And { conditions } => {
            let mut i: usize = 0;
            assert(conditions@.take(0) =~= Seq::<FilterNode>::empty());
            while i < conditions.len()
                invariant
                    *filter == (FilterNode::And { conditions: *conditions }),
                    i <= conditions@.len(),
                    all_hold(seed, conditions@.take(i as int), version, catalog@),
                decreases conditions@.len() - i,
            {
                proof {
                    let v = (*filter)->And_conditions;
                    assert(decreases_to!(*filter => v));
                    assert(decreases_to!(v => v@));
                    assert(decreases_to!(v@ => v@[i as int]));
                }
                let holds = evaluate_filter(seed, &conditions[i], version, catalog);
                assert(conditions@.take(i + 1).drop_last() =~= conditions@.take(i as int));
                assert(conditions@.take(i + 1).last() == conditions@[i as int]);
                if !holds {
                    proof {
                        if all_hold(seed, conditions@, version, catalog@) {
                            lemma_all_hold_prefix(seed, conditions@, i + 1, version, catalog@);
                        }
                    }
                    return false;
                }
                i = i + 1;
            }
            assert(conditions@.take(i as int) =~= conditions@);
            true
        },
        FilterNode::Or { conditions } => {
            let mut i: usize = 0;
            assert(conditions@.take(0) =~= Seq::<FilterNode>::empty());
            while i < conditions.len()
                invariant
                    *filter == (FilterNode::Or { conditions: *conditions }),
                    i <= conditions@.len(),
                    !any_holds(seed, conditions@.take(i as int), version, catalog@),
                decreases conditions@.len() - i,
            {
                proof {
                    let v = (*filter)->Or_conditions;
                    assert(decreases_to!(*filter => v));
                    assert(decreases_to!(v => v@));
                    assert(decreases_to!(v@ => v@[i as int]));
                }
                let holds = evaluate_filter(seed, &conditions[i], version, catalog);
                assert(conditions@.take(i + 1).drop_last() =~= conditions@.take(i as int));
                assert(conditions@.take(i + 1).last() == conditions@[i as int]);
                if holds {
                    proof {
                        lemma_any_holds_prefix(seed, conditions@, i + 1, version, catalog@);
                    }
                    return true;
                }
                i = i + 1;
            }
            assert(conditions@.take(i as int) =~= conditions@);
            false
        },
        FilterNode::Condition(cond) => evaluate_condition(seed, cond, version, catalog),
    }
}

/// A filter of one luck condition over `[day_start, day_end]` accepts a
/// seed exactly when some day of the range has a luck within the bounds; so
/// bounds equal to the luck of one day of the range accept the seed, and
/// bounds that no day's luck meets reject it.
pub proof fn lemma_luck_filter_round_trip(
    seed: i32,
    day_start: i32,
    day_end: i32,
    min_luck: i32,
    max_luck: i32,
    day: i32,
    version: GameVersion,
    catalog: Seq<CartObject>,
)
    ensures
        filter_holds(
            seed,
            FilterNode::Condition(Box::new(FilterCondition::DailyLuck { day_start, day_end, min_luck, max_luck })),
            version,
            catalog,
        ) == some_lucky_day(seed, day_start, day_end, min_luck, max_luck),
        day_start <= day <= day_end && min_luck == daily_luck_spec(seed, day, 0, false) && max_luck == min_luck
            ==> filter_holds(
            seed,
            FilterNode::Condition(Box::new(FilterCondition::DailyLuck { day_start, day_end, min_luck, max_luck })),
            version,
            catalog,
        ),
{
    let c = FilterCondition::DailyLuck { day_start, day_end, min_luck, max_luck };
    assert(filter_holds(seed, FilterNode::Condition(Box::new(c)), version, catalog) == condition_holds(seed, c, version, catalog));
    if day_start <= day <= day_end && min_luck == daily_luck_spec(seed, day, 0, false) && max_luck == min_luck {
        assert(luck_in(seed, day as int, min_luck, max_luck));
    }
}

} // verus!
