use rasmodius::mechanics::night_events::NightEvent;
use rasmodius::mechanics::{daily_luck, dish_of_the_day, night_event, CartObject};
use rasmodius::search::evaluate::{geode_type_from_name, night_event_from_name, weather_from_name};
use rasmodius::search::{evaluate_filter, search_seeds, FilterCondition, FilterNode, SearchCursor};
use rasmodius::{is_cart_day, GameVersion};

fn catalog() -> Vec<CartObject> {
    (2..=789)
        .map(|id| CartObject { id, price: 10 + id % 50, offlimits: false, category: -75, type_excluded: false })
        .collect()
}

fn luck_filter(day_start: i32, day_end: i32, min_luck: i32, max_luck: i32) -> FilterNode {
    FilterNode::Condition(Box::new(FilterCondition::DailyLuck { day_start, day_end, min_luck, max_luck }))
}

#[test]
fn test_is_cart_day() {
    assert!(!is_cart_day(1));
    assert!(!is_cart_day(2));
    assert!(!is_cart_day(3));
    assert!(!is_cart_day(4));
    assert!(is_cart_day(5));
    assert!(!is_cart_day(6));
    assert!(is_cart_day(7));
    assert!(!is_cart_day(8));
    assert!(is_cart_day(12));
    assert!(is_cart_day(14));
}

#[test]
fn luck_filter_round_trip() {
    let l = daily_luck(12345, 3, 0, false);
    let hit = luck_filter(1, 7, l, l);
    let found = search_seeds(&hit, 12000, 12400, 1000, GameVersion::V1_6, &[]);
    assert!(found.contains(&12345));
    let lucks: Vec<i32> = (1..=7).map(|d| daily_luck(12345, d, 0, false)).collect();
    let above = lucks.iter().max().unwrap() + 1;
    let miss = luck_filter(1, 7, above, above + 5);
    assert!(!evaluate_filter(12345, &miss, GameVersion::V1_6, &[]));
    let found = search_seeds(&miss, 12000, 12400, 1000, GameVersion::V1_6, &[]);
    assert!(!found.contains(&12345));
}

#[test]
fn and_or_short_circuit_semantics() {
    let yes = luck_filter(1, 7, -100, 100);
    let no = luck_filter(1, 7, 101, 200);
    let and = FilterNode::And { conditions: vec![luck_filter(1, 7, -100, 100), luck_filter(1, 7, 101, 200)] };
    let or = FilterNode::Or { conditions: vec![luck_filter(1, 7, 101, 200), luck_filter(1, 7, -100, 100)] };
    let v = GameVersion::V1_6;
    assert!(evaluate_filter(5, &yes, v, &[]));
    assert!(!evaluate_filter(5, &no, v, &[]));
    assert!(!evaluate_filter(5, &and, v, &[]));
    assert!(evaluate_filter(5, &or, v, &[]));
    assert!(evaluate_filter(5, &FilterNode::And { conditions: vec![] }, v, &[]));
    assert!(!evaluate_filter(5, &FilterNode::Or { conditions: vec![] }, v, &[]));
}

#[test]
fn search_stops_at_the_cap() {
    let all = luck_filter(1, 1, -100, 100);
    let found = search_seeds(&all, 10, 100, 7, GameVersion::V1_5, &[]);
    assert_eq!(found, vec![10, 11, 12, 13, 14, 15, 16]);
    assert!(search_seeds(&all, 10, 100, 0, GameVersion::V1_5, &[]).is_empty());
    assert!(search_seeds(&all, 10, 9, 5, GameVersion::V1_5, &[]).is_empty());
}

#[test]
fn cursor_walks_the_range() {
    let filter = luck_filter(1, 1, 0, 100);
    let mut cursor = SearchCursor::new(100, 150, 3);
    let mut hits = Vec::new();
    while !cursor.is_finished() {
        if let Some(seed) = cursor.step(&filter, GameVersion::V1_6, &[]) {
            hits.push(seed);
        }
    }
    assert_eq!(hits, search_seeds(&filter, 100, 150, 3, GameVersion::V1_6, &[]));
    assert_eq!(cursor.matches as usize, hits.len());
    assert!(cursor.checked >= 3);
}

#[test]
fn dish_and_night_conditions() {
    let (dish, _) = dish_of_the_day(777, 4, 0);
    let f = FilterNode::Condition(Box::new(FilterCondition::DishOfDay { day_start: 1, day_end: 4, dish_id: dish }));
    assert!(evaluate_filter(777, &f, GameVersion::V1_4, &[]));
    let quake = FilterNode::Condition(Box::new(FilterCondition::NightEvent {
        day_start: 25,
        day_end: 30,
        event_type: "EarthQuake".to_string(),
    }));
    assert!(evaluate_filter(1, &quake, GameVersion::V1_3, &[]));
    let any = FilterNode::Condition(Box::new(FilterCondition::NightEvent { day_start: 29, day_end: 29, event_type: "any".to_string() }));
    assert!(evaluate_filter(1, &any, GameVersion::V1_6, &[]));
    assert_eq!(night_event(1, 29, GameVersion::V1_6), Some(NightEvent::Earthquake));
}

#[test]
fn names_are_read_in_any_case() {
    assert_eq!(night_event_from_name("capsule"), Some(NightEvent::Ufo));
    assert_eq!(night_event_from_name("CAPSULE"), None);
    let upper = FilterNode::Condition(Box::new(FilterCondition::Geode {
        geode_number: 3,
        geode_type: "TROVE".to_string(),
        target_items: vec![100, 101, 103, 104, 105, 106, 108, 109, 110, 111, 112, 113, 114, 115, 116, 117, 118, 119, 120, 121, 122, 123, 124, 125, 166, 373, 797],
    }));
    assert!(evaluate_filter(42, &upper, GameVersion::V1_5, &[]));
    assert_eq!(weather_from_name("stormy"), rasmodius::mechanics::Weather::Lightning);
    assert_eq!(geode_type_from_name("omni_geode"), rasmodius::mechanics::GeodeType::OmniGeode);
}

#[test]
fn cart_and_floor_conditions() {
    let c = catalog();
    let cart = rasmodius::mechanics::get_cart_for_day(9, 5, GameVersion::V1_5, &c);
    let item = cart[0];
    let f = FilterNode::Condition(Box::new(FilterCondition::CartItem { day_start: 1, day_end: 6, item_id: item.item_id, max_price: Some(item.price) }));
    assert!(evaluate_filter(9, &f, GameVersion::V1_5, &c));
    let g = FilterNode::Condition(Box::new(FilterCondition::CartItem { day_start: 1, day_end: 6, item_id: item.item_id, max_price: Some(item.price - 1) }));
    let cheaper = cart.iter().any(|i| i.item_id == item.item_id && i.price <= item.price - 1);
    assert_eq!(evaluate_filter(9, &g, GameVersion::V1_5, &c), cheaper);
    let floors = FilterNode::Condition(Box::new(FilterCondition::MineFloor {
        day_start: 1,
        day_end: 3,
        floor_start: 1,
        floor_end: 4,
        no_monsters: true,
        no_dark: false,
        has_mushroom: false,
    }));
    assert!(evaluate_filter(9, &floors, GameVersion::V1_5, &c));
    let mush = FilterNode::Condition(Box::new(FilterCondition::MineFloor {
        day_start: 1,
        day_end: 3,
        floor_start: 1,
        floor_end: 80,
        no_monsters: false,
        no_dark: false,
        has_mushroom: true,
    }));
    assert!(!evaluate_filter(9, &mush, GameVersion::V1_5, &c));
}
