use rasmodius::mechanics::geodes::TROVE_ITEMS;
use rasmodius::mechanics::hashing::hash_seed;
use rasmodius::mechanics::traveling_cart::is_valid_cart_item_1_4;
use rasmodius::mechanics::{
    cart_has_item, check_mines_spot_at, daily_luck, dish_of_the_day, find_item_in_cart,
    find_night_events, find_weather_days, get_cart_for_day, get_floor_conditions,
    get_traveling_cart_stock, is_monster_floor, is_mushroom_floor, is_unusual_dark_floor,
    next_geode_item, night_event, predict_geode_sequence, remixed_mines_chest, weather_tomorrow,
    CartObject, ChestItemType, GeodeType, NightEvent, Weather,
};
use rasmodius::GameVersion;
use std::collections::HashSet;

/// A stand-in object catalog: every id from 2 to 789, priced by id, all of
/// a sellable category.
fn catalog() -> Vec<CartObject> {
    (2..=789)
        .map(|id| CartObject { id, price: 10 + id % 50, offlimits: false, category: -75, type_excluded: false })
        .collect()
}

fn luck(seed: i32, day: i32, friends: bool) -> f64 {
    daily_luck(seed, day, 0, friends) as f64 / 1000.0
}

#[test]
fn test_daily_luck_day_1() {
    let l = luck(12345, 1, false);
    assert!(l >= -0.1 && l <= 0.1);
}

#[test]
fn test_daily_luck_range() {
    for seed in [1, 100, 12345, 999999, i32::MAX / 2] {
        for day in 1..=28 {
            let l = luck(seed, day, false);
            assert!(l >= -0.1 && l <= 0.1, "Luck {} out of range for seed {} day {}", l, seed, day);
        }
    }
}

#[test]
fn test_dish_of_the_day() {
    let (dish, qty) = dish_of_the_day(12345, 1, 0);
    assert!(dish >= 194 && dish < 240);
    assert!(![346, 196, 216, 224, 206, 395, 217].contains(&dish));
    assert!(qty >= 1 && qty <= 13);
}

#[test]
fn test_has_friends_affects_luck() {
    assert_ne!(luck(12345, 5, false), luck(12345, 5, true));
}

#[test]
fn test_geode_deterministic() {
    let r1 = next_geode_item(12345, 1, GeodeType::Geode, 50, GameVersion::V1_5);
    let r2 = next_geode_item(12345, 1, GeodeType::Geode, 50, GameVersion::V1_5);
    assert_eq!(r1, r2);
}

#[test]
fn test_geode_sequence_unique_items() {
    let results = predict_geode_sequence(12345, 1, 100, GeodeType::OmniGeode, 120, GameVersion::V1_5);
    let unique: HashSet<_> = results.iter().map(|r| r.item_id).collect();
    assert!(unique.len() > 5, "Should have variety in 100 geodes");
}

#[test]
fn test_artifact_trove_items() {
    for i in 1..=50 {
        let result = next_geode_item(12345, i, GeodeType::ArtifactTrove, 0, GameVersion::V1_5);
        assert!(TROVE_ITEMS.contains(&result.item_id), "Trove gave invalid item {}", result.item_id);
    }
}

#[test]
fn geodes_test_version_difference() {
    let mut found_diff = false;
    for geode_num in 1..100 {
        let v15 = next_geode_item(12345, geode_num, GeodeType::OmniGeode, 120, GameVersion::V1_5);
        let v16 = next_geode_item(12345, geode_num, GeodeType::OmniGeode, 120, GameVersion::V1_6);
        if v15 != v16 {
            found_diff = true;
            break;
        }
    }
    assert!(found_diff, "1.5 and 1.6 should give different geode results");
}

#[test]
fn geode_sequence_matches_single_geodes() {
    let seq = predict_geode_sequence(777, 10, 5, GeodeType::MagmaGeode, 80, GameVersion::V1_4);
    assert_eq!(seq.len(), 5);
    for (i, g) in seq.iter().enumerate() {
        assert_eq!(*g, next_geode_item(777, 10 + i as i32, GeodeType::MagmaGeode, 80, GameVersion::V1_4));
    }
    assert!(predict_geode_sequence(777, 10, -3, GeodeType::Geode, 80, GameVersion::V1_4).is_empty());
}

#[test]
fn test_monster_floor_checkpoint_floors() {
    for floor in (5..=120).step_by(5) {
        assert!(!is_monster_floor(12345, 5, floor, GameVersion::V1_5));
    }
}

#[test]
fn test_monster_floor_early_floors() {
    for section_start in [0, 40, 80] {
        for offset in 1..5 {
            assert!(!is_monster_floor(12345, 5, section_start + offset, GameVersion::V1_5));
        }
    }
}

#[test]
fn test_dark_floor_every_10th() {
    for floor in (10..=120).step_by(10) {
        assert!(!is_unusual_dark_floor(12345, 5, floor));
    }
}

#[test]
fn test_mushroom_floor_requires_floor_80() {
    for floor in 1..=80 {
        assert!(!is_mushroom_floor(12345, 5, floor, GameVersion::V1_5));
    }
}

#[test]
fn test_remixed_chest_floor_10() {
    assert!(remixed_mines_chest(12345, 10).is_some());
}

#[test]
fn test_remixed_chest_invalid_floor() {
    assert!(remixed_mines_chest(12345, 15).is_none());
}

#[test]
fn mine_test_version_difference() {
    let mut found_diff = false;
    for floor in 6..30 {
        let v13 = is_monster_floor(12345, 10, floor, GameVersion::V1_3);
        let v15 = is_monster_floor(12345, 10, floor, GameVersion::V1_5);
        if v13 != v15 {
            found_diff = true;
            break;
        }
    }
    assert!(found_diff, "Should find at least one floor where v1.3 and v1.5 differ");
}

#[test]
fn floor_conditions_agree_with_single_checks() {
    for floor in 81..=119 {
        let c = get_floor_conditions(4242, 17, floor, GameVersion::V1_6);
        assert_eq!(c.is_monster_floor, is_monster_floor(4242, 17, floor, GameVersion::V1_6));
        assert_eq!(c.is_dark_floor, is_unusual_dark_floor(4242, 17, floor));
        assert_eq!(c.is_mushroom_floor, is_mushroom_floor(4242, 17, floor, GameVersion::V1_6));
        assert!(!(c.is_monster_floor && c.is_mushroom_floor));
    }
}

#[test]
fn chest_items_come_from_the_floor_table() {
    for seed in 0..50 {
        let c = remixed_mines_chest(seed, 20).unwrap();
        assert!([11, 24, 20, 517, 519].contains(&c.item_id));
        if c.item_type == ChestItemType::Ring {
            assert!(c.item_id == 517 || c.item_id == 519);
        }
        let d = remixed_mines_chest(seed, 110).unwrap();
        assert!([514, 878, 50, 28].contains(&d.item_id));
    }
}

#[test]
fn rock_spots_drop_known_items() {
    let mut any = false;
    for x in 0..40 {
        for y in 0..40 {
            let drops = check_mines_spot_at(12345, 130, x, y, false, true, true);
            for d in &drops {
                assert!([535, 749, 382, 378, 380, 384, 386].contains(d));
            }
            any |= !drops.is_empty();
        }
    }
    assert!(any);
}

#[test]
fn test_day_29_earthquake() {
    for seed in [1, 100, 12345, 999999] {
        for version in [GameVersion::V1_3, GameVersion::V1_5, GameVersion::V1_6] {
            assert_eq!(night_event(seed, 29, version), Some(NightEvent::Earthquake));
        }
    }
}

#[test]
fn test_fairy_not_in_winter() {
    for seed in 1..1000 {
        for day in 1..=224 {
            if let Some(NightEvent::Fairy) = night_event(seed, day, GameVersion::V1_5) {
                let event_day = day + 1;
                let month = ((event_day - 1) / 28) % 4;
                assert_ne!(month, 3, "Fairy found in winter on day {}", day);
            }
        }
    }
}

#[test]
fn test_ufo_requires_year_2() {
    for seed in 1..1000 {
        for day in 1..=111 {
            for version in [GameVersion::V1_4, GameVersion::V1_5, GameVersion::V1_6] {
                if let Some(event) = night_event(seed, day, version) {
                    assert_ne!(event, NightEvent::Ufo, "UFO found in Year 1 on day {} with version {:?}", day, version);
                }
            }
        }
    }
}

#[test]
fn test_different_versions_can_differ() {
    let mut found = false;
    'outer: for seed in 1..10000 {
        for day in 50..100 {
            if night_event(seed, day, GameVersion::V1_5) != night_event(seed, day, GameVersion::V1_6) {
                found = true;
                break 'outer;
            }
        }
    }
    assert!(found, "Should find at least one seed/day where versions differ");
}

#[test]
fn night_event_list_matches_single_nights() {
    let events = find_night_events(31, 1, 300, GameVersion::V1_4);
    for (day, e) in &events {
        assert_eq!(night_event(31, *day, GameVersion::V1_4), Some(*e));
    }
    assert!(events.iter().any(|(d, e)| *d == 29 && *e == NightEvent::Earthquake));
}

#[test]
fn test_cart_returns_10_items() {
    assert_eq!(get_traveling_cart_stock(12345, GameVersion::V1_5, &catalog()).len(), 10);
}

#[test]
fn test_cart_items_unique_1_4_plus() {
    let stock = get_traveling_cart_stock(12345, GameVersion::V1_5, &catalog());
    let mut seen = HashSet::new();
    for item in &stock {
        assert!(seen.insert(item.item_id), "Duplicate item found in 1.4+ cart");
    }
}

#[test]
fn test_cart_pre14_can_have_duplicates() {
    assert_eq!(get_traveling_cart_stock(12345, GameVersion::V1_3, &catalog()).len(), 10);
}

#[test]
fn test_cart_items_valid_1_4() {
    for item in &get_traveling_cart_stock(12345, GameVersion::V1_4, &catalog()) {
        assert!(is_valid_cart_item_1_4(item.item_id), "Invalid cart item: {}", item.item_id);
    }
}

#[test]
fn test_cart_deterministic() {
    let c = catalog();
    assert_eq!(get_traveling_cart_stock(12345, GameVersion::V1_5, &c), get_traveling_cart_stock(12345, GameVersion::V1_5, &c));
}

#[test]
fn test_cart_quantity_valid() {
    for item in &get_traveling_cart_stock(12345, GameVersion::V1_5, &catalog()) {
        assert!(item.quantity == 1 || item.quantity == 5, "Invalid quantity: {}", item.quantity);
    }
}

#[test]
fn test_find_item_red_cabbage() {
    let result = find_item_in_cart(12345, 266, 224, GameVersion::V1_5, &catalog());
    assert!(result.is_some(), "Should find Red Cabbage within 2 years");
}

#[test]
fn test_overflow_handling() {
    assert_eq!(get_cart_for_day(i32::MAX, 5, GameVersion::V1_5, &catalog()).len(), 10);
}

#[test]
fn traveling_cart_test_version_difference() {
    let c = catalog();
    assert_eq!(get_traveling_cart_stock(12350, GameVersion::V1_3, &c).len(), 10);
    assert_eq!(get_traveling_cart_stock(12350, GameVersion::V1_4, &c).len(), 10);
}

#[test]
fn test_debug_cart_v16() {
    let cart = get_cart_for_day(1, 5, GameVersion::V1_6, &catalog());
    for (i, item) in cart.iter().enumerate() {
        println!("[{}] id={} price={} qty={}", i, item.item_id, item.price, item.quantity);
    }
    assert_eq!(cart.len(), 10);
}

#[test]
fn debug_cart_seed14_day14() {
    let c = catalog();
    for seed in [14, 20] {
        for version in [GameVersion::V1_3, GameVersion::V1_4, GameVersion::V1_5, GameVersion::V1_6] {
            let cart = get_cart_for_day(seed, 14, version, &c);
            for (i, item) in cart.iter().enumerate() {
                println!("  [{}] id={} price={} qty={}", i, item.item_id, item.price, item.quantity);
            }
        }
    }
}

#[test]
fn cart_prices_follow_the_formula() {
    for item in get_cart_for_day(3, 5, GameVersion::V1_4, &catalog()) {
        let base = 10 + item.item_id % 50;
        assert!(item.price % 100 == 0 || item.price % base == 0);
        assert!(item.price >= 100 && item.price <= 1000.max(5 * base));
    }
}

#[test]
fn newest_cart_skips_excluded_objects() {
    let mut c = catalog();
    for o in c.iter_mut() {
        if o.id % 2 == 0 {
            o.type_excluded = true;
        }
        if o.id % 3 == 0 {
            o.offlimits = true;
        }
    }
    for day in [5, 7, 12, 14] {
        let cart = get_cart_for_day(99, day, GameVersion::V1_6, &c);
        assert_eq!(cart.len(), 10);
        for item in &cart {
            assert!(item.item_id % 2 == 1 && item.item_id % 3 != 0);
        }
    }
}

#[test]
fn cart_has_item_agrees_with_stock() {
    let c = catalog();
    for version in [GameVersion::V1_3, GameVersion::V1_4, GameVersion::V1_6] {
        let cart = get_cart_for_day(555, 12, version, &c);
        for item in &cart {
            assert!(cart_has_item(555, 12, item.item_id, version, &c));
        }
        let absent = (2..790).find(|id| !cart.iter().any(|i| i.item_id == *id)).unwrap();
        assert!(!cart_has_item(555, 12, absent, version, &c));
    }
}

#[test]
fn newest_cart_needs_a_catalog() {
    assert!(get_cart_for_day(1, 5, GameVersion::V1_6, &[]).is_empty());
    assert!(get_traveling_cart_stock(1, GameVersion::V1_6, &catalog()).is_empty());
}

#[test]
fn hash_seed_is_xxh32_of_the_packed_words() {
    let mut bytes = Vec::new();
    for w in [5i32, -7, 0, 0, 0] {
        bytes.extend_from_slice(&w.to_le_bytes());
    }
    assert_eq!(hash_seed(5, -7), xxhash_rust::xxh32::xxh32(&bytes, 0) as i32);
    assert_ne!(hash_seed(5, -7), 5);
}

#[test]
fn test_weather_codes() {
    assert_eq!(Weather::Sunny.to_code(), 0);
    assert_eq!(Weather::Rain.to_code(), 1);
    assert_eq!(Weather::Lightning.to_code(), 3);
    assert_eq!(Weather::Snow.to_code(), 5);
}

#[test]
fn weather_codes_round_trip() {
    for w in [Weather::Sunny, Weather::Rain, Weather::Debris, Weather::Lightning, Weather::Snow] {
        assert_eq!(Weather::from_code(w.to_code()), w);
    }
    assert_eq!(Weather::from_code(4), Weather::Sunny);
}

#[test]
fn test_weather_prediction() {
    let w1 = weather_tomorrow(12345, 5, 0, 0, false, GameVersion::V1_5);
    let w2 = weather_tomorrow(12345, 5, 0, 0, false, GameVersion::V1_5);
    assert_eq!(w1, w2);
}

#[test]
fn test_winter_snow() {
    for seed in 0..1000 {
        if weather_tomorrow(seed, 85, 0, 0, false, GameVersion::V1_5) == Weather::Snow {
            return;
        }
    }
}

#[test]
fn test_version_affects_weather() {
    let mut found = false;
    for seed in 1..1000 {
        if weather_tomorrow(seed, 50, 0, 0, false, GameVersion::V1_4) != weather_tomorrow(seed, 50, 0, 0, false, GameVersion::V1_5) {
            found = true;
            break;
        }
    }
    assert!(found, "1.4 and 1.5 should sometimes give different weather");
}

#[test]
fn first_days_are_never_windy() {
    for seed in 0..300 {
        for day in [1, 2] {
            assert_ne!(weather_tomorrow(seed, day, 0, 0, false, GameVersion::V1_6), Weather::Debris);
        }
        assert_ne!(weather_tomorrow(seed, 90, 0, 2, true, GameVersion::V1_3), Weather::Rain);
    }
}

#[test]
fn weather_day_list_matches_single_days() {
    let days = find_weather_days(8, 1, 120, Weather::Rain, GameVersion::V1_6);
    for d in 1..=120 {
        assert_eq!(days.contains(&d), weather_tomorrow(8, d, 0, 0, false, GameVersion::V1_6) == Weather::Rain);
    }
}
