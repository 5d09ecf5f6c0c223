use rasmodius::mechanics::{daily_luck, dish_of_the_day, night_event, CartObject, NightEvent};
use rasmodius::types::{GeodeType, NightEventType, WeatherType};
use rasmodius::{find_item_in_cart, predict_day, predict_geodes, GameVersion};

fn catalog() -> Vec<CartObject> {
    (2..=789)
        .map(|id| CartObject { id, price: 10 + id % 50, offlimits: false, category: -75, type_excluded: false })
        .collect()
}

#[test]
fn day_one_of_seed_12345() {
    let p = predict_day(12345, 1, "1.6", &catalog());
    let luck = p.luck as f64 / 1000.0;
    assert!(luck >= -0.1 && luck <= 0.1);
    assert!(p.dish.id >= 194 && p.dish.id < 240);
    assert!(![346, 196, 216, 224, 206, 395, 217].contains(&p.dish.id));
    assert!(p.dish.quantity >= 1 && p.dish.quantity < 14);
    assert!(p.cart.is_none());
    assert_eq!(p.luck, daily_luck(12345, 1, 0, false));
    assert_eq!((p.dish.id, p.dish.quantity), dish_of_the_day(12345, 1, 0));
}

#[test]
fn cart_days_carry_a_cart() {
    let p = predict_day(12345, 5, "1.5", &catalog());
    assert_eq!(p.cart.map(|c| c.len()), Some(10));
    let q = predict_day(12345, 29, "1.4", &catalog());
    assert_eq!(q.night_event, NightEventType::Earthquake);
    assert_eq!(NightEventType::from_code(q.night_event.to_code()), NightEventType::Earthquake);
}

#[test]
fn forecast_codes_round_trip() {
    for code in [0u8, 1, 2, 3, 5, 6] {
        assert_eq!(WeatherType::from_code(code).to_code(), code);
    }
    assert_eq!(WeatherType::from_code(4), WeatherType::Sunny);
    for code in 0u8..=6 {
        assert_eq!(NightEventType::from_code(code).to_code(), code);
    }
    assert_eq!(NightEventType::from_code(9), NightEventType::NoEvent);
}

#[test]
fn geode_names() {
    assert_eq!(GeodeType::from_str("frozen"), GeodeType::FrozenGeode);
    assert_eq!(GeodeType::from_str("golden_coconut"), GeodeType::GoldenCoconut);
    assert_eq!(GeodeType::from_str("Frozen"), GeodeType::Geode);
    let g = predict_geodes(12345, 1, 4, "trove", "1.5");
    assert_eq!(g.len(), 4);
}

#[test]
fn item_search_reports_day_price_quantity() {
    let r = find_item_in_cart(12345, 266, 224, "1.5", &catalog());
    assert_eq!(r.len(), 3);
    assert!(r[0] % 7 == 5 || r[0] % 7 == 0);
    assert!(find_item_in_cart(12345, 266, 4, "1.5", &catalog()).is_empty());
}

#[test]
fn mechanics_are_deterministic() {
    for day in 1..40 {
        assert_eq!(night_event(4, day, GameVersion::V1_6), night_event(4, day, GameVersion::V1_6));
        assert_eq!(daily_luck(4, day, 0, true), daily_luck(4, day, 0, true));
    }
    assert_eq!(night_event(4, 29, GameVersion::V1_6), Some(NightEvent::Earthquake));
}

#[test]
fn legacy_cart_may_repeat_where_modern_never_does() {
    let c = catalog();
    let mut legacy_dup = false;
    for seed in 0..400 {
        let old = rasmodius::mechanics::get_traveling_cart_stock(seed, GameVersion::V1_3, &c);
        let mut ids: Vec<i32> = old.iter().map(|i| i.item_id).collect();
        ids.sort();
        ids.dedup();
        legacy_dup |= ids.len() < old.len();
        let new = rasmodius::mechanics::get_traveling_cart_stock(seed, GameVersion::V1_4, &c);
        let mut nids: Vec<i32> = new.iter().map(|i| i.item_id).collect();
        nids.sort();
        nids.dedup();
        assert_eq!(nids.len(), new.len());
    }
    assert!(legacy_dup);
}
