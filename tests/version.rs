use rasmodius::GameVersion;

#[test]
fn test_version_parsing() {
    assert_eq!(GameVersion::parse("1.3"), GameVersion::V1_3);
    assert_eq!(GameVersion::parse("1.4"), GameVersion::V1_4);
    assert_eq!(GameVersion::parse("1.5"), GameVersion::V1_5);
    assert_eq!(GameVersion::parse("1.5.6"), GameVersion::V1_5);
    assert_eq!(GameVersion::parse("1.6"), GameVersion::V1_6);
    assert_eq!(GameVersion::parse("1.6.4"), GameVersion::V1_6);
    assert_eq!(GameVersion::parse("1.7"), GameVersion::V1_6);
    assert_eq!(GameVersion::parse("invalid"), GameVersion::V1_6);
}

#[test]
fn version_parsing_skips_pieces_that_are_not_numbers() {
    assert_eq!(GameVersion::parse("x.1.3"), GameVersion::V1_3);
    assert_eq!(GameVersion::parse("+1.4"), GameVersion::V1_4);
    assert_eq!(GameVersion::parse("01.05"), GameVersion::V1_5);
    assert_eq!(GameVersion::parse(""), GameVersion::V1_6);
    assert_eq!(GameVersion::parse("1"), GameVersion::V1_6);
    assert_eq!(GameVersion::parse("99999999999.1.3"), GameVersion::V1_3);
    assert_eq!(GameVersion::parse("2.3"), GameVersion::V1_6);
}

#[test]
fn test_version_features() {
    assert!(GameVersion::V1_3.uses_legacy_random());
    assert!(!GameVersion::V1_3.has_ginger_isle());
    assert!(!GameVersion::V1_3.has_green_rain());

    assert!(!GameVersion::V1_4.uses_legacy_random());
    assert!(GameVersion::V1_4.uses_hash_seeding());
    assert!(!GameVersion::V1_4.has_ginger_isle());

    assert!(GameVersion::V1_5.has_ginger_isle());
    assert!(GameVersion::V1_5.has_qi_bean_check());
    assert!(!GameVersion::V1_5.has_green_rain());

    assert!(GameVersion::V1_6.has_green_rain());
    assert!(GameVersion::V1_6.has_new_cart_system());
    assert!(GameVersion::V1_6.has_windstorm_event());
    assert!(GameVersion::V1_6.has_reversed_geode_check());
}

#[test]
fn capability_flags_by_version() {
    for v in [GameVersion::V1_4, GameVersion::V1_5, GameVersion::V1_6] {
        assert!(v.has_primed_night_events());
        assert!(v.uses_mine_level_multiplier());
        assert!(v.has_geode_warmup());
    }
    assert!(!GameVersion::V1_3.has_primed_night_events());
    assert!(!GameVersion::V1_3.uses_mine_level_multiplier());
    assert!(!GameVersion::V1_3.has_geode_warmup());
    assert!(!GameVersion::V1_4.has_qi_bean_check());
    assert!(!GameVersion::V1_5.has_new_cart_system());
    assert!(!GameVersion::V1_5.has_windstorm_event());
    assert!(!GameVersion::V1_5.has_reversed_geode_check());
    assert_eq!(GameVersion::V1_5.name(), "1.5");
    assert_eq!(GameVersion::default(), GameVersion::V1_6);
}

#[test]
fn test_version_ordering() {
    assert!(GameVersion::V1_3 < GameVersion::V1_4);
    assert!(GameVersion::V1_4 < GameVersion::V1_5);
    assert!(GameVersion::V1_5 < GameVersion::V1_6);
}
