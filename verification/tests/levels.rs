use good_scanner::level_text::{level_from_captures, lv_from_captures, parse_level_text, parse_lv_text, try_split_digits};
use good_scanner::levels::{
    derive_max_level, finalize_level, is_level_plausible, is_level_suspicious, level_cap_display,
};
use good_scanner::models::{GoodCharacter, GoodTalent};
use good_scanner::talents::{
    adjust_talents, is_character_suspicious, max_talent_for_ascension, ConstBonus, ScanMeta,
};

#[test]
fn finalize_snaps_caps() {
    assert_eq!(finalize_level(80, 90), (80, true));
    assert_eq!(finalize_level(90, 90), (90, false));
    assert_eq!(finalize_level(50, 48), (50, false));
    assert_eq!(finalize_level(85, 97), (85, true));
    assert_eq!(finalize_level(92, 95), (92, true));
    assert_eq!(finalize_level(95, 95), (95, false));
    assert_eq!(finalize_level(93, 98), (93, true));
    assert_eq!(finalize_level(10, 30), (10, false));
    assert_eq!(finalize_level(20, 40), (20, true));
}

#[test]
fn plausibility_and_suspicion() {
    assert!(is_level_plausible(80, 90));
    assert!(!is_level_plausible(50, 90));
    assert!(!is_level_plausible(0, 20));
    assert!(is_level_plausible(5, 33));
    assert_eq!(derive_max_level(80, true), 90);
    assert_eq!(derive_max_level(80, false), 80);
    assert_eq!(derive_max_level(85, false), 90);
    assert_eq!(derive_max_level(100, true), 100);
    assert!(is_level_suspicious(93, false));
    assert!(is_level_suspicious(5, false));
    assert!(!is_level_suspicious(1, false));
    assert!(!is_level_suspicious(90, false));
    assert!(!is_level_suspicious(95, false));
}

#[test]
fn cap_display() {
    assert_eq!(level_cap_display(80, false), "80/80");
    assert_eq!(level_cap_display(80, true), "80/90");
    assert_eq!(level_cap_display(85, false), "85/90");
    assert_eq!(level_cap_display(1, false), "1/20");
    assert_eq!(level_cap_display(100, false), "100/100");
}

#[test]
fn splits_digit_runs() {
    assert_eq!(try_split_digits(&"8090".chars().collect()), Some((80, 90)));
    assert_eq!(try_split_digits(&"9090".chars().collect()), Some((90, 90)));
    assert_eq!(try_split_digits(&"5".chars().collect()), None);
    assert_eq!(try_split_digits(&"999".chars().collect()), Some((9, 99)));
    assert_eq!(try_split_digits(&"5000".chars().collect()), None);
}

#[test]
fn level_text_readings() {
    assert_eq!(parse_level_text("80/90"), (80, true));
    assert_eq!(parse_level_text("等级90 / 90"), (90, false));
    assert_eq!(parse_level_text("Lv.70"), (70, false));
    assert_eq!(parse_level_text("8090"), (80, true));
    assert_eq!(parse_level_text("80190"), (80, true));
    assert_eq!(parse_level_text("no digits"), (1, false));
    assert_eq!(level_from_captures(Some("80"), Some("90"), "ignored"), (80, true));
    assert_eq!(level_from_captures(None, None, "x"), (1, false));
}

#[test]
fn talent_level_text() {
    assert_eq!(parse_lv_text("Lv.10"), 10);
    assert_eq!(parse_lv_text("LY: 9"), 9);
    assert_eq!(parse_lv_text("Lv.1 3"), 13);
    assert_eq!(parse_lv_text(""), 0);
    assert_eq!(parse_lv_text("Lv.99"), 0);
    assert_eq!(lv_from_captures(Some("20"), Some("7")), 7);
    assert_eq!(lv_from_captures(None, None), 0);
}

#[test]
fn talent_adjustments() {
    let bonuses = vec![
        ("Furina".to_string(), ConstBonus { c3: Some("Q".to_string()), c5: Some("E".to_string()) }),
    ];
    assert_eq!(adjust_talents(10, 13, 13, "Furina", 6, &bonuses), (10, 10, 10, false));
    assert_eq!(adjust_talents(10, 13, 13, "Furina", 3, &bonuses), (10, 13, 10, false));
    assert_eq!(adjust_talents(10, 3, 13, "Furina", 5, &bonuses), (10, 1, 10, true));
    assert_eq!(adjust_talents(11, 9, 9, "Tartaglia", 0, &bonuses), (10, 9, 9, false));
    assert_eq!(adjust_talents(1, 9, 9, "Tartaglia", 0, &bonuses), (1, 9, 9, false));
    assert_eq!(adjust_talents(10, 13, 12, "Traveler", 0, &bonuses), (10, 10, 9, false));
    assert_eq!(adjust_talents(10, 13, 13, "Traveler", 5, &bonuses), (10, 10, 10, false));
    assert_eq!(max_talent_for_ascension(0), 1);
    assert_eq!(max_talent_for_ascension(3), 4);
    assert_eq!(max_talent_for_ascension(6), 10);
}

#[test]
fn character_suspicion() {
    let c = GoodCharacter {
        key: "Furina".to_string(), level: 90, constellation: 0, ascension: 6,
        talent: GoodTalent { auto: 10, skill: 10, burst: 10 }, element: None,
    };
    assert!(!is_character_suspicious(&c, None));
    let meta = ScanMeta { talent_suspicious: false, raw_skill: 1, raw_burst: 9 };
    assert!(is_character_suspicious(&c, Some(&meta)));
    let mut low = c.clone();
    low.ascension = 2;
    assert!(is_character_suspicious(&low, None));
}
