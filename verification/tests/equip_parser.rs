use good_scanner::equip_parser::{parse_equip_location, parse_equip_owner};

fn char_map() -> Vec<(String, String)> {
    vec![
        ("叶洛亚".to_string(), "Aloy".to_string()),
        ("菈乌玛".to_string(), "Lauma".to_string()),
        ("胡桃".to_string(), "HuTao".to_string()),
    ]
}

#[test]
fn parses_owner_with_equip_marker() {
    assert_eq!(parse_equip_owner("叶洛亚已装备", &char_map()), "Aloy");
}

#[test]
fn parses_owner_without_equip_marker() {
    assert_eq!(parse_equip_owner("叶洛亚", &char_map()), "Aloy");
}

#[test]
fn parses_owner_through_fuzzy_normalization() {
    assert_eq!(parse_equip_owner("拉鸟玛已装备", &char_map()), "Lauma");
}

#[test]
fn strict_location_parser_still_requires_marker() {
    assert_eq!(parse_equip_location("胡桃", &char_map()), "");
    assert_eq!(parse_equip_location("胡桃已装备", &char_map()), "HuTao");
}

#[test]
fn location_accepts_clipped_marker_and_noise() {
    assert_eq!(parse_equip_location("c胡桃：已装", &char_map()), "HuTao");
    assert_eq!(parse_equip_location("Y 叶洛亚 已装备", &char_map()), "Aloy");
    assert_eq!(parse_equip_location("无名已装备", &char_map()), "");
}

#[test]
fn owner_of_unknown_name_is_empty() {
    assert_eq!(parse_equip_owner("", &char_map()), "");
    assert_eq!(parse_equip_owner("已装备", &char_map()), "");
}
