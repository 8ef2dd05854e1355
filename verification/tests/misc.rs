use good_scanner::clock::{clock_time, format_timestamp, fresh_at, time_of_day_stamp, timestamp_from_secs, CacheMeta};
use good_scanner::config::{
    is_u64_field, lenient_u64, opt, GoodUserConfig, OcrPoolConfig, ScanCoreConfig,
};
use good_scanner::fuzzy::{fuzzy_match_map, fuzzy_match_map_pair};
use good_scanner::gui_state::{ensure_admin_for_action, PixelProfile, WWEchoName};
use good_scanner::json::escape_json_string;
use good_scanner::lang::{localize, Lang};
use good_scanner::mappings::{ArtifactSetEntry, CharacterEntry, MappingManager, MappingsFile, WeaponEntry};
use good_scanner::names::{parse_char_name, parse_name_and_element, zh_element_to_good};
use good_scanner::numparse::parse_i32;
use good_scanner::scan_runner::{phase_result, ScanFailurePolicy, ScanPhaseResult, ScanRunOptions};

#[test]
fn timestamps() {
    assert_eq!(timestamp_from_secs(0), "1970-01-01_00-00-00");
    assert_eq!(timestamp_from_secs(1777297509), "2026-04-27_13-45-09");
    assert_eq!(timestamp_from_secs(951782400), "2000-02-29_00-00-00");
    assert_eq!(time_of_day_stamp(1777297509, 7), "13-45-09_007");
    assert!(fresh_at(100, 50, 120));
    assert!(!fresh_at(100, 50, 150));
    assert!(!fresh_at(0, 50, 10));
    assert!(!fresh_at(200, 50, 100));
    let m = CacheMeta::default();
    assert_eq!(m.mappings_last_fetch_time, 0);
}

#[test]
fn config_values() {
    assert_eq!(opt("  Aether "), Some("Aether".to_string()));
    assert_eq!(opt("   "), None);
    let mut c = GoodUserConfig::default();
    assert_eq!(c.server_port, 8765);
    assert_eq!(c.mgr_transition_delay, 1500);
    c.traveler_name = " 空 ".to_string();
    let o = c.to_overrides();
    assert_eq!(o.traveler_name, Some("空".to_string()));
    assert_eq!(o.wanderer_name, None);
    assert_eq!(OcrPoolConfig::detect(Some(4 << 30)), OcrPoolConfig { v5_count: 1, v4_count: 1 });
    assert_eq!(OcrPoolConfig::detect(Some(16 << 30)), OcrPoolConfig { v5_count: 2, v4_count: 4 });
    assert_eq!(OcrPoolConfig::detect(None), OcrPoolConfig { v5_count: 1, v4_count: 1 });
    c.ocr_pool_v4_override = 3;
    assert_eq!(c.resolve_ocr_pool_config(Some(16 << 30)), OcrPoolConfig { v5_count: 2, v4_count: 3 });
    assert_eq!(lenient_u64(" 250 "), 250);
    assert_eq!(lenient_u64("+7"), 7);
    assert_eq!(lenient_u64(""), 0);
    assert_eq!(lenient_u64("abc"), 0);
    assert_eq!(lenient_u64("-5"), 0);
    assert!(is_u64_field("mgr_cell_delay"));
    assert!(is_u64_field("artifact_open_delay"));
    assert!(!is_u64_field("lang"));
    let s = ScanCoreConfig::default();
    assert_eq!(s.artifact_min_rarity, 4);
    let g = s.to_scanner_config();
    assert!(!g.scan_all);
    assert_eq!(g.output_dir, ".");
}

#[test]
fn numbers_and_text() {
    assert_eq!(parse_i32(&"-42".chars().collect()), Some(-42));
    assert_eq!(parse_i32(&"+7".chars().collect()), Some(7));
    assert_eq!(parse_i32(&"2147483648".chars().collect()), None);
    assert_eq!(parse_i32(&"-2147483648".chars().collect()), Some(i32::MIN));
    assert_eq!(parse_i32(&"".chars().collect()), None);
    assert_eq!(parse_i32(&"1a".chars().collect()), None);
    assert_eq!(escape_json_string("a\"b\\c\n\u{1}"), "a\\\"b\\\\c\\n\\u0001");
    assert_eq!(localize("中文 / English", Lang::En), "English");
    assert_eq!(localize("中文 / English", Lang::Zh), "中文");
    assert_eq!(localize("plain", Lang::En), "plain");
    assert_eq!(Lang::from_str("en"), Lang::En);
    assert_eq!(Lang::from_str("zh"), Lang::Zh);
    assert_eq!(Lang::En.t("中", "en"), "en");
}

#[test]
fn names_and_elements() {
    let map = vec![
        ("神里绫华".to_string(), "KamisatoAyaka".to_string()),
        ("菈乌玛".to_string(), "Lauma".to_string()),
    ];
    assert_eq!(zh_element_to_good(" 冰 "), Some("Cryo".to_string()));
    assert_eq!(zh_element_to_good("光"), None);
    let (key, element, name) = parse_name_and_element("冰/神里绫华", &map);
    assert_eq!(key, Some("KamisatoAyaka".to_string()));
    assert_eq!(element, Some("冰".to_string()));
    assert_eq!(name, Some("神里绫华".to_string()));
    let (key, element, _) = parse_name_and_element("草／拉鸟玛!", &map);
    assert_eq!(key, Some("Lauma".to_string()));
    assert_eq!(element, Some("草".to_string()));
    assert_eq!(parse_name_and_element("", &map), (None, None, None));
    assert_eq!(parse_name_and_element("神里绫华", &map).0, Some("KamisatoAyaka".to_string()));
    assert_eq!(parse_char_name("冰/神里绫华", &map), Some("KamisatoAyaka".to_string()));
    assert_eq!(parse_char_name("冰/无名", &map), None);
    assert_eq!(fuzzy_match_map("nothing", &map), None);
    assert_eq!(fuzzy_match_map_pair("拉乌玛", &map), Some(("菈乌玛".to_string(), "Lauma".to_string())));
}

#[test]
fn mapping_manager_builds_maps() {
    let data = MappingsFile {
        characters: vec![
            CharacterEntry { id: "Furina".into(), zh: Some("芙宁娜".into()), c3: Some("Q".into()), c5: Some("E".into()) },
            CharacterEntry { id: "Aloy".into(), zh: Some("埃洛伊".into()), c3: None, c5: None },
            CharacterEntry { id: "Traveler".into(), zh: Some("旅行者".into()), c3: None, c5: None },
        ],
        weapons: vec![WeaponEntry { id: "SkywardHarp".into(), zh: Some("天空之翼".into()) }],
        artifact_sets: vec![
            ArtifactSetEntry { id: "GladiatorsFinale".into(), zh: Some("角斗士的终幕礼".into()), rarity: Some(5) },
            ArtifactSetEntry { id: "Adventurer".into(), zh: None, rarity: None },
        ],
    };
    let mut user = GoodUserConfig::default();
    user.traveler_name = "空".into();
    let m = MappingManager::new(&data, &user.to_overrides());
    assert_eq!(fuzzy_match_map("芙宁娜", &m.character_name_map), Some("Furina".to_string()));
    assert_eq!(fuzzy_match_map("空", &m.character_name_map), Some("Traveler".to_string()));
    assert_eq!(fuzzy_match_map("天空之翼", &m.weapon_name_map), Some("SkywardHarp".to_string()));
    assert_eq!(fuzzy_match_map("角斗士的终幕礼", &m.artifact_set_map), Some("GladiatorsFinale".to_string()));
    assert_eq!(m.character_const_bonus.len(), 1);
    assert_eq!(m.artifact_set_max_rarity, vec![("GladiatorsFinale".to_string(), 5)]);
}

#[test]
fn scan_phases() {
    let opts = ScanRunOptions { save_on_cancel: false, accept_cancelled_success: false, failure_policy: ScanFailurePolicy::ContinueOnError };
    let r: Result<ScanPhaseResult<u32>, String> = phase_result(Ok(vec![1, 2]), false, opts);
    assert!(matches!(r, Ok(ScanPhaseResult::Complete(ref d)) if d == &vec![1, 2]));
    let r: Result<ScanPhaseResult<u32>, String> = phase_result(Ok(vec![1]), true, opts);
    assert!(matches!(r, Ok(ScanPhaseResult::Incomplete)));
    let r: Result<ScanPhaseResult<u32>, String> = phase_result(Err("boom".to_string()), false, opts);
    assert!(matches!(r, Ok(ScanPhaseResult::Incomplete)));
    let stop = ScanRunOptions { failure_policy: ScanFailurePolicy::StopOnError, ..opts };
    let r: Result<ScanPhaseResult<u32>, String> = phase_result(Err("boom".to_string()), false, stop);
    assert!(matches!(r, Err(ref e) if e == "boom"));
    let save = ScanRunOptions { save_on_cancel: true, ..stop };
    let r: Result<ScanPhaseResult<u32>, String> = phase_result(Err("cancelled".to_string()), true, save);
    assert!(matches!(r, Ok(ScanPhaseResult::Complete(ref d)) if d.is_empty()));
    assert_eq!(ScanPhaseResult::Complete(vec![3u8]).into_complete(), Some(vec![3u8]));
    assert_eq!(ScanPhaseResult::<u8>::Incomplete.into_complete(), None);
}

#[test]
fn small_state() {
    let mut p = PixelProfile::new();
    assert!(!p.is_hdr_mode());
    p.set_hdr_mode(true);
    assert!(p.is_hdr_mode());
    assert!(ensure_admin_for_action().is_ok());
    assert_eq!(WWEchoName::from_chs("任何"), Some(WWEchoName::Unknown));
}

#[test]
fn log_clock_times() {
    assert_eq!(clock_time(0), "00:00:00");
    assert_eq!(clock_time(1777297509), "13:45:09");
    assert_eq!(clock_time(86399), "23:59:59");
    let now = format_timestamp();
    assert_eq!(now.len(), 8);
    assert_eq!(&now[2..3], ":");
}
