use good_scanner::artifact_text::{artifact_fingerprint, find_set_key_in_text};
use good_scanner::mappings::MappingManager;
use good_scanner::models::{GoodArtifact, GoodSubStat};

fn sets() -> MappingManager {
    MappingManager {
        character_name_map: vec![],
        character_const_bonus: vec![],
        weapon_name_map: vec![],
        artifact_set_map: vec![
            ("风起之日".to_string(), "DayOfTheWind".to_string()),
            ("角斗士的终幕礼".to_string(), "GladiatorsFinale".to_string()),
            ("乐园遗落之花".to_string(), "FlowerOfParadiseLost".to_string()),
            ("A".to_string(), "OneLetter".to_string()),
        ],
        artifact_set_max_rarity: vec![],
    }
}

#[test]
fn set_name_with_trailing_colon() {
    let m = sets();
    assert_eq!(find_set_key_in_text(&m, "风起之日："), Some("DayOfTheWind".to_string()));
    assert_eq!(find_set_key_in_text(&m, "  角斗士的终幕礼;; "), Some("GladiatorsFinale".to_string()));
}

#[test]
fn set_name_on_a_later_line() {
    let m = sets();
    assert_eq!(
        find_set_key_in_text(&m, "2件套：攻击力提高18%\n角斗士的终幕礼:\n"),
        Some("GladiatorsFinale".to_string())
    );
}

#[test]
fn set_name_missing() {
    let m = sets();
    assert_eq!(find_set_key_in_text(&m, ""), None);
    assert_eq!(find_set_key_in_text(&m, "生命值"), None);
    // One ASCII letter on its own line is too short to name a set.
    assert_eq!(find_set_key_in_text(&m, "x\nA"), None);
    // The whole text may still name it.
    assert_eq!(find_set_key_in_text(&m, "A"), Some("OneLetter".to_string()));
}

fn sub(key: &str, tenths: i64) -> GoodSubStat {
    GoodSubStat { key: key.to_string(), value_tenths: tenths, initial_value_tenths: None }
}

#[test]
fn fingerprint_of_an_artifact() {
    let a = GoodArtifact {
        set_key: "GladiatorsFinale".to_string(),
        slot_key: "flower".to_string(),
        rarity: 5,
        level: 20,
        main_stat_key: "hp".to_string(),
        substats: vec![sub("critRate_", 39), sub("atk", 190), sub("def_", 58)],
        location: "".to_string(),
        lock: true,
        astral_mark: false,
        elixir_crafted: false,
        unactivated_substats: vec![],
        total_rolls: None,
    };
    assert_eq!(
        artifact_fingerprint(&a),
        "GladiatorsFinale|flower|20|hp|5|critRate_:3.9;atk:19;def_:5.8"
    );
    let mut b = a.clone();
    b.substats = vec![];
    assert_eq!(artifact_fingerprint(&b), "GladiatorsFinale|flower|20|hp|5|");
    b.substats = vec![sub("hp", -5)];
    assert_eq!(artifact_fingerprint(&b), "GladiatorsFinale|flower|20|hp|5|hp:-0.5");
}

use good_scanner::artifact_text::{
    main_stat_for, missing_main_stat_step, prefer_by_cjk, slot_step, substat_line_step, LineStep, SlotStep,
};

#[test]
fn slot_and_main_stat_decisions() {
    assert!(matches!(slot_step(3, Some("flower".to_string()), true), SlotStep::Stop));
    assert!(matches!(slot_step(5, Some("sands".to_string()), false), SlotStep::Slot(k) if k == "sands"));
    assert!(matches!(slot_step(4, None, false), SlotStep::Skip));
    assert!(matches!(slot_step(5, None, true), SlotStep::Skip));
    assert!(matches!(slot_step(5, None, false), SlotStep::Fail));
    assert_eq!(main_stat_for("flower", None), Some("hp".to_string()));
    assert_eq!(main_stat_for("plume", Some("def".to_string())), Some("atk".to_string()));
    assert_eq!(main_stat_for("sands", Some("atk".to_string())), Some("atk_".to_string()));
    assert_eq!(main_stat_for("goblet", Some("pyro_dmg_".to_string())), Some("pyro_dmg_".to_string()));
    assert_eq!(main_stat_for("circlet", None), None);
    assert!(matches!(missing_main_stat_step(true), SlotStep::Skip));
    assert!(matches!(missing_main_stat_step(false), SlotStep::Fail));
}

#[test]
fn substat_lines_and_readings() {
    assert_eq!(substat_line_step("  "), LineStep::Ignore);
    assert_eq!(substat_line_step(" x "), LineStep::Ignore);
    assert_eq!(substat_line_step("暴"), LineStep::Parse);
    assert_eq!(substat_line_step("角斗士 2件套：攻击力"), LineStep::Stop);
    assert_eq!(substat_line_step("暴击率+3.9%"), LineStep::Parse);
    assert_eq!(prefer_by_cjk("abc".to_string(), "暴击".to_string()), "暴击");
    assert_eq!(prefer_by_cjk("暴击".to_string(), "暴伤".to_string()), "暴击");
    assert_eq!(prefer_by_cjk("暴击率".to_string(), "x".to_string()), "暴击率");
}
