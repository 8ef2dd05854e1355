use good_scanner::char_scan::{
    capture_tabs, jump_step_delay, phase2_move, popup_delay, talent_rows, AfterSent, CharTab,
    CharacterScanState, MissStep, NameStep, ScanResults, StopReason,
};
use good_scanner::models::{GoodCharacter, GoodTalent};
use good_scanner::talents::ScanMeta;

fn character(key: &str, level: i32, ascension: i32, talents: (i32, i32, i32)) -> GoodCharacter {
    GoodCharacter {
        key: key.to_string(),
        level,
        constellation: 0,
        ascension,
        talent: GoodTalent { auto: talents.0, skill: talents.1, burst: talents.2 },
        element: None,
    }
}

fn meta() -> ScanMeta {
    ScanMeta { talent_suspicious: false, raw_skill: 6, raw_burst: 6 }
}

#[test]
fn walk_alternates_and_detects_the_loop() {
    let mut s = CharacterScanState::new();
    assert_eq!(s.on_name("Furina"), NameStep::Capture { on_talents: false });
    assert_eq!(capture_tabs(false, false), vec![CharTab::Constellation, CharTab::Talents]);
    s.on_sent();
    assert_eq!(s.after_sent(1, 0), AfterSent::Continue);
    assert_eq!(s.on_name("Aloy"), NameStep::Capture { on_talents: true });
    assert_eq!(capture_tabs(true, true), vec![CharTab::Attributes]);
    s.on_sent();
    assert_eq!(s.viewed, 2);
    assert_eq!(s.sent, 2);
    assert_eq!(s.on_name("Furina"), NameStep::LoopDetected);
    assert_eq!(s.viewed, 2);
}

#[test]
fn unreadable_names_are_skipped_then_stop() {
    let mut s = CharacterScanState::new();
    assert_eq!(s.on_name_missing(false), MissStep::Abort);
    assert_eq!(s.viewed, 0);
    s.on_name("Furina");
    s.on_sent();
    // On the talents tab now: a miss goes back to the attributes tab.
    assert_eq!(s.on_name_missing(true), MissStep::Skip { back_to_attributes: true });
    assert!(!s.reverse);
    assert_eq!(s.stop_after_miss(1), None);
    for _ in 0..3 {
        assert_eq!(s.on_name_missing(true), MissStep::Skip { back_to_attributes: false });
        assert_eq!(s.stop_after_miss(1), None);
    }
    assert_eq!(s.on_name_missing(true), MissStep::Skip { back_to_attributes: false });
    assert_eq!(s.consecutive_failures, 5);
    assert_eq!(s.stop_after_miss(1), Some(StopReason::TooManyFailures));
    // A readable name starts the count again.
    s.on_name("Nahida");
    assert_eq!(s.consecutive_failures, 0);
}

#[test]
fn no_results_after_several_views() {
    let mut s = CharacterScanState::new();
    for _ in 0..4 {
        s.on_name_missing(true);
    }
    assert_eq!(s.stop_after_miss(0), Some(StopReason::NoResults));

    let mut t = CharacterScanState::new();
    let names = ["A", "B", "C", "D"];
    for n in names.iter() {
        t.on_name(n);
        t.on_sent();
    }
    assert_eq!(t.after_sent(0, 0), AfterSent::Recheck);
    assert_eq!(t.after_recheck(0), Some(StopReason::NoResults));
    assert_eq!(t.after_recheck(2), None);
    assert_eq!(t.after_sent(2, 0), AfterSent::Continue);
    assert_eq!(t.after_sent(2, 2), AfterSent::Stop(StopReason::MaxCount));
    assert_eq!(t.after_sent(1, 2), AfterSent::Continue);
}

#[test]
fn results_and_second_pass_targets() {
    let mut r = ScanResults::new();
    r.record_scanned(0, Some(character("Furina", 90, 6, (10, 10, 10))), meta());
    r.record_scanned(1, None, meta());
    // Level 93 is no level a character can show.
    r.record_scanned(2, Some(character("Aloy", 93, 6, (1, 1, 1))), meta());
    // Talent 8 is above what ascension 2 allows.
    r.record_scanned(3, Some(character("Amber", 40, 2, (8, 1, 1))), meta());
    assert_eq!(r.characters.len(), 3);
    assert_eq!(r.metas.len(), 4);
    assert_eq!(r.viewed_indices, vec![0, 2, 3]);
    assert_eq!(r.rescan_targets(), vec![(1, 2), (2, 3)]);
    r.record_rescanned(1, character("Aloy", 90, 6, (1, 1, 1)));
    assert_eq!(r.characters[1].level, 90);
    assert_eq!(r.rescan_targets(), vec![(2, 3)]);
}

#[test]
fn second_pass_navigation() {
    assert_eq!(phase2_move(0, 4), (false, 4));
    assert_eq!(phase2_move(4, 4), (false, 0));
    assert_eq!(phase2_move(6, 2), (true, 2));
    assert_eq!(talent_rows(false), [0, 1, 2]);
    assert_eq!(talent_rows(true), [0, 1, 3]);
    assert_eq!(popup_delay(400, true), 300);
    assert_eq!(popup_delay(400, false), 200);
    assert_eq!(jump_step_delay(800), 400);
    assert_eq!(jump_step_delay(150), 100);
}

use good_scanner::char_scan::{constellation_from_nodes, name_display, rescan_character, scanned_character};
use good_scanner::talents::ConstBonus;

fn bonuses() -> Vec<(String, ConstBonus)> {
    vec![(
        "Furina".to_string(),
        ConstBonus { c3: Some("Q".to_string()), c5: Some("E".to_string()) },
    )]
}

#[test]
fn first_pass_character_from_readings() {
    let (c, m) = scanned_character(
        "Furina".to_string(),
        Some("水".to_string()),
        90,
        6,
        6,
        (10, 13, 0),
        &bonuses(),
    );
    // C5: the +3 of the skill comes off; the burst read nothing (1), so
    // its +3 at C3 cannot be taken off and the reading is suspicious.
    assert_eq!((c.talent.auto, c.talent.skill, c.talent.burst), (10, 10, 1));
    assert!(m.talent_suspicious);
    assert_eq!((m.raw_skill, m.raw_burst), (13, 1));
    assert_eq!(c.element, None);
    let (t, _) = scanned_character(
        "Traveler".to_string(),
        Some(" 雷 ".to_string()),
        80,
        5,
        0,
        (9, 8, 7),
        &bonuses(),
    );
    assert_eq!(t.element, Some("Electro".to_string()));
    assert_eq!((t.talent.auto, t.talent.skill, t.talent.burst), (9, 8, 7));
}

#[test]
fn constellation_counts_leading_active_nodes() {
    assert_eq!(constellation_from_nodes(&vec![]), 0);
    assert_eq!(constellation_from_nodes(&vec![true, true, false, true, true, true]), 2);
    assert_eq!(constellation_from_nodes(&vec![true; 6]), 6);
    assert_eq!(constellation_from_nodes(&vec![false, true]), 0);
}

#[test]
fn second_pass_merges_what_improved() {
    let old = GoodCharacter {
        key: "Amber".to_string(),
        level: 80,
        constellation: 0,
        ascension: 5,
        talent: GoodTalent { auto: 1, skill: 1, burst: 6 },
        element: Some("Pyro".to_string()),
    };
    // Level higher, talents better (fewer at 1), element dropped (Amber's
    // does not vary).
    let c = rescan_character(old.clone(), 90, 6, 0, (2, 0, 6), (0, 5, 6), &bonuses());
    assert_eq!((c.level, c.ascension), (90, 6));
    assert_eq!((c.talent.auto, c.talent.skill, c.talent.burst), (2, 5, 6));
    assert_eq!(c.element, None);
    // A lower level reading and no better talents keep the old values.
    let d = rescan_character(old.clone(), 70, 5, 0, (1, 1, 6), (0, 0, 0), &bonuses());
    assert_eq!((d.level, d.ascension), (80, 5));
    assert_eq!((d.talent.auto, d.talent.skill, d.talent.burst), (1, 1, 6));
    // A changed constellation takes the new talents whatever they are.
    let e = rescan_character(old, 80, 5, 1, (1, 1, 1), (0, 0, 0), &bonuses());
    assert_eq!(e.constellation, 1);
    assert_eq!((e.talent.auto, e.talent.skill, e.talent.burst), (1, 1, 1));
}

#[test]
fn readable_name_shown_only_when_needed() {
    let map = vec![("芙宁娜".to_string(), "Furina".to_string())];
    assert_eq!(name_display("水/芙宁娜 ", "Furina", &map), None);
    assert_eq!(name_display("水／芙宁挪", "Furina", &map), Some("芙宁娜".to_string()));
    assert_eq!(name_display("Aloy", "Aloy", &map), None);
    assert_eq!(name_display("冰/埃洛伊", "Aloy", &map), Some("Aloy".to_string()));
}

use good_scanner::char_scan::snap_impossible_level;

#[test]
fn impossible_levels_are_snapped_at_the_end() {
    let mut c = character("Furina", 93, 5, (10, 10, 10));
    assert!(snap_impossible_level(&mut c));
    assert_eq!((c.level, c.ascension), (90, 6));
    let mut d = character("Aloy", 97, 5, (1, 1, 1));
    assert!(snap_impossible_level(&mut d));
    assert_eq!((d.level, d.ascension), (95, 6));
    for lv in [90, 95, 100, 80, 1] {
        let mut e = character("Amber", lv, 5, (1, 1, 1));
        assert!(!snap_impossible_level(&mut e));
        assert_eq!((e.level, e.ascension), (lv, 5));
    }
}
