use good_scanner::matching::{find_best_match, match_score};
use good_scanner::models::{GoodArtifact, GoodSubStat};

fn subs(list: &[(&str, i64)]) -> Vec<GoodSubStat> {
    list.iter()
        .map(|(k, v)| GoodSubStat { key: k.to_string(), value_tenths: *v, initial_value_tenths: None })
        .collect()
}

fn make_artifact(set: &str, slot: &str, rarity: i32, level: i32, main: &str, s: &[(&str, i64)]) -> GoodArtifact {
    GoodArtifact {
        set_key: set.to_string(),
        slot_key: slot.to_string(),
        rarity,
        level,
        main_stat_key: main.to_string(),
        substats: subs(s),
        location: String::new(),
        lock: false,
        astral_mark: false,
        elixir_crafted: false,
        unactivated_substats: Vec::new(),
        total_rolls: None,
    }
}

fn make_artifact_with_unactivated(
    set: &str, slot: &str, rarity: i32, level: i32, main: &str,
    s: &[(&str, i64)], unact: &[(&str, i64)],
) -> GoodArtifact {
    let mut art = make_artifact(set, slot, rarity, level, main, s);
    art.unactivated_substats = subs(unact);
    art
}

#[test]
fn test_exact_match() {
    let scanned = make_artifact("GladiatorsFinale", "flower", 5, 20, "hp",
        &[("critRate_", 39), ("critDMG_", 78), ("atk_", 58), ("def", 230)]);
    let target = make_artifact("GladiatorsFinale", "flower", 5, 20, "hp",
        &[("critRate_", 39), ("critDMG_", 78), ("atk_", 58), ("def", 230)]);
    let score = match_score(&scanned, &target);
    assert!(score.is_some());
    assert!(score.unwrap() > 80);
}

#[test]
fn test_hard_field_mismatch() {
    let scanned = make_artifact("GladiatorsFinale", "flower", 5, 20, "hp", &[]);
    assert!(match_score(&scanned, &make_artifact("GladiatorsFinale", "plume", 5, 20, "hp", &[])).is_none());
    assert!(match_score(&scanned, &make_artifact("GladiatorsFinale", "flower", 4, 20, "hp", &[])).is_none());
    assert!(match_score(&scanned, &make_artifact("GladiatorsFinale", "flower", 5, 16, "hp", &[])).is_none());
}

#[test]
fn test_partial_substat_match() {
    let scanned = make_artifact("GladiatorsFinale", "flower", 5, 20, "hp",
        &[("critRate_", 39), ("critDMG_", 78), ("atk_", 58), ("def", 230)]);
    let target = make_artifact("GladiatorsFinale", "flower", 5, 20, "hp",
        &[("critRate_", 39), ("critDMG_", 78), ("atk_", 58), ("hp_", 47)]);
    let score = match_score(&scanned, &target);
    assert!(score.is_some());
    assert!(score.unwrap() < 70);
}

#[test]
fn test_disambiguation_by_value() {
    let art1 = make_artifact("GladiatorsFinale", "flower", 5, 20, "hp",
        &[("critRate_", 39), ("critDMG_", 78)]);
    let art2 = make_artifact("GladiatorsFinale", "flower", 5, 20, "hp",
        &[("critRate_", 105), ("critDMG_", 156)]);
    let target = make_artifact("GladiatorsFinale", "flower", 5, 20, "hp",
        &[("critRate_", 105), ("critDMG_", 156)]);
    let score1 = match_score(&art1, &target).unwrap();
    let score2 = match_score(&art2, &target).unwrap();
    assert!(score2 > score1, "Closer values should score higher");
}

#[test]
fn test_unactivated_substats_matching() {
    let scanned = make_artifact_with_unactivated(
        "GladiatorsFinale", "flower", 5, 0, "hp",
        &[("critRate_", 39), ("critDMG_", 78), ("atk_", 58)],
        &[("def", 230)],
    );
    let target_with = make_artifact_with_unactivated(
        "GladiatorsFinale", "flower", 5, 0, "hp",
        &[("critRate_", 39), ("critDMG_", 78), ("atk_", 58)],
        &[("def", 230)],
    );
    let target_without = make_artifact(
        "GladiatorsFinale", "flower", 5, 0, "hp",
        &[("critRate_", 39), ("critDMG_", 78), ("atk_", 58)],
    );
    let score_with = match_score(&scanned, &target_with).unwrap();
    let score_without = match_score(&scanned, &target_without).unwrap();
    assert!(score_with > score_without, "Matching unactivated substats should score higher");
}

#[test]
fn test_unactivated_substat_disambiguation() {
    let art1 = make_artifact_with_unactivated(
        "GladiatorsFinale", "flower", 5, 0, "hp",
        &[("critRate_", 39), ("critDMG_", 78), ("atk_", 58)],
        &[("def", 230)],
    );
    let art2 = make_artifact_with_unactivated(
        "GladiatorsFinale", "flower", 5, 0, "hp",
        &[("critRate_", 39), ("critDMG_", 78), ("atk_", 58)],
        &[("hp_", 47)],
    );
    let target = make_artifact_with_unactivated(
        "GladiatorsFinale", "flower", 5, 0, "hp",
        &[("critRate_", 39), ("critDMG_", 78), ("atk_", 58)],
        &[("def", 230)],
    );
    let score1 = match_score(&art1, &target).unwrap();
    let score2 = match_score(&art2, &target).unwrap();
    assert!(score1 > score2, "Matching unactivated substat should win disambiguation");
}

#[test]
fn scores_have_exact_values() {
    let target = make_artifact("GladiatorsFinale", "flower", 5, 20, "hp",
        &[("critRate_", 39), ("critDMG_", 78), ("atk_", 58), ("def", 230)]);
    assert_eq!(match_score(&target, &target), Some(90));
    // Percent tolerance is 0.2, flat tolerance is 1.5.
    let near = make_artifact("GladiatorsFinale", "flower", 5, 20, "hp",
        &[("critRate_", 41), ("critDMG_", 81), ("atk_", 58), ("def", 245)]);
    assert_eq!(match_score(&near, &target), Some(85));
    // Three shared keys out of differing key sets score 3 each.
    let other = make_artifact("GladiatorsFinale", "flower", 5, 20, "hp",
        &[("critRate_", 39), ("critDMG_", 78), ("atk_", 58), ("hp_", 47)]);
    assert_eq!(match_score(&other, &target), Some(59));
    // Both lists empty score nothing beyond the base.
    let bare = make_artifact("GladiatorsFinale", "flower", 5, 20, "hp", &[]);
    assert_eq!(match_score(&bare, &bare), Some(50));
}

#[test]
fn best_match_prefers_highest_then_earliest() {
    let scanned = make_artifact("GladiatorsFinale", "flower", 5, 20, "hp",
        &[("critRate_", 39), ("critDMG_", 78)]);
    let a = make_artifact("GladiatorsFinale", "flower", 5, 20, "hp", &[("critRate_", 39), ("critDMG_", 70)]);
    let b = make_artifact("GladiatorsFinale", "flower", 5, 20, "hp", &[("critRate_", 39), ("critDMG_", 78)]);
    let c = make_artifact("GladiatorsFinale", "flower", 5, 20, "hp", &[("critRate_", 39), ("critDMG_", 78)]);
    let d = make_artifact("GladiatorsFinale", "plume", 5, 20, "atk", &[]);
    let targets = vec![(7usize, &d), (3usize, &a), (5usize, &b), (9usize, &c)];
    assert_eq!(find_best_match(&scanned, &targets), Some((5, 80)));
    let none = vec![(1usize, &d)];
    assert_eq!(find_best_match(&scanned, &none), None);
}
