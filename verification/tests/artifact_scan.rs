use good_scanner::artifact_scan::{drop_low_value, ArtifactCollector, GridStep, ItemOutcome};
use good_scanner::models::{GoodArtifact, GoodSubStat};

fn art(set: &str, rarity: i32, level: i32, crit_tenths: i64) -> GoodArtifact {
    GoodArtifact {
        set_key: set.to_string(),
        slot_key: "flower".to_string(),
        rarity,
        level,
        main_stat_key: "hp".to_string(),
        substats: vec![GoodSubStat {
            key: "critRate_".to_string(),
            value_tenths: crit_tenths,
            initial_value_tenths: None,
        }],
        location: "".to_string(),
        lock: false,
        astral_mark: false,
        elixir_crafted: false,
        unactivated_substats: vec![],
        total_rolls: None,
    }
}

fn keys(c: &ArtifactCollector) -> Vec<i64> {
    c.artifacts.iter().map(|a| a.substats[0].value_tenths).collect()
}

#[test]
fn rows_are_kept_once() {
    let mut c = ArtifactCollector::new(4, true, 2);
    assert_eq!(c.on_item(ItemOutcome::Artifact(art("A", 5, 20, 31))), GridStep::Continue);
    assert!(c.artifacts.is_empty());
    assert_eq!(c.on_item(ItemOutcome::Artifact(art("A", 5, 20, 32))), GridStep::Continue);
    assert_eq!(keys(&c), vec![31, 32]);
    assert_eq!(c.seen_rows.len(), 1);
    // The same row again (the grid did not scroll): nothing added.
    c.on_item(ItemOutcome::Artifact(art("A", 5, 20, 31)));
    c.on_item(ItemOutcome::Artifact(art("A", 5, 20, 32)));
    assert_eq!(keys(&c), vec![31, 32]);
    assert_eq!(c.seen_rows.len(), 1);
    // After a scroll rows are compared afresh.
    c.page_scrolled();
    c.on_item(ItemOutcome::Artifact(art("A", 5, 20, 31)));
    c.on_item(ItemOutcome::Skip);
    assert_eq!(keys(&c), vec![31, 32, 31]);
    assert_eq!(c.seen_rows[0], "A|flower|20|hp|5|critRate_:3.1,skip");
}

#[test]
fn low_rarity_is_marked_but_not_kept() {
    let mut c = ArtifactCollector::new(5, true, 2);
    c.on_item(ItemOutcome::Artifact(art("A", 4, 20, 11)));
    c.on_item(ItemOutcome::Artifact(art("A", 5, 20, 12)));
    assert_eq!(keys(&c), vec![12]);
    assert_eq!(c.on_item(ItemOutcome::Stop), GridStep::Stop);
}

#[test]
fn failures_stop_the_walk() {
    let mut strict = ArtifactCollector::new(4, false, 8);
    assert_eq!(strict.on_item(ItemOutcome::Failed), GridStep::Stop);
    assert_eq!(strict.current_row, vec!["null".to_string()]);
    assert_eq!(strict.fail_count, 0);

    let mut lenient = ArtifactCollector::new(4, true, 100);
    for _ in 0..9 {
        assert_eq!(lenient.on_item(ItemOutcome::Failed), GridStep::Continue);
    }
    assert_eq!(lenient.on_item(ItemOutcome::Failed), GridStep::Stop);
    assert_eq!(lenient.fail_count, 10);
}

#[test]
fn partial_last_row_is_flushed() {
    let mut c = ArtifactCollector::new(4, true, 3);
    c.on_item(ItemOutcome::Artifact(art("A", 5, 0, 41)));
    c.finish();
    assert_eq!(keys(&c), vec![41]);
    assert!(c.pending_row.is_empty());
}

#[test]
fn unleveled_four_stars_of_five_star_sets_are_dropped() {
    let max = vec![("Gladiator".to_string(), 5), ("Instructor".to_string(), 4)];
    let arts = vec![
        art("Gladiator", 4, 0, 1),
        art("Gladiator", 4, 4, 2),
        art("Instructor", 4, 0, 3),
        art("Gladiator", 5, 0, 4),
        art("Unknown", 4, 0, 5),
    ];
    let kept: Vec<i64> = drop_low_value(arts, &max).iter().map(|a| a.substats[0].value_tenths).collect();
    assert_eq!(kept, vec![2, 3, 4, 5]);
}
