use std::collections::HashMap;

use good_scanner::models::{
    EquipInstruction, EquipRequest, GoodArtifact, InstructionResult, InstructionStatus,
    LockManageRequest,
};
use good_scanner::orchestrator::{
    build_equip_targets, build_lock_targets, complete_results, count_solver_failures,
    lock_job_outcome, max_target_level,
};

fn artifact(set: &str, level: i32, astral: bool) -> GoodArtifact {
    GoodArtifact {
        set_key: set.to_string(),
        slot_key: "flower".to_string(),
        rarity: 5,
        level,
        main_stat_key: "hp".to_string(),
        substats: Vec::new(),
        location: String::new(),
        lock: !astral,
        astral_mark: astral,
        elixir_crafted: false,
        unactivated_substats: Vec::new(),
        total_rolls: Some(0),
    }
}

fn result(id: &str, status: InstructionStatus) -> InstructionResult {
    InstructionResult { id: id.to_string(), status }
}

#[test]
fn targets_are_numbered_per_list() {
    let req = LockManageRequest {
        lock: vec![artifact("A", 20, false), artifact("B", 16, false)],
        unlock: vec![artifact("C", 4, true)],
    };
    let t = build_lock_targets(&req);
    let ids: Vec<&str> = t.iter().map(|x| x.result_id.as_str()).collect();
    assert_eq!(ids, vec!["lock:0", "lock:1", "unlock:0"]);
    assert!(t[0].desired_lock && !t[2].desired_lock);
    assert_eq!(max_target_level(&t, true), 20);
    assert_eq!(max_target_level(&t, false), -1);
    let e = build_equip_targets(&EquipRequest { equip: vec![EquipInstruction { artifact: artifact("A", 0, false), location: "Furina".to_string() }] });
    assert_eq!(e[0].result_id, "equip:0");
    assert_eq!(e[0].target_location, "Furina");
}

#[test]
fn unreported_targets_are_completed() {
    let req = LockManageRequest { lock: vec![artifact("A", 20, false), artifact("B", 20, false)], unlock: vec![artifact("C", 20, true)] };
    let t = build_lock_targets(&req);
    let reported = vec![result("lock:1", InstructionStatus::Success)];
    let all = complete_results(&reported, &t, false);
    let got: Vec<(String, InstructionStatus)> = all.iter().map(|r| (r.id.clone(), r.status)).collect();
    assert_eq!(got, vec![
        ("lock:1".to_string(), InstructionStatus::Success),
        ("lock:0".to_string(), InstructionStatus::Skipped),
        ("unlock:0".to_string(), InstructionStatus::Skipped),
    ]);
    let cancelled = complete_results(&reported, &t, true);
    assert_eq!(cancelled[1].status, InstructionStatus::Aborted);
}

#[test]
fn snapshot_reflects_successful_toggles() {
    let req = LockManageRequest { lock: vec![artifact("A", 20, true)], unlock: vec![artifact("B", 20, false)] };
    let t = build_lock_targets(&req);
    let scanned = vec![(0usize, artifact("A", 20, true)), (1usize, artifact("B", 20, true)), (2usize, artifact("Z", 0, false))];
    let mut matched = HashMap::new();
    matched.insert(0usize, 0usize);
    matched.insert(1usize, 1usize);
    let reported = vec![result("lock:0", InstructionStatus::AlreadyCorrect), result("unlock:0", InstructionStatus::Success)];
    let (res, snap) = lock_job_outcome(&t, &reported, &scanned, &matched, true, 0, false);
    assert_eq!(res.summary.total, 2);
    assert_eq!(res.summary.success, 1);
    let snap = snap.expect("a complete scan gives a snapshot");
    assert_eq!(snap.len(), 3);
    assert!(!snap[0].lock && snap[0].astral_mark);
    assert!(!snap[1].lock && !snap[1].astral_mark);
    assert_eq!(snap[2].set_key, "Z");

    let (_, none) = lock_job_outcome(&t, &reported, &scanned, &matched, false, 0, false);
    assert!(none.is_none());
    let (_, none) = lock_job_outcome(&t, &reported, &scanned, &matched, true, 1, false);
    assert!(none.is_none());
    let mut unsolved = scanned.clone();
    unsolved[0].1.total_rolls = None;
    assert_eq!(count_solver_failures(&unsolved), 1);
    let (_, none) = lock_job_outcome(&t, &reported, &unsolved, &matched, true, 0, false);
    assert!(none.is_none());
}
