use good_scanner::http::{check_origin, parse_job_id, route, Method, OriginCheck, Route};
use good_scanner::lang::Lang;
use good_scanner::models::{
    EquipInstruction, EquipRequest, GoodArtifact, GoodCharacter, GoodSubStat, GoodTalent,
    InstructionResult, InstructionStatus, JobPhase, PhaseProgress, PhaseState, LockManageRequest, ManageResult,
    ManageSummary, ScanRequest,
};
use good_scanner::server::{JobRequest, Reply, ServerCore};

fn artifact(set: &str, slot: &str, level: i32, rarity: i32) -> GoodArtifact {
    GoodArtifact {
        set_key: set.to_string(),
        slot_key: slot.to_string(),
        rarity,
        level,
        main_stat_key: "hp".to_string(),
        substats: vec![GoodSubStat { key: "critRate_".to_string(), value_tenths: 39, initial_value_tenths: None }],
        location: String::new(),
        lock: false,
        astral_mark: false,
        elixir_crafted: false,
        unactivated_substats: Vec::new(),
        total_rolls: None,
    }
}

fn json(r: &Reply) -> (u16, String) {
    match r {
        Reply::Json { status, body } => (*status, body.clone()),
        _ => panic!("expected a JSON reply"),
    }
}

fn get(core: &ServerCore, url: &str) -> Reply {
    core.handle_get(route(Method::Get, url), url, true, true, "{}")
}

#[test]
fn origins_are_checked() {
    assert!(matches!(check_origin(Some("https://ggartifact.com")), OriginCheck::Allowed(_)));
    assert!(matches!(check_origin(Some("http://localhost:3000")), OriginCheck::Allowed(_)));
    assert!(matches!(check_origin(Some("http://127.0.0.1:5173")), OriginCheck::Allowed(_)));
    assert!(matches!(check_origin(Some("https://evil.com")), OriginCheck::Rejected));
    assert!(matches!(check_origin(Some("http://localhostevil.com")), OriginCheck::Rejected));
    assert!(matches!(check_origin(None), OriginCheck::Absent));
    match check_origin(Some("https://ggartifact.com//")) {
        OriginCheck::Allowed(o) => assert_eq!(o, "https://ggartifact.com"),
        _ => panic!("trailing slashes are ignored"),
    }
}

#[test]
fn routes_and_job_ids() {
    assert_eq!(route(Method::Post, "/manage"), Route::Manage);
    assert_eq!(route(Method::Get, "/manage"), Route::NotFound);
    assert_eq!(route(Method::Get, "/result?jobId=x"), Route::Result);
    assert_eq!(route(Method::Get, "/status"), Route::Status);
    assert_eq!(route(Method::Options, "/anything"), Route::Preflight);
    assert_eq!(route(Method::Get, "/nonexistent"), Route::NotFound);
    assert_eq!(parse_job_id("/result?jobId=abc"), Some("abc".to_string()));
    assert_eq!(parse_job_id("/result?x=1&jobId=abc&y=2"), Some("abc".to_string()));
    assert_eq!(parse_job_id("/result?jobId="), None);
    assert_eq!(parse_job_id("/result"), None);
    assert_eq!(parse_job_id("/result?jobId=a?b"), Some("a".to_string()));
}

#[test]
fn standard_manage_flow() {
    let mut core = ServerCore::new(Lang::En);
    assert_eq!(json(&get(&core, "/status")), (200, r#"{"state":"idle"}"#.to_string()));
    assert_eq!(json(&get(&core, "/health")), (200, r#"{"status":"ok","enabled":true,"busy":false,"gameAlive":true}"#.to_string()));
    assert_eq!(json(&get(&core, "/result")).0, 400);
    assert_eq!(json(&get(&core, "/result?jobId=nonexistent")).0, 404);
    assert_eq!(json(&get(&core, "/nonexistent")), (404, r#"{"error":"Not Found"}"#.to_string()));

    // Empty lists are refused.
    let (reply, job) = core.submit(JobRequest::Manage(LockManageRequest { lock: vec![], unlock: vec![] }));
    assert!(job.is_none());
    assert_eq!(json(&reply), (400, r#"{"error":"Both lock and unlock lists are empty"}"#.to_string()));

    // Invalid entries are refused with their position.
    let mut bad = artifact("GladiatorsFinale", "flower", 20, 3);
    let (reply, _) = core.submit(JobRequest::Manage(LockManageRequest { lock: vec![], unlock: vec![artifact("A", "flower", 20, 5), bad.clone()] }));
    assert_eq!(json(&reply), (400, r#"{"error":"unlock[1]: invalid rarity: 3 (must be 4-5)"}"#.to_string()));
    bad.rarity = 5;
    bad.level = 21;
    let (reply, _) = core.submit(JobRequest::Manage(LockManageRequest { lock: vec![bad], unlock: vec![] }));
    assert_eq!(json(&reply), (400, r#"{"error":"lock[0]: invalid level: 21 (must be 0-20)"}"#.to_string()));
    let (reply, _) = core.submit(JobRequest::Manage(LockManageRequest { lock: vec![artifact(" ", "flower", 0, 4)], unlock: vec![] }));
    assert_eq!(json(&reply), (400, r#"{"error":"lock[0]: empty setKey"}"#.to_string()));
    assert_eq!(core.job.state, JobPhase::Idle);

    // A valid request is accepted.
    let req = LockManageRequest {
        lock: vec![artifact("GladiatorsFinale", "flower", 20, 5)],
        unlock: vec![artifact("WanderersTroupe", "plume", 16, 5)],
    };
    let (reply, job) = core.submit(JobRequest::Manage(req));
    let (status, body) = json(&reply);
    assert_eq!(status, 202);
    let (id, job) = job.expect("accepted");
    assert_eq!(id.len(), 36);
    assert_eq!(body, format!(r#"{{"jobId":"{}","total":2}}"#, id));
    assert_eq!(core.job.state, JobPhase::Running);

    // While it runs: busy, 409 on result and on new jobs.
    assert!(json(&get(&core, "/health")).1.contains(r#""busy":true"#));
    assert_eq!(json(&get(&core, &format!("/result?jobId={}", id))), (409, r#"{"error":"job still running"}"#.to_string()));
    assert_eq!(json(&core.admission(true).unwrap()).0, 409);
    assert_eq!(json(&core.admission(false).unwrap()).0, 503);
    assert_eq!(json(&get(&core, "/status")).1, format!(r#"{{"state":"running","jobId":"{}","progress":{{"completed":0,"total":2,"currentId":"","phase":""}}}}"#, id));

    // The execution thread runs it.
    core.begin_job(&job);
    core.record_progress(1, 2, "lock:0", "锁定变更 / Lock changes");
    assert!(json(&get(&core, "/status")).1.contains(r#""completed":1,"total":2,"currentId":"lock:0""#));
    let results = vec![
        InstructionResult { id: "lock:0".to_string(), status: InstructionStatus::Success },
        InstructionResult { id: "unlock:0".to_string(), status: InstructionStatus::NotFound },
    ];
    let summary = ManageSummary::from_results(&results);
    let snapshot = vec![artifact("GladiatorsFinale", "flower", 20, 5)];
    core.finish_job(id.clone(), ManageResult { results, summary }, Some(snapshot), true);

    assert_eq!(json(&get(&core, "/status")).1, format!(r#"{{"state":"completed","jobId":"{}","summary":{{"total":2,"success":1,"already_correct":0,"not_found":1,"errors":0,"aborted":0}}}}"#, id));
    assert!(matches!(get(&core, &format!("/result?jobId={}", id)), Reply::JobResult));
    assert_eq!(json(&get(&core, "/result?jobId=other")).0, 404);
    assert!(matches!(get(&core, "/artifacts"), Reply::ArtifactData));
    assert!(matches!(get(&core, &format!("/artifacts?jobId={}", id)), Reply::ArtifactData));
    assert_eq!(json(&get(&core, "/artifacts?jobId=nonexistent")).0, 404);
    assert!(core.admission(true).is_none());
}

#[test]
fn artifact_cache_is_dropped_by_game_changing_jobs() {
    let mut core = ServerCore::new(Lang::En);
    assert_eq!(json(&get(&core, "/artifacts")), (404, r#"{"error":"No artifact data available"}"#.to_string()));
    core.finish_scan("scan-1".to_string(), None, None, Some(vec![artifact("A", "flower", 20, 5)]));
    assert!(matches!(get(&core, "/artifacts?jobId=scan-1"), Reply::ArtifactData));

    // A lock job drops the data as soon as it starts.
    let req = JobRequest::Manage(LockManageRequest { lock: vec![artifact("A", "flower", 20, 5)], unlock: vec![] });
    core.begin_job(&req);
    assert_eq!(json(&get(&core, "/artifacts")).0, 404);

    // A manage job without a snapshot leaves nothing stale behind.
    core.finish_scan("scan-2".to_string(), None, None, Some(vec![artifact("A", "flower", 20, 5)]));
    core.finish_job("job-3".to_string(), ManageResult { results: vec![], summary: ManageSummary::from_results(&vec![]) }, None, true);
    assert_eq!(json(&get(&core, "/artifacts?jobId=scan-2")).0, 404);

    // A scan leaves the data in place when it starts.
    core.finish_scan("scan-4".to_string(), None, None, Some(vec![]));
    core.begin_job(&JobRequest::Scan(ScanRequest { characters: true, weapons: false, artifacts: false }));
    assert!(matches!(get(&core, "/artifacts"), Reply::ArtifactData));
}

#[test]
fn scan_flow_and_caches() {
    let mut core = ServerCore::new(Lang::Zh);
    let (reply, job) = core.submit(JobRequest::Scan(ScanRequest { characters: false, weapons: false, artifacts: false }));
    assert!(job.is_none());
    assert_eq!(json(&reply), (400, r#"{"error":"至少需要一个扫描目标"}"#.to_string()));
    assert_eq!(json(&get(&core, "/characters")).0, 400);
    assert_eq!(json(&get(&core, "/characters?jobId=x")), (404, r#"{"error":"no characters data for this jobId"}"#.to_string()));

    let (reply, job) = core.submit(JobRequest::Scan(ScanRequest { characters: true, weapons: true, artifacts: true }));
    let (id, _) = job.expect("accepted");
    assert_eq!(json(&reply), (202, format!(r#"{{"jobId":"{}","targets":{{"characters":true,"weapons":true,"artifacts":true}}}}"#, id)));
    let sp = core.job.scan_progress.expect("scans report per-category progress");
    assert!(core.job.progress.is_none());
    assert_eq!(sp.characters, Some(PhaseProgress::pending()));
    core.record_scan_progress(1, 3);
    let sp = core.job.scan_progress.unwrap();
    assert_eq!(sp.characters.unwrap().state, PhaseState::Complete);
    assert_eq!(sp.weapons.unwrap().state, PhaseState::Running);
    assert_eq!(sp.artifacts.unwrap().state, PhaseState::Pending);
    assert!(core.job.progress.is_none());
    let c = GoodCharacter {
        key: "Furina".to_string(), level: 90, constellation: 0, ascension: 6,
        talent: GoodTalent { auto: 1, skill: 1, burst: 1 }, element: None,
    };
    core.finish_scan(id.clone(), Some(vec![c]), Some(vec![]), None);
    let summary = core.job.result.as_ref().unwrap().summary;
    assert_eq!((summary.total, summary.success, summary.errors), (2, 2, 0));
    let ids: Vec<String> = core.job.result.as_ref().unwrap().results.iter().map(|r| r.id.clone()).collect();
    assert_eq!(ids, vec!["characters".to_string(), "weapons".to_string()]);
    assert!(matches!(get(&core, &format!("/characters?jobId={}", id)), Reply::CharacterData));
    assert!(matches!(get(&core, &format!("/weapons?jobId={}", id)), Reply::WeaponData));
    assert_eq!(json(&get(&core, "/characters?jobId=nonexistent")).0, 404);
}

#[test]
fn game_init_failure_reports_ui_errors() {
    let mut core = ServerCore::new(Lang::En);
    let req = JobRequest::Equip(EquipRequest { equip: vec![
        EquipInstruction { artifact: artifact("A", "flower", 20, 5), location: "Furina".to_string() },
        EquipInstruction { artifact: artifact("B", "plume", 20, 5), location: String::new() },
    ] });
    let (_, job) = core.submit(req);
    let (id, job) = job.expect("accepted");
    core.fail_init(id.clone(), &job);
    let result = core.job.result.as_ref().unwrap();
    assert_eq!(result.results.len(), 2);
    assert_eq!(result.results[1].id, "item_1");
    assert!(result.results.iter().all(|r| r.status == InstructionStatus::UiError));
    assert_eq!((result.summary.total, result.summary.errors), (2, 2));

    core.finish_failed("other".to_string());
    let s = core.job.result.as_ref().unwrap().summary;
    assert_eq!((s.total, s.errors), (0, 1));
}

#[test]
fn submission_failure_and_post_errors() {
    let mut core = ServerCore::new(Lang::En);
    let (_, job) = core.submit(JobRequest::Scan(ScanRequest { characters: true, weapons: false, artifacts: false }));
    assert!(job.is_some());
    let reply = core.submission_failed();
    assert_eq!(json(&reply), (500, r#"{"error":"Execution thread unavailable"}"#.to_string()));
    assert_eq!(json(&get(&core, "/status")).1, r#"{"state":"idle"}"#);
    assert!(core.body_too_large(5 * 1024 * 1024).is_none());
    let r = core.body_too_large(5 * 1024 * 1024 + 1).unwrap();
    assert_eq!(json(&r).0, 413);
    assert_eq!(json(&core.parse_failed("expected value")), (400, r#"{"error":"JSON parse error: expected value"}"#.to_string()));
    assert_eq!(json(&core.read_failed("broken pipe")), (400, r#"{"error":"Failed to read body: broken pipe"}"#.to_string()));
    assert!(matches!(core.handle_get(Route::Preflight, "/manage", true, true, ""), Reply::NoContent));
}

#[test]
fn scan_jobs_report_per_category_progress() {
    let mut core = ServerCore::new(Lang::En);
    let (_, job) = core.submit(JobRequest::Scan(ScanRequest { characters: true, weapons: false, artifacts: true }));
    assert!(job.is_some());
    assert!(core.job.progress.is_none());
    let sp = core.job.scan_progress.unwrap();
    assert_eq!(sp.characters, Some(PhaseProgress::pending()));
    assert_eq!(sp.weapons, None);
    assert_eq!(sp.artifacts, Some(PhaseProgress::pending()));
    core.record_scan_progress(0, 2);
    let sp = core.job.scan_progress.unwrap();
    assert_eq!(sp.characters.unwrap().state, PhaseState::Running);
    assert_eq!(sp.artifacts.unwrap().state, PhaseState::Pending);
    core.record_scan_progress(1, 2);
    let sp = core.job.scan_progress.unwrap();
    assert_eq!(sp.characters.unwrap().state, PhaseState::Complete);
    assert_eq!(sp.artifacts.unwrap().state, PhaseState::Running);
    assert_eq!(sp.weapons, None);
    // A manage job keeps linear progress.
    let mut m = ServerCore::new(Lang::En);
    let (_, _) = m.submit(JobRequest::Manage(LockManageRequest { lock: vec![artifact("A", "flower", 20, 5)], unlock: vec![] }));
    assert!(m.job.progress.is_some() && m.job.scan_progress.is_none());
}

#[test]
fn running_status_escapes_id_and_phase() {
    let mut core = ServerCore::new(Lang::En);
    let (_, job) = core.submit(JobRequest::Manage(LockManageRequest { lock: vec![artifact("A", "flower", 20, 5)], unlock: vec![] }));
    let (id, _) = job.unwrap();
    core.record_progress(0, 1, "lock:\"0\"\n", "锁定\\变更\u{1}");
    let body = core.job.status_json("");
    assert_eq!(
        body,
        format!(
            r#"{{"state":"running","jobId":"{}","progress":{{"completed":0,"total":1,"currentId":"lock:\"0\"\n","phase":"锁定\\变更\u0001"}}}}"#,
            id
        )
    );
}
