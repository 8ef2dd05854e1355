use good_scanner::http::{check_origin, route, Method, OriginCheck, Route};
use good_scanner::lang::Lang;
use good_scanner::models::{
    GoodArtifact, GoodCharacter, GoodSubStat, GoodTalent, GoodWeapon, InstructionResult,
    InstructionStatus, JobPhase, LockManageRequest, ManageResult, ManageSummary, ScanRequest,
};
use good_scanner::server::{alters_game, origin_rejected, JobRequest, Reply, ServerCore};

fn make_artifact(set: &str, slot: &str, level: i32, locked: bool) -> GoodArtifact {
    GoodArtifact {
        set_key: set.to_string(),
        slot_key: slot.to_string(),
        rarity: 5,
        level,
        main_stat_key: "hp".to_string(),
        substats: vec![GoodSubStat { key: "critRate_".to_string(), value_tenths: 39, initial_value_tenths: None }],
        location: String::new(),
        lock: locked,
        astral_mark: false,
        elixir_crafted: false,
        unactivated_substats: Vec::new(),
        total_rolls: None,
    }
}

fn make_character(key: &str, level: i32) -> GoodCharacter {
    GoodCharacter {
        key: key.to_string(),
        level,
        constellation: 0,
        ascension: 6,
        talent: GoodTalent { auto: 1, skill: 1, burst: 1 },
        element: None,
    }
}

fn make_weapon(key: &str, level: i32) -> GoodWeapon {
    GoodWeapon {
        key: key.to_string(),
        level,
        ascension: 6,
        refinement: 1,
        rarity: 5,
        location: String::new(),
        lock: false,
    }
}

fn make_result(statuses: &[(&str, InstructionStatus)]) -> ManageResult {
    let results: Vec<InstructionResult> = statuses
        .iter()
        .map(|(id, status)| InstructionResult { id: id.to_string(), status: status.clone() })
        .collect();
    let summary = ManageSummary::from_results(&results);
    ManageResult { results, summary }
}

/// The body of a manage request with one lock entry per id, as the
/// client sends it.
fn make_manage_request(ids: &[&str]) -> LockManageRequest {
    let mut a = make_artifact("GladiatorsFinale", "flower", 20, false);
    a.substats = vec![];
    LockManageRequest { lock: ids.iter().map(|_| a.clone()).collect(), unlock: vec![] }
}

fn status(r: &Reply) -> u16 {
    match r {
        Reply::Json { status, .. } => *status,
        Reply::NoContent => 204,
        _ => 200,
    }
}

fn body(r: &Reply) -> String {
    match r {
        Reply::Json { body, .. } => body.clone(),
        _ => String::new(),
    }
}

fn get(core: &ServerCore, url: &str) -> Reply {
    get_with(core, url, true)
}

fn get_with(core: &ServerCore, url: &str, enabled: bool) -> Reply {
    core.handle_get(route(Method::Get, url), url, enabled, true, "{}")
}

/// A POST of a job: the admission check, then the request itself.
fn post(core: &mut ServerCore, req: JobRequest, enabled: bool) -> (Reply, Option<(String, JobRequest)>) {
    if let Some(reply) = core.admission(enabled) {
        return (reply, None);
    }
    core.submit(req)
}

/// The execution thread runs an accepted manage job to its end.
fn run_manage(core: &mut ServerCore, job: (String, JobRequest), outcome: (ManageResult, Option<Vec<GoodArtifact>>)) {
    let (id, req) = job;
    core.begin_job(&req);
    core.finish_job(id, outcome.0, outcome.1, alters_game(&req));
}

fn job_id(reply: &Reply) -> String {
    let b = body(reply);
    let start = b.find(r#""jobId":""#).unwrap() + 9;
    let end = start + b[start..].find('"').unwrap();
    b[start..end].to_string()
}

#[test]
fn test_standard_flow() {
    let mut core = ServerCore::new(Lang::En);

    // === Read-only checks (no jobs submitted yet) ===
    let r = get(&core, "/health");
    assert_eq!(status(&r), 200);
    assert!(body(&r).contains(r#""status":"ok""#));
    assert!(body(&r).contains(r#""enabled":true"#));
    assert!(body(&r).contains(r#""busy":false"#));

    // CORS: allowed origins are echoed back.
    match check_origin(Some("https://ggartifact.com")) {
        OriginCheck::Allowed(o) => assert_eq!(o, "https://ggartifact.com"),
        _ => panic!("allowed origin"),
    }
    assert!(matches!(check_origin(Some("http://localhost:3000")), OriginCheck::Allowed(_)));
    assert!(matches!(check_origin(Some("http://127.0.0.1:5173")), OriginCheck::Allowed(_)));
    assert!(matches!(check_origin(None), OriginCheck::Absent));
    assert_eq!(status(&get(&core, "/health")), 200);
    // CORS: disallowed origin returns 403.
    assert!(matches!(check_origin(Some("https://evil.com")), OriginCheck::Rejected));
    let r = origin_rejected();
    assert_eq!(status(&r), 403);
    assert!(body(&r).contains("Origin not allowed"));
    // CORS: preflight.
    let pre = route(Method::Options, "/manage");
    assert_eq!(pre, Route::Preflight);
    assert_eq!(status(&core.handle_get(pre, "/manage", true, true, "{}")), 204);

    // manage: empty instructions returns 400.
    let (r, job) = post(&mut core, JobRequest::Manage(LockManageRequest { lock: vec![], unlock: vec![] }), true);
    assert_eq!(status(&r), 400);
    assert!(job.is_none());
    // manage: bad JSON returns 400.
    let r = core.parse_failed("expected value at line 1 column 1");
    assert_eq!(status(&r), 400);
    assert!(body(&r).contains("JSON"));

    // status: idle before any job.
    let r = get(&core, "/status");
    assert_eq!(status(&r), 200);
    assert!(body(&r).contains(r#""state":"idle""#));
    assert_eq!(status(&get(&core, "/result")), 400);
    assert_eq!(status(&get(&core, "/result?jobId=nonexistent")), 404);
    assert_eq!(status(&get(&core, "/nonexistent")), 404);
    assert_eq!(status(&get(&core, "/artifacts")), 404);
    assert_eq!(status(&get(&core, "/artifacts?jobId=nonexistent")), 404);

    // === Job 1: basic accept + artifacts stays 404 ===
    let (r, job) = post(&mut core, JobRequest::Manage(make_manage_request(&["a"])), true);
    assert_eq!(status(&r), 202);
    let job1_early_id = job_id(&r);
    assert!(body(&r).contains(r#""total":1"#));
    run_manage(&mut core, job.unwrap(), (make_result(&[("a", InstructionStatus::Success)]), None));
    assert_eq!(status(&get(&core, &format!("/artifacts?jobId={}", job1_early_id))), 404);

    // === Job 2: full lifecycle (submit/poll/result) ===
    let (r, job) = post(&mut core, JobRequest::Manage(make_manage_request(&["i1", "i2", "i3"])), true);
    assert_eq!(status(&r), 202);
    let id2 = job_id(&r);
    run_manage(
        &mut core,
        job.unwrap(),
        (
            make_result(&[
                ("i1", InstructionStatus::Success),
                ("i2", InstructionStatus::NotFound),
                ("i3", InstructionStatus::AlreadyCorrect),
            ]),
            None,
        ),
    );
    let st = body(&get(&core, "/status"));
    assert!(st.contains(r#""state":"completed""#));
    assert!(st.contains(r#""total":3,"success":1,"already_correct":1,"not_found":1"#));
    let r = get(&core, &format!("/result?jobId={}", id2));
    assert_eq!(status(&r), 200);
    assert!(matches!(r, Reply::JobResult));
    let res = &core.job.result.as_ref().unwrap().results;
    assert_eq!(res[0].id, "i1");
    assert_eq!(res[0].status, InstructionStatus::Success);
    assert_eq!(res[1].id, "i2");
    assert_eq!(res[1].status, InstructionStatus::NotFound);
    assert_eq!(res[2].id, "i3");
    assert_eq!(res[2].status, InstructionStatus::AlreadyCorrect);
    // Result is idempotent.
    assert_eq!(status(&get(&core, &format!("/result?jobId={}", id2))), 200);

    // === Job 3: artifacts snapshot ===
    let (r, job) = post(&mut core, JobRequest::Manage(make_manage_request(&["art1"])), true);
    let id3 = job_id(&r);
    let snapshot = vec![
        make_artifact("GladiatorsFinale", "flower", 20, true),
        make_artifact("WanderersTroupe", "plume", 16, false),
    ];
    run_manage(&mut core, job.unwrap(), (make_result(&[("art1", InstructionStatus::Success)]), Some(snapshot)));
    let r = get(&core, &format!("/artifacts?jobId={}", id3));
    assert_eq!(status(&r), 200);
    assert!(matches!(r, Reply::ArtifactData));
    let data = core.artifacts.data.as_ref().unwrap();
    assert_eq!(data.len(), 2);
    assert_eq!(data[0].set_key, "GladiatorsFinale");
    assert_eq!(data[1].set_key, "WanderersTroupe");
    // /artifacts without jobId returns the latest.
    assert!(matches!(get(&core, "/artifacts"), Reply::ArtifactData));

    // === Jobs 4-5: sequential jobs reset state ===
    let (r, job) = post(&mut core, JobRequest::Manage(make_manage_request(&["j1"])), true);
    let j1 = job_id(&r);
    run_manage(&mut core, job.unwrap(), (make_result(&[("j1", InstructionStatus::Success)]), None));
    assert_eq!(status(&get(&core, &format!("/result?jobId={}", j1))), 200);
    assert_eq!(core.job.result.as_ref().unwrap().results[0].id, "j1");
    assert_eq!(core.job.result.as_ref().unwrap().results[0].status, InstructionStatus::Success);
    let (r, job) = post(&mut core, JobRequest::Manage(make_manage_request(&["j2"])), true);
    let j2 = job_id(&r);
    run_manage(&mut core, job.unwrap(), (make_result(&[("j2", InstructionStatus::NotFound)]), None));
    assert_eq!(status(&get(&core, &format!("/result?jobId={}", j2))), 200);
    assert_eq!(core.job.result.as_ref().unwrap().results[0].id, "j2");
    assert_eq!(core.job.result.as_ref().unwrap().results[0].status, InstructionStatus::NotFound);
    // Job 1's result is gone — replaced by job 2.
    assert_eq!(status(&get(&core, &format!("/result?jobId={}", j1))), 404);
}

#[test]
fn test_artifact_cache_invalidation() {
    let mut core = ServerCore::new(Lang::En);

    // === Pair 1: aborted scan invalidates cache ===
    let (r, job) = post(&mut core, JobRequest::Manage(make_manage_request(&["a"])), true);
    let job_a = job_id(&r);
    run_manage(
        &mut core,
        job.unwrap(),
        (make_result(&[("a", InstructionStatus::Success)]), Some(vec![make_artifact("GladiatorsFinale", "flower", 20, true)])),
    );
    assert_eq!(status(&get(&core, &format!("/artifacts?jobId={}", job_a))), 200);
    let (_, job) = post(&mut core, JobRequest::Manage(make_manage_request(&["b"])), true);
    run_manage(&mut core, job.unwrap(), (make_result(&[("b", InstructionStatus::Aborted)]), None));
    assert_eq!(status(&get(&core, &format!("/artifacts?jobId={}", job_a))), 404);
    assert_eq!(status(&get(&core, "/artifacts")), 404);

    // === Pair 2: lock job with no snapshot invalidates cache ===
    let (r, job) = post(&mut core, JobRequest::Manage(make_manage_request(&["c"])), true);
    let job_c = job_id(&r);
    run_manage(
        &mut core,
        job.unwrap(),
        (make_result(&[("c", InstructionStatus::Success)]), Some(vec![make_artifact("GladiatorsFinale", "flower", 20, true)])),
    );
    assert_eq!(status(&get(&core, &format!("/artifacts?jobId={}", job_c))), 200);
    let (_, job) = post(&mut core, JobRequest::Manage(make_manage_request(&["d"])), true);
    run_manage(&mut core, job.unwrap(), (make_result(&[("d", InstructionStatus::Success)]), None));
    assert_eq!(status(&get(&core, &format!("/artifacts?jobId={}", job_c))), 404);

    // === Pair 3: update_inventory off after on ===
    let (r, job) = post(&mut core, JobRequest::Manage(make_manage_request(&["e"])), true);
    let job_e = job_id(&r);
    run_manage(
        &mut core,
        job.unwrap(),
        (
            make_result(&[("e", InstructionStatus::Success)]),
            Some(vec![
                make_artifact("GladiatorsFinale", "flower", 20, true),
                make_artifact("WanderersTroupe", "plume", 16, false),
            ]),
        ),
    );
    assert_eq!(status(&get(&core, &format!("/artifacts?jobId={}", job_e))), 200);
    assert_eq!(core.artifacts.data.as_ref().unwrap().len(), 2);
    let (_, job) = post(&mut core, JobRequest::Manage(make_manage_request(&["f"])), true);
    run_manage(&mut core, job.unwrap(), (make_result(&[("f", InstructionStatus::Success)]), None));
    assert_ne!(
        status(&get(&core, &format!("/artifacts?jobId={}", job_e))),
        200,
        "/artifacts must not serve stale data after a scan with update_inventory OFF"
    );
}

#[test]
fn test_manage_disabled_returns_503() {
    let mut core = ServerCore::new(Lang::En);
    let (r, job) = post(&mut core, JobRequest::Manage(make_manage_request(&["a"])), false);
    assert_eq!(status(&r), 503);
    assert!(job.is_none());
    assert!(body(&get_with(&core, "/health", false)).contains(r#""enabled":false"#));
}

#[test]
fn test_busy_and_delayed_jobs() {
    let mut core = ServerCore::new(Lang::En);

    // === Busy-state checks ===
    let (r, job) = post(&mut core, JobRequest::Manage(make_manage_request(&["a"])), true);
    assert_eq!(status(&r), 202);
    let id = job_id(&r);
    let (id_a, req_a) = job.unwrap();
    core.begin_job(&req_a);
    // 409 when busy: second job rejected.
    let (r, job) = post(&mut core, JobRequest::Manage(make_manage_request(&["b"])), true);
    assert_eq!(status(&r), 409);
    assert!(job.is_none());
    // health shows busy during job.
    assert!(body(&get(&core, "/health")).contains(r#""busy":true"#));
    // result returns 409 when still running.
    assert_eq!(status(&get(&core, &format!("/result?jobId={}", id))), 409);
    core.finish_job(id_a, make_result(&[("a", InstructionStatus::Success)]), None, alters_game(&req_a));
    assert_eq!(core.job.state, JobPhase::Completed);

    // === Cache cleared mid-execution ===
    let (r, job) = post(&mut core, JobRequest::Manage(make_manage_request(&["c"])), true);
    let job_c = job_id(&r);
    run_manage(
        &mut core,
        job.unwrap(),
        (make_result(&[("c", InstructionStatus::Success)]), Some(vec![make_artifact("GladiatorsFinale", "flower", 20, true)])),
    );
    assert_eq!(status(&get(&core, &format!("/artifacts?jobId={}", job_c))), 200);
    let (_, job) = post(&mut core, JobRequest::Manage(make_manage_request(&["d"])), true);
    let (id_d, req_d) = job.unwrap();
    core.begin_job(&req_d);
    assert_ne!(
        status(&get(&core, &format!("/artifacts?jobId={}", job_c))),
        200,
        "/artifacts must be cleared as soon as a lock job starts, not after it finishes"
    );
    core.finish_job(id_d, make_result(&[("d", InstructionStatus::Success)]), None, alters_game(&req_d));
}

#[test]
fn test_game_init_failure_produces_ui_error_results() {
    let mut core = ServerCore::new(Lang::En);
    let (r, job) = post(&mut core, JobRequest::Manage(make_manage_request(&["x", "y"])), true);
    let id = job_id(&r);
    let (jid, req) = job.unwrap();
    // Making the executor failed ("Game window not found").
    core.fail_init(jid, &req);
    let r = get(&core, &format!("/result?jobId={}", id));
    assert_eq!(status(&r), 200);
    let results = &core.job.result.as_ref().unwrap().results;
    assert_eq!(results.len(), 2);
    assert_eq!(results[0].status, InstructionStatus::UiError);
    assert_eq!(results[1].status, InstructionStatus::UiError);
}

#[test]
fn test_scan_api_flow() {
    let mut core = ServerCore::new(Lang::En);

    // === Validation: empty targets returns 400 ===
    let (r, _) = post(&mut core, JobRequest::Scan(ScanRequest { characters: false, weapons: false, artifacts: false }), true);
    assert_eq!(status(&r), 400);
    // all-false via defaults (empty object)
    let (r, _) = post(&mut core, JobRequest::Scan(ScanRequest { characters: false, weapons: false, artifacts: false }), true);
    assert_eq!(status(&r), 400);
    // bad JSON
    assert_eq!(status(&core.parse_failed("expected ident")), 400);

    // === Data endpoints: 400 without jobId ===
    assert_eq!(status(&get(&core, "/characters")), 400);
    assert_eq!(status(&get(&core, "/weapons")), 400);

    // === Scan 1: all targets ===
    let (r, job) = post(&mut core, JobRequest::Scan(ScanRequest { characters: true, weapons: true, artifacts: true }), true);
    assert_eq!(status(&r), 202);
    let scan1 = job_id(&r);
    assert!(body(&r).contains(r#""targets":{"characters":true,"weapons":true,"artifacts":true}"#));
    let (id, req) = job.unwrap();
    core.begin_job(&req);
    core.finish_scan(
        id,
        Some(vec![make_character("Furina", 90), make_character("RaidenShogun", 80)]),
        Some(vec![make_weapon("SkywardHarp", 90)]),
        Some(vec![make_artifact("GladiatorsFinale", "flower", 20, true)]),
    );
    let st = body(&get(&core, "/status"));
    assert!(st.contains(r#""state":"completed""#));
    assert!(st.contains(r#""total":3,"success":3"#));
    assert_eq!(status(&get(&core, &format!("/result?jobId={}", scan1))), 200);
    let ids: Vec<String> = core.job.result.as_ref().unwrap().results.iter().map(|r| r.id.clone()).collect();
    assert_eq!(ids, vec!["characters".to_string(), "weapons".to_string(), "artifacts".to_string()]);
    let r = get(&core, &format!("/characters?jobId={}", scan1));
    assert!(matches!(r, Reply::CharacterData));
    let chars = core.characters.data.as_ref().unwrap();
    assert_eq!(chars.len(), 2);
    assert_eq!(chars[0].key, "Furina");
    assert_eq!(chars[1].key, "RaidenShogun");
    assert!(matches!(get(&core, &format!("/weapons?jobId={}", scan1)), Reply::WeaponData));
    assert_eq!(core.weapons.data.as_ref().unwrap().len(), 1);
    assert_eq!(core.weapons.data.as_ref().unwrap()[0].key, "SkywardHarp");
    assert!(matches!(get(&core, &format!("/artifacts?jobId={}", scan1)), Reply::ArtifactData));
    assert_eq!(core.artifacts.data.as_ref().unwrap().len(), 1);
    assert_eq!(core.artifacts.data.as_ref().unwrap()[0].set_key, "GladiatorsFinale");
    // wrong jobId → 404
    assert_eq!(status(&get(&core, "/characters?jobId=wrong")), 404);
    assert_eq!(status(&get(&core, "/weapons?jobId=wrong")), 404);
    assert_eq!(status(&get(&core, "/artifacts?jobId=wrong")), 404);

    // === Scan 2: characters only — weapons/artifacts keep scan1 data ===
    let (r, job) = post(&mut core, JobRequest::Scan(ScanRequest { characters: true, weapons: false, artifacts: false }), true);
    assert_eq!(status(&r), 202);
    let scan2 = job_id(&r);
    assert!(body(&r).contains(r#""targets":{"characters":true,"weapons":false,"artifacts":false}"#));
    let (id, req) = job.unwrap();
    core.begin_job(&req);
    core.finish_scan(id, Some(vec![make_character("Nahida", 90)]), None, None);
    assert_eq!(status(&get(&core, &format!("/result?jobId={}", scan2))), 200);
    let results = &core.job.result.as_ref().unwrap().results;
    assert_eq!(results.len(), 1);
    assert_eq!(results[0].id, "characters");
    assert!(matches!(get(&core, &format!("/characters?jobId={}", scan2)), Reply::CharacterData));
    assert_eq!(core.characters.data.as_ref().unwrap().len(), 1);
    assert_eq!(core.characters.data.as_ref().unwrap()[0].key, "Nahida");
    assert_eq!(status(&get(&core, &format!("/characters?jobId={}", scan1))), 404);
    assert_eq!(status(&get(&core, &format!("/weapons?jobId={}", scan1))), 200);
    assert_eq!(core.weapons.data.as_ref().unwrap()[0].key, "SkywardHarp");
    assert_eq!(status(&get(&core, &format!("/artifacts?jobId={}", scan1))), 200);

    // === Scan 3: error — caches not updated ===
    let (r, job) = post(&mut core, JobRequest::Scan(ScanRequest { characters: true, weapons: true, artifacts: true }), true);
    assert_eq!(status(&r), 202);
    let scan3 = job_id(&r);
    let (id, req) = job.unwrap();
    core.begin_job(&req);
    // The scan failed ("Game window not found").
    core.finish_failed(id);
    assert_eq!(status(&get(&core, &format!("/result?jobId={}", scan3))), 200);
    assert_eq!(core.job.result.as_ref().unwrap().summary.errors, 1);
    assert_eq!(status(&get(&core, &format!("/characters?jobId={}", scan2))), 200);
    assert_eq!(status(&get(&core, &format!("/weapons?jobId={}", scan1))), 200);
}

#[test]
fn cors_headers_echo_the_origin() {
    let h = good_scanner::http::cors_headers("https://ggartifact.com");
    assert_eq!(h.len(), 5);
    assert_eq!(h[0], ("Access-Control-Allow-Origin".to_string(), "https://ggartifact.com".to_string()));
    assert_eq!(h[1], ("Access-Control-Allow-Methods".to_string(), "GET, POST, OPTIONS".to_string()));
    assert_eq!(h[4], ("Content-Type".to_string(), "application/json; charset=utf-8".to_string()));
}

#[test]
fn executor_is_made_again_after_a_failed_init() {
    let mut e = good_scanner::server::ExecutorState::new();
    assert!(e.needs_init());
    assert!(!e.init_done(false));
    assert!(e.needs_init());
    assert!(e.init_done(true));
    assert!(!e.needs_init());
}
