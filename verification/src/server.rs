//! The decisions of the manage/scan job server.
//!
//! The HTTP thread and the execution thread of the server share one
//! `ServerCore`: the state of the current job and the per-category data
//! caches. Every request and every step of a job is a method here that
//! answers with a `Reply` and moves the state; reading sockets, parsing JSON
//! into the request types, driving the game and serialising the cached data
//! are left to the caller.
use vstd::prelude::*;
use crate::http::{job_id_of, job_id_round_trip, parse_job_id, Route};
use crate::job_status::{job_id_text, status_json_spec};
use crate::json::{error_body, json_error};
use crate::lang::{localize, localized, Lang};
use crate::models::{
    GoodArtifact, GoodCharacter, GoodWeapon, EquipInstruction, EquipRequest, InstructionResult, InstructionStatus,
    JobPhase, JobProgress, JobState, PhaseProgress, PhaseState, ScanProgress, LockManageRequest, ManageResult, ManageSummary, ScanRequest,
    SummaryBucket, count_bucket, summary_of,
};
use crate::text::{
    all_white, bool_text, decimal, is_blank, push_bool, push_decimal, push_signed, push_str,
    signed_decimal,
};

verus! {

// ---------------------------------------------------------------------------
// Replies
// ---------------------------------------------------------------------------

/// An answer to a request.
pub enum Reply {
    /// A JSON document with an HTTP status.
    Json { status: u16, body: String },
    /// 204 with no body (CORS preflight).
    NoContent,
    /// 200 with the full result of the current job, serialised.
    JobResult,
    /// 200 with the cached characters, serialised.
    CharacterData,
    /// 200 with the cached weapons, serialised.
    WeaponData,
    /// 200 with the cached artifacts, serialised.
    ArtifactData,
}

/// The value of a reply.
pub enum ReplyView {
    Json { status: u16, body: Seq<char> },
    NoContent,
    JobResult,
    CharacterData,
    WeaponData,
    ArtifactData,
}

impl View for Reply {
    type V = ReplyView;

    open spec fn view(&self) -> ReplyView {
        match self {
            Reply::Json { status, body } => ReplyView::Json { status: *status, body: body@ },
            Reply::NoContent => ReplyView::NoContent,
            Reply::JobResult => ReplyView::JobResult,
            Reply::CharacterData => ReplyView::CharacterData,
            Reply::WeaponData => ReplyView::WeaponData,
            Reply::ArtifactData => ReplyView::ArtifactData,
        }
    }
}

/// A JSON reply.
pub open spec fn json_reply(status: u16, body: Seq<char>) -> ReplyView {
    ReplyView::Json { status, body }
}

/// A JSON error reply `{"error":"<msg>"}`.
pub open spec fn error_reply(status: u16, msg: Seq<char>) -> ReplyView {
    ReplyView::Json { status, body: json_error(msg) }
}

fn error(status: u16, msg: &str) -> (r: Reply)
    ensures
        r@ == error_reply(status, msg@),
{
    Reply::Json { status, body: error_body(msg) }
}

/// The reply to a request from an origin that is not allowed: 403.
pub fn origin_rejected() -> (r: Reply)
    ensures
        r@ == error_reply(403, "Origin not allowed"@),
{
    error(403, "Origin not allowed")
}

fn localized_error(status: u16, msg: &str, lang: Lang) -> (r: Reply)
    ensures
        r@ == error_reply(status, localized(msg@, lang)),
{
    let m = localize(msg, lang);
    Reply::Json { status, body: error_body(m.as_str()) }
}

// ---------------------------------------------------------------------------
// Messages
// ---------------------------------------------------------------------------

/// Largest request body accepted by `/manage` and `/equip`, in bytes (5 MiB).
pub const MAX_BODY_SIZE: usize = 5242880;

/// Why a job request is refused while the manager is switched off.
pub open spec fn paused_msg() -> Seq<char> {
    "管理器已暂停 / Manager is paused. Enable it in the GUI to accept requests."@
}

/// Why a job request is refused while another job runs.
pub open spec fn busy_msg() -> Seq<char> {
    "正在执行其他任务 / Another job is already running. Poll GET /status for progress."@
}

/// Why a job could not be handed to the execution thread.
pub open spec fn unavailable_msg() -> Seq<char> {
    "执行线程不可用 / Execution thread unavailable"@
}

/// The message for a request body of `len` bytes, over the limit.
pub open spec fn too_large_msg(len: nat) -> Seq<char> {
    "请求体过大（"@ + decimal(len) + " 字节，上限 "@ + decimal(MAX_BODY_SIZE as nat)
        + " 字节）/ Request body too large: "@ + decimal(len) + " bytes (max "@ + decimal(
        MAX_BODY_SIZE as nat,
    ) + ")"@
}

/// The message for a body that could not be read.
pub open spec fn read_failed_msg(err: Seq<char>) -> Seq<char> {
    "读取请求体失败: "@ + err + " / Failed to read body: "@ + err
}

/// The message for a body that is not a request of the expected shape.
pub open spec fn parse_failed_msg(err: Seq<char>) -> Seq<char> {
    "JSON解析失败: "@ + err + " / JSON parse error: "@ + err
}

/// The reply when the `jobId` query parameter is missing.
pub open spec fn missing_job_id_reply() -> ReplyView {
    error_reply(400, "missing required query parameter: jobId"@)
}

/// The reply for a job id that is not the current job.
pub open spec fn job_not_found_reply() -> ReplyView {
    error_reply(404, "job not found"@)
}

fn too_large_reply(len: usize, lang: Lang) -> (r: Reply)
    ensures
        r@ == error_reply(413, localized(too_large_msg(len as nat), lang)),
{
    let mut m = String::new();
    push_str(&mut m, "请求体过大（");
    push_decimal(&mut m, len as u64);
    push_str(&mut m, " 字节，上限 ");
    push_decimal(&mut m, MAX_BODY_SIZE as u64);
    push_str(&mut m, " 字节）/ Request body too large: ");
    push_decimal(&mut m, len as u64);
    push_str(&mut m, " bytes (max ");
    push_decimal(&mut m, MAX_BODY_SIZE as u64);
    push_str(&mut m, ")");
    assert(m@ =~= too_large_msg(len as nat));
    localized_error(413, m.as_str(), lang)
}

// ---------------------------------------------------------------------------
// Data caches
// ---------------------------------------------------------------------------

/// The latest data of one category together with the id of the job that
/// produced it.
pub struct ScanDataCache<T> {
    pub job_id: Option<String>,
    pub data: Option<Vec<T>>,
}

/// The value of a cache.
pub struct CacheView<T> {
    pub job_id: Option<Seq<char>>,
    pub data: Option<Seq<T>>,
}

impl<T> View for ScanDataCache<T> {
    type V = CacheView<T>;

    open spec fn view(&self) -> CacheView<T> {
        CacheView {
            job_id: match self.job_id {
                Some(id) => Some(id@),
                None => None,
            },
            data: match self.data {
                Some(d) => Some(d@),
                None => None,
            },
        }
    }
}

/// The empty cache.
pub open spec fn empty_cache<T>() -> CacheView<T> {
    CacheView { job_id: None, data: None }
}

impl<T> ScanDataCache<T> {
    /// A cache that holds nothing.
    pub fn empty() -> (c: Self)
        ensures
            c@ == empty_cache::<T>(),
    {
        ScanDataCache { job_id: None, data: None }
    }

    /// Store `data` as produced by the job `job_id`.
    pub fn set(&mut self, job_id: String, data: Vec<T>)
        ensures
            final(self)@ == (CacheView { job_id: Some(job_id@), data: Some(data@) }),
    {
        self.job_id = Some(job_id);
        self.data = Some(data);
    }

    /// Drop the data and its job id.
    pub fn invalidate(&mut self)
        ensures
            final(self)@ == empty_cache::<T>(),
    {
        self.data = None;
        self.job_id = None;
    }

    /// Does the cache hold data produced by the job `id`?
    pub fn holds_job(&self, id: &String) -> (b: bool)
        ensures
            b == (self@.data is Some && self@.job_id == Some(id@)),
    {
        match (&self.job_id, &self.data) {
            (Some(c), Some(_)) => *c == *id,
            _ => false,
        }
    }
}

// ---------------------------------------------------------------------------
// Validation of submitted artifacts
// ---------------------------------------------------------------------------

/// What is wrong with a submitted artifact, if anything: an empty set, slot
/// or main stat key (white space counts as empty), a rarity outside 4..=5,
/// or a level outside 0..=20, checked in that order.
pub open spec fn artifact_problem(a: GoodArtifact) -> Option<Seq<char>> {
    if all_white(a.set_key@) {
        Some("empty setKey"@)
    } else if all_white(a.slot_key@) {
        Some("empty slotKey"@)
    } else if all_white(a.main_stat_key@) {
        Some("empty mainStatKey"@)
    } else if a.rarity < 4 || a.rarity > 5 {
        Some("invalid rarity: "@ + signed_decimal(a.rarity as int) + " (must be 4-5)"@)
    } else if a.level < 0 || a.level > 20 {
        Some("invalid level: "@ + signed_decimal(a.level as int) + " (must be 0-20)"@)
    } else {
        None
    }
}

/// Check one submitted artifact.
pub fn validate_artifact(a: &GoodArtifact) -> (r: Option<String>)
    ensures
        match r {
            Some(m) => artifact_problem(*a) == Some(m@),
            None => artifact_problem(*a) is None,
        },
{
    if is_blank(a.set_key.as_str()) {
        return Some(String::from_str("empty setKey"));
    }
    if is_blank(a.slot_key.as_str()) {
        return Some(String::from_str("empty slotKey"));
    }
    if is_blank(a.main_stat_key.as_str()) {
        return Some(String::from_str("empty mainStatKey"));
    }
    if a.rarity < 4 || a.rarity > 5 {
        let mut m = String::new();
        push_str(&mut m, "invalid rarity: ");
        push_signed(&mut m, a.rarity as i64);
        push_str(&mut m, " (must be 4-5)");
        return Some(m);
    }
    if a.level < 0 || a.level > 20 {
        let mut m = String::new();
        push_str(&mut m, "invalid level: ");
        push_signed(&mut m, a.level as i64);
        push_str(&mut m, " (must be 0-20)");
        return Some(m);
    }
    None
}

/// The first problem in a list of artifacts: its position and message.
pub open spec fn first_problem(s: Seq<GoodArtifact>) -> Option<(int, Seq<char>)>
    decreases s.len(),
{
    if s.len() == 0 {
        None
    } else {
        match first_problem(s.drop_last()) {
            Some(p) => Some(p),
            None => match artifact_problem(s.last()) {
                Some(m) => Some(((s.len() - 1) as int, m)),
                None => None,
            },
        }
    }
}

proof fn lemma_first_problem_prefix(s: Seq<GoodArtifact>, k: int)
    requires
        0 <= k <= s.len(),
        first_problem(s.take(k)) is Some,
    ensures
        first_problem(s) == first_problem(s.take(k)),
    decreases s.len() - k,
{
    if k < s.len() {
        assert(s.take(k + 1).drop_last() =~= s.take(k));
        lemma_first_problem_prefix(s, k + 1);
    } else {
        assert(s.take(k) =~= s);
    }
}

/// The first artifact of `arts` with a problem, with its position.
pub fn find_problem(arts: &Vec<GoodArtifact>) -> (r: Option<(usize, String)>)
    ensures
        match r {
            Some((k, m)) => first_problem(arts@) == Some((k as int, m@)),
            None => first_problem(arts@) is None,
        },
{
    let mut i: usize = 0;
    while i < arts.len()
        invariant
            i <= arts.len(),
            first_problem(arts@.take(i as int)) is None,
        decreases arts.len() - i,
    {
        assert(arts@.take(i + 1).drop_last() =~= arts@.take(i as int));
        match validate_artifact(&arts[i]) {
            Some(m) => {
                proof {
                    lemma_first_problem_prefix(arts@, i + 1);
                }
                return Some((i, m));
            },
            None => {},
        }
        i += 1;
    }
    assert(arts@.take(arts.len() as int) =~= arts@);
    None
}

/// `<list>[<k>]: <message>`, the text of a validation error.
pub open spec fn entry_error(list: Seq<char>, k: int, m: Seq<char>) -> Seq<char> {
    list + "["@ + decimal(k as nat) + "]: "@ + m
}

// ---------------------------------------------------------------------------
// Job requests
// ---------------------------------------------------------------------------

/// What a scan produced for each category it completed.
pub struct ScanResult {
    pub characters: Option<Vec<GoodCharacter>>,
    pub weapons: Option<Vec<GoodWeapon>>,
    pub artifacts: Option<Vec<GoodArtifact>>,
}

/// A job handed to the execution thread.
pub enum JobRequest {
    Manage(LockManageRequest),
    Equip(EquipRequest),
    Scan(ScanRequest),
}

/// Number of categories a scan request asks for.
pub open spec fn scan_count(r: ScanRequest) -> nat {
    (if r.characters {
        1nat
    } else {
        0nat
    }) + (if r.weapons {
        1nat
    } else {
        0nat
    }) + (if r.artifacts {
        1nat
    } else {
        0nat
    })
}

/// Number of items of a job: instructions for manage and equip jobs,
/// categories for a scan.
pub open spec fn job_total(req: JobRequest) -> nat {
    match req {
        JobRequest::Manage(m) => m.lock@.len() + m.unlock@.len(),
        JobRequest::Equip(e) => e.equip@.len(),
        JobRequest::Scan(s) => scan_count(s),
    }
}

/// The artifacts of a list of equip instructions.
pub open spec fn equip_artifacts(s: Seq<EquipInstruction>) -> Seq<GoodArtifact> {
    s.map_values(|e: EquipInstruction| e.artifact)
}

/// Why a manage job with empty lists is refused.
pub open spec fn manage_empty_msg() -> Seq<char> {
    "lock 和 unlock 列表均为空 / Both lock and unlock lists are empty"@
}

/// Why an equip job without instructions is refused.
pub open spec fn equip_empty_msg() -> Seq<char> {
    "equip 列表为空 / Equip list is empty"@
}

/// Why a scan without any category is refused.
pub open spec fn scan_none_msg() -> Seq<char> {
    "至少需要一个扫描目标 / At least one scan target must be true"@
}

/// The error text for a job request that is refused, if it is: a manage job
/// with both lists empty or with an invalid artifact (the lock list is
/// checked before the unlock list), an equip job with no instruction or an
/// invalid artifact, a scan of no category.
pub open spec fn request_problem(req: JobRequest, lang: Lang) -> Option<Seq<char>> {
    match req {
        JobRequest::Manage(m) => if m.lock@.len() == 0 && m.unlock@.len() == 0 {
            Some(localized(manage_empty_msg(), lang))
        } else {
            match first_problem(m.lock@) {
                Some((k, msg)) => Some(entry_error("lock"@, k, msg)),
                None => match first_problem(m.unlock@) {
                    Some((k, msg)) => Some(entry_error("unlock"@, k, msg)),
                    None => None,
                },
            }
        },
        JobRequest::Equip(e) => if e.equip@.len() == 0 {
            Some(localized(equip_empty_msg(), lang))
        } else {
            match first_problem(equip_artifacts(e.equip@)) {
                Some((k, msg)) => Some(entry_error("equip"@, k, msg)),
                None => None,
            }
        },
        JobRequest::Scan(s) => if !s.characters && !s.weapons && !s.artifacts {
            Some(localized(scan_none_msg(), lang))
        } else {
            None
        },
    }
}

/// The body of the 202 reply to an accepted job.
pub open spec fn accepted_body(id: Seq<char>, req: JobRequest) -> Seq<char> {
    match req {
        JobRequest::Scan(s) => "{\"jobId\":\""@ + id + "\",\"targets\":{\"characters\":"@
            + bool_text(s.characters) + ",\"weapons\":"@ + bool_text(s.weapons)
            + ",\"artifacts\":"@ + bool_text(s.artifacts) + "}}"@,
        _ => "{\"jobId\":\""@ + id + "\",\"total\":"@ + decimal(job_total(req)) + "}"@,
    }
}

/// A pending slot for a requested scan category, none for the others.
pub open spec fn pending_slot(requested: bool) -> Option<PhaseProgress> {
    if requested {
        Some(PhaseProgress { completed: 0, total: 0, state: PhaseState::Pending })
    } else {
        None
    }
}

/// The per-category progress of a scan that has just started: a pending
/// slot for each requested category.
pub open spec fn pending_scan(s: ScanRequest) -> ScanProgress {
    ScanProgress {
        characters: pending_slot(s.characters),
        weapons: pending_slot(s.weapons),
        artifacts: pending_slot(s.artifacts),
    }
}

/// `j` is the state of the job `id` for `req` that has just started: a
/// manage or equip job has linear progress, 0 of its items done; a scan has
/// per-category progress with every requested category pending (exactly
/// one of the two is there).
pub open spec fn just_started(j: JobState, id: Seq<char>, req: JobRequest) -> bool {
    &&& j.state == JobPhase::Running
    &&& j.job_id matches Some(x) && x@ == id
    &&& match req {
        JobRequest::Scan(s) => j.progress is None && j.scan_progress == Some(pending_scan(s)),
        _ => {
            &&& j.progress matches Some(p) && p.completed == 0 && p.total == job_total(req)
                && p.current_id@.len() == 0 && p.phase@.len() == 0
            &&& j.scan_progress is None
        },
    }
    &&& j.result is None
}

/// The slot of a category that comes `k`-th among the requested ones, once
/// `completed` requested categories are done: done ones complete, the next
/// one running, the later ones pending; its counts stay.
pub open spec fn advanced_slot(p: Option<PhaseProgress>, k: int, completed: int) -> Option<
    PhaseProgress,
> {
    match p {
        Some(q) => Some(
            PhaseProgress {
                state: if k < completed {
                    PhaseState::Complete
                } else if k == completed {
                    PhaseState::Running
                } else {
                    PhaseState::Pending
                },
                ..q
            },
        ),
        None => None,
    }
}

/// The per-category progress `sp` once `completed` of the requested
/// categories (taken in the order characters, weapons, artifacts) are done.
pub open spec fn advanced_scan(sp: ScanProgress, completed: int) -> ScanProgress {
    let kw: int = if sp.characters is Some {
        1
    } else {
        0
    };
    let ka: int = kw + if sp.weapons is Some {
        1int
    } else {
        0
    };
    ScanProgress {
        characters: advanced_slot(sp.characters, 0, completed),
        weapons: advanced_slot(sp.weapons, kw, completed),
        artifacts: advanced_slot(sp.artifacts, ka, completed),
    }
}

fn advance_slot(p: Option<PhaseProgress>, k: usize, completed: usize) -> (r: Option<PhaseProgress>)
    ensures
        r == advanced_slot(p, k as int, completed as int),
{
    match p {
        Some(q) => Some(
            PhaseProgress {
                completed: q.completed,
                total: q.total,
                state: if k < completed {
                    PhaseState::Complete
                } else if k == completed {
                    PhaseState::Running
                } else {
                    PhaseState::Pending
                },
            },
        ),
        None => None,
    }
}

/// `j` is the state of no job at all.
pub open spec fn is_idle(j: JobState) -> bool {
    &&& j.state == JobPhase::Idle
    &&& j.job_id is None
    &&& j.progress is None
    &&& j.scan_progress is None
    &&& j.result is None
}

/// An identifier as `Uuid::to_string` writes it: 36 characters, lower-case
/// hexadecimal digits and hyphens.
pub open spec fn is_uuid_text(s: Seq<char>) -> bool {
    &&& s.len() == 36
    &&& forall|i: int|
        0 <= i < s.len() ==> ('0' <= #[trigger] s[i] <= '9' || 'a' <= s[i] <= 'f' || s[i] == '-')
}

/// A fresh random job id.
///
/// Calls `uuid::Uuid::new_v4` and `to_string`; the uuid crate writes the
/// hyphenated lower-case form, 36 characters of hexadecimal digits and
/// hyphens, and that is all the contract claims. Which id comes out is left
/// open: it is random. The uuid crate panics when the operating system
/// gives it no random bytes; no argument can rule that out.
#[verifier::external_body]
fn new_job_id() -> (id: String)
    ensures
        is_uuid_text(id@),
{
    uuid::Uuid::new_v4().to_string()
}

fn find_equip_problem(instrs: &Vec<EquipInstruction>) -> (r: Option<(usize, String)>)
    ensures
        match r {
            Some((k, m)) => first_problem(equip_artifacts(instrs@)) == Some((k as int, m@)),
            None => first_problem(equip_artifacts(instrs@)) is None,
        },
{
    let ghost arts = equip_artifacts(instrs@);
    let mut i: usize = 0;
    while i < instrs.len()
        invariant
            i <= instrs.len(),
            arts == equip_artifacts(instrs@),
            first_problem(arts.take(i as int)) is None,
        decreases instrs.len() - i,
    {
        assert(arts.take(i + 1).drop_last() =~= arts.take(i as int));
        assert(arts[i as int] == instrs@[i as int].artifact);
        match validate_artifact(&instrs[i].artifact) {
            Some(m) => {
                proof {
                    lemma_first_problem_prefix(arts, i + 1);
                }
                return Some((i, m));
            },
            None => {},
        }
        i += 1;
    }
    assert(arts.take(instrs.len() as int) =~= arts);
    None
}

fn entry_error_text(list: &str, k: usize, m: &str) -> (s: String)
    ensures
        s@ == entry_error(list@, k as int, m@),
{
    let mut s = String::new();
    push_str(&mut s, list);
    push_str(&mut s, "[");
    push_decimal(&mut s, k as u64);
    push_str(&mut s, "]: ");
    push_str(&mut s, m);
    assert(s@ =~= entry_error(list@, k as int, m@));
    s
}

/// The shared state of the server: the current (or last) job and the
/// latest data of each category.
pub struct ServerCore {
    pub job: JobState,
    pub characters: ScanDataCache<GoodCharacter>,
    pub weapons: ScanDataCache<GoodWeapon>,
    pub artifacts: ScanDataCache<GoodArtifact>,
    pub lang: Lang,
}

/// The refusal of a job request before its body is read: 503 while the
/// manager is switched off, else 409 while another job runs.
pub open spec fn admission_reply(job: JobState, enabled: bool, lang: Lang) -> Option<ReplyView> {
    if !enabled {
        Some(error_reply(503, localized(paused_msg(), lang)))
    } else if job.state == JobPhase::Running {
        Some(error_reply(409, localized(busy_msg(), lang)))
    } else {
        None
    }
}

impl ServerCore {
    /// A server with no job and empty caches.
    pub fn new(lang: Lang) -> (c: Self)
        ensures
            is_idle(c.job),
            c.characters@ == empty_cache::<GoodCharacter>(),
            c.weapons@ == empty_cache::<GoodWeapon>(),
            c.artifacts@ == empty_cache::<GoodArtifact>(),
            c.lang == lang,
    {
        ServerCore {
            job: JobState::idle(),
            characters: ScanDataCache::empty(),
            weapons: ScanDataCache::empty(),
            artifacts: ScanDataCache::empty(),
            lang,
        }
    }

    /// Whether a job request may go on to have its body read.
    pub fn admission(&self, enabled: bool) -> (r: Option<Reply>)
        ensures
            match r {
                Some(x) => admission_reply(self.job, enabled, self.lang) == Some(x@),
                None => admission_reply(self.job, enabled, self.lang) is None,
            },
    {
        if !enabled {
            return Some(
                localized_error(
                    503,
                    "管理器已暂停 / Manager is paused. Enable it in the GUI to accept requests.",
                    self.lang,
                ),
            );
        }
        if self.job.state == JobPhase::Running {
            return Some(
                localized_error(
                    409,
                    "正在执行其他任务 / Another job is already running. Poll GET /status for progress.",
                    self.lang,
                ),
            );
        }
        None
    }

    /// The 413 reply for a `/manage` or `/equip` body of `len` bytes, if
    /// that is over the limit.
    pub fn body_too_large(&self, len: usize) -> (r: Option<Reply>)
        ensures
            match r {
                Some(x) => len > MAX_BODY_SIZE && x@ == error_reply(
                    413,
                    localized(too_large_msg(len as nat), self.lang),
                ),
                None => len <= MAX_BODY_SIZE,
            },
    {
        if len > MAX_BODY_SIZE {
            Some(too_large_reply(len, self.lang))
        } else {
            None
        }
    }

    /// The 400 reply for a body that could not be read (`err` says why).
    pub fn read_failed(&self, err: &str) -> (r: Reply)
        ensures
            r@ == error_reply(400, localized(read_failed_msg(err@), self.lang)),
    {
        let mut m = String::new();
        push_str(&mut m, "读取请求体失败: ");
        push_str(&mut m, err);
        push_str(&mut m, " / Failed to read body: ");
        push_str(&mut m, err);
        assert(m@ =~= read_failed_msg(err@));
        localized_error(400, m.as_str(), self.lang)
    }

    /// The 400 reply for a body that is not a request (`err` says why).
    pub fn parse_failed(&self, err: &str) -> (r: Reply)
        ensures
            r@ == error_reply(400, localized(parse_failed_msg(err@), self.lang)),
    {
        let mut m = String::new();
        push_str(&mut m, "JSON解析失败: ");
        push_str(&mut m, err);
        push_str(&mut m, " / JSON parse error: ");
        push_str(&mut m, err);
        assert(m@ =~= parse_failed_msg(err@));
        localized_error(400, m.as_str(), self.lang)
    }

    /// Check a parsed job request.
    pub fn request_error(&self, req: &JobRequest) -> (r: Option<String>)
        ensures
            match r {
                Some(m) => request_problem(*req, self.lang) == Some(m@),
                None => request_problem(*req, self.lang) is None,
            },
    {
        match req {
            JobRequest::Manage(m) => {
                if m.lock.len() == 0 && m.unlock.len() == 0 {
                    return Some(
                        localize(
                            "lock 和 unlock 列表均为空 / Both lock and unlock lists are empty",
                            self.lang,
                        ),
                    );
                }
                match find_problem(&m.lock) {
                    Some((k, msg)) => Some(entry_error_text("lock", k, msg.as_str())),
                    None => match find_problem(&m.unlock) {
                        Some((k, msg)) => Some(entry_error_text("unlock", k, msg.as_str())),
                        None => None,
                    },
                }
            },
            JobRequest::Equip(e) => {
                if e.equip.len() == 0 {
                    return Some(localize("equip 列表为空 / Equip list is empty", self.lang));
                }
                match find_equip_problem(&e.equip) {
                    Some((k, msg)) => Some(entry_error_text("equip", k, msg.as_str())),
                    None => None,
                }
            },
            JobRequest::Scan(s) => {
                if !s.characters && !s.weapons && !s.artifacts {
                    Some(
                        localize(
                            "至少需要一个扫描目标 / At least one scan target must be true",
                            self.lang,
                        ),
                    )
                } else {
                    None
                }
            },
        }
    }

    /// Start the job `job_id`: the state becomes a running job of
    /// `job_total(req)` items, and the reply is 202 with the job id.
    pub fn accept(&mut self, job_id: String, req: &JobRequest) -> (r: Reply)
        requires
            job_total(*req) <= usize::MAX,
        ensures
            just_started(final(self).job, job_id@, *req),
            final(self).characters == old(self).characters,
            final(self).weapons == old(self).weapons,
            final(self).artifacts == old(self).artifacts,
            final(self).lang == old(self).lang,
            r@ == json_reply(202, accepted_body(job_id@, *req)),
    {
        let total: usize = match req {
            JobRequest::Manage(m) => m.lock.len() + m.unlock.len(),
            JobRequest::Equip(e) => e.equip.len(),
            JobRequest::Scan(s) => {
                let c: usize = if s.characters {
                    1
                } else {
                    0
                };
                let w: usize = if s.weapons {
                    1
                } else {
                    0
                };
                let a: usize = if s.artifacts {
                    1
                } else {
                    0
                };
                c + w + a
            },
        };
        let mut body = String::new();
        push_str(&mut body, "{\"jobId\":\"");
        push_str(&mut body, job_id.as_str());
        match req {
            JobRequest::Scan(s) => {
                push_str(&mut body, "\",\"targets\":{\"characters\":");
                push_bool(&mut body, s.characters);
                push_str(&mut body, ",\"weapons\":");
                push_bool(&mut body, s.weapons);
                push_str(&mut body, ",\"artifacts\":");
                push_bool(&mut body, s.artifacts);
                push_str(&mut body, "}}");
            },
            _ => {
                push_str(&mut body, "\",\"total\":");
                push_decimal(&mut body, total as u64);
                push_str(&mut body, "}");
            },
        }
        assert(body@ =~= accepted_body(job_id@, *req));
        self.job = match req {
            JobRequest::Scan(s) => JobState::running_scan(job_id, s.characters, s.weapons, s.artifacts),
            _ => JobState::running(job_id, total),
        };
        Reply::Json { status: 202, body }
    }

    /// A parsed job request: refused with 400 if `request_error` finds a
    /// problem (the state is left as it was), else started under a fresh
    /// job id, which is handed back with the request for the execution
    /// thread.
    pub fn submit(&mut self, req: JobRequest) -> (r: (Reply, Option<(String, JobRequest)>))
        requires
            job_total(req) <= usize::MAX,
        ensures
            match request_problem(req, old(self).lang) {
                Some(msg) => {
                    &&& r.0@ == error_reply(400, msg)
                    &&& r.1 is None
                    &&& *final(self) == *old(self)
                },
                None => {
                    &&& r.1 matches Some((id, job)) && job == req && is_uuid_text(id@)
                        && just_started(final(self).job, id@, req) && r.0@
                        == json_reply(202, accepted_body(id@, req))
                    &&& final(self).characters == old(self).characters
                    &&& final(self).weapons == old(self).weapons
                    &&& final(self).artifacts == old(self).artifacts
                    &&& final(self).lang == old(self).lang
                },
            },
    {
        match self.request_error(&req) {
            Some(msg) => (error(400, msg.as_str()), None),
            None => {
                let id = new_job_id();
                let reply = self.accept(id.clone(), &req);
                (reply, Some((id, req)))
            },
        }
    }

    /// The job could not be handed to the execution thread: the state goes
    /// back to idle and the reply is 500.
    pub fn submission_failed(&mut self) -> (r: Reply)
        ensures
            is_idle(final(self).job),
            final(self).characters == old(self).characters,
            final(self).weapons == old(self).weapons,
            final(self).artifacts == old(self).artifacts,
            final(self).lang == old(self).lang,
            r@ == error_reply(500, localized(unavailable_msg(), old(self).lang)),
    {
        self.job = JobState::idle();
        localized_error(500, "执行线程不可用 / Execution thread unavailable", self.lang)
    }
}

// ---------------------------------------------------------------------------
// Read-only endpoints
// ---------------------------------------------------------------------------

/// Why `/artifacts` has nothing to serve.
pub open spec fn no_artifact_data_msg() -> Seq<char> {
    "没有可用的圣遗物数据 / No artifact data available"@
}

/// `GET /result?jobId=<id>`: 400 without an id; for the current job 200
/// with its full result once completed (500 if that is missing) and 409
/// while it runs; 404 for any other id or when no job was ever started.
pub open spec fn result_reply(job: JobState, url: Seq<char>) -> ReplyView {
    match job_id_of(url) {
        None => missing_job_id_reply(),
        Some(id) => match job.state {
            JobPhase::Completed => if job_id_text(job) != id {
                job_not_found_reply()
            } else if job.result is Some {
                ReplyView::JobResult
            } else {
                error_reply(500, "result data missing"@)
            },
            JobPhase::Running => if job_id_text(job) != id {
                job_not_found_reply()
            } else {
                error_reply(409, "job still running"@)
            },
            JobPhase::Idle => job_not_found_reply(),
        },
    }
}

/// `GET /characters?jobId=<id>` and `GET /weapons?jobId=<id>`: 400 without
/// an id, the data (`hit`) when the cache holds data of that job, else 404.
pub open spec fn data_reply<T>(
    c: CacheView<T>,
    url: Seq<char>,
    label: Seq<char>,
    hit: ReplyView,
) -> ReplyView {
    match job_id_of(url) {
        None => missing_job_id_reply(),
        Some(id) => if c.job_id == Some(id) && c.data is Some {
            hit
        } else {
            error_reply(404, "no "@ + label + " data for this jobId"@)
        },
    }
}

/// `GET /artifacts[?jobId=<id>]`: the latest artifact data, unless an id is
/// given that is not the one of that data (404); 404 when there is none.
pub open spec fn artifact_reply(c: CacheView<GoodArtifact>, url: Seq<char>, lang: Lang) -> ReplyView {
    if c.job_id is Some && c.data is Some {
        match job_id_of(url) {
            Some(id) => if id != c.job_id->0 {
                error_reply(404, "no artifacts data for this jobId"@)
            } else {
                ReplyView::ArtifactData
            },
            None => ReplyView::ArtifactData,
        }
    } else {
        error_reply(404, localized(no_artifact_data_msg(), lang))
    }
}

/// The body of `GET /health`.
pub open spec fn health_body(enabled: bool, busy: bool, game_alive: bool) -> Seq<char> {
    "{\"status\":\"ok\",\"enabled\":"@ + bool_text(enabled) + ",\"busy\":"@ + bool_text(busy)
        + ",\"gameAlive\":"@ + bool_text(game_alive) + "}"@
}

/// The reply to a request that is not a job submission.
pub open spec fn get_reply(
    job: JobState,
    characters: CacheView<GoodCharacter>,
    weapons: CacheView<GoodWeapon>,
    artifacts: CacheView<GoodArtifact>,
    lang: Lang,
    route: Route,
    url: Seq<char>,
    enabled: bool,
    game_alive: bool,
    scan_progress_json: Seq<char>,
) -> ReplyView {
    match route {
        Route::Preflight => ReplyView::NoContent,
        Route::Status => json_reply(200, status_json_spec(job, scan_progress_json)),
        Route::Result => result_reply(job, url),
        Route::Health => json_reply(
            200,
            health_body(enabled, job.state == JobPhase::Running, game_alive),
        ),
        Route::Characters => data_reply(characters, url, "characters"@, ReplyView::CharacterData),
        Route::Weapons => data_reply(weapons, url, "weapons"@, ReplyView::WeaponData),
        Route::Artifacts => artifact_reply(artifacts, url, lang),
        _ => error_reply(404, "Not Found"@),
    }
}

fn job_id_is(job: &JobState, id: &String) -> (b: bool)
    ensures
        b == (job_id_text(*job) == id@),
{
    match &job.job_id {
        Some(x) => *x == *id,
        None => {
            let n = id.as_str().unicode_len();
            proof {
                if n == 0 {
                    assert(id@ =~= Seq::<char>::empty());
                }
            }
            n == 0
        },
    }
}

fn no_data_reply(label: &str) -> (r: Reply)
    ensures
        r@ == error_reply(404, "no "@ + label@ + " data for this jobId"@),
{
    let mut m = String::new();
    push_str(&mut m, "no ");
    push_str(&mut m, label);
    push_str(&mut m, " data for this jobId");
    assert(m@ =~= "no "@ + label@ + " data for this jobId"@);
    error(404, m.as_str())
}

impl ServerCore {
    /// `GET /result`.
    pub fn result(&self, url: &str) -> (r: Reply)
        ensures
            r@ == result_reply(self.job, url@),
    {
        match parse_job_id(url) {
            None => error(400, "missing required query parameter: jobId"),
            Some(id) => match self.job.state {
                JobPhase::Completed => {
                    if !job_id_is(&self.job, &id) {
                        error(404, "job not found")
                    } else if self.job.result.is_some() {
                        Reply::JobResult
                    } else {
                        error(500, "result data missing")
                    }
                },
                JobPhase::Running => {
                    if !job_id_is(&self.job, &id) {
                        error(404, "job not found")
                    } else {
                        error(409, "job still running")
                    }
                },
                JobPhase::Idle => error(404, "job not found"),
            },
        }
    }

    /// `GET /characters`.
    pub fn characters_reply(&self, url: &str) -> (r: Reply)
        ensures
            r@ == data_reply(self.characters@, url@, "characters"@, ReplyView::CharacterData),
    {
        match parse_job_id(url) {
            None => error(400, "missing required query parameter: jobId"),
            Some(id) => if self.characters.holds_job(&id) {
                Reply::CharacterData
            } else {
                no_data_reply("characters")
            },
        }
    }

    /// `GET /weapons`.
    pub fn weapons_reply(&self, url: &str) -> (r: Reply)
        ensures
            r@ == data_reply(self.weapons@, url@, "weapons"@, ReplyView::WeaponData),
    {
        match parse_job_id(url) {
            None => error(400, "missing required query parameter: jobId"),
            Some(id) => if self.weapons.holds_job(&id) {
                Reply::WeaponData
            } else {
                no_data_reply("weapons")
            },
        }
    }

    /// `GET /artifacts`.
    pub fn artifacts_reply(&self, url: &str) -> (r: Reply)
        ensures
            r@ == artifact_reply(self.artifacts@, url@, self.lang),
    {
        match (&self.artifacts.job_id, &self.artifacts.data) {
            (Some(cached), Some(_)) => match parse_job_id(url) {
                Some(id) => if *cached != id {
                    error(404, "no artifacts data for this jobId")
                } else {
                    Reply::ArtifactData
                },
                None => Reply::ArtifactData,
            },
            _ => localized_error(404, "没有可用的圣遗物数据 / No artifact data available", self.lang),
        }
    }

    /// `GET /health`: whether the manager is switched on, whether a job runs,
    /// and whether the game window was found.
    pub fn health(&self, enabled: bool, game_alive: bool) -> (r: Reply)
        ensures
            r@ == json_reply(
                200,
                health_body(enabled, self.job.state == JobPhase::Running, game_alive),
            ),
    {
        let mut body = String::new();
        push_str(&mut body, "{\"status\":\"ok\",\"enabled\":");
        push_bool(&mut body, enabled);
        push_str(&mut body, ",\"busy\":");
        push_bool(&mut body, self.job.state == JobPhase::Running);
        push_str(&mut body, ",\"gameAlive\":");
        push_bool(&mut body, game_alive);
        push_str(&mut body, "}");
        assert(body@ =~= health_body(enabled, self.job.state == JobPhase::Running, game_alive));
        Reply::Json { status: 200, body }
    }

    /// The reply to any request but a job submission. `scan_progress_json`
    /// is the serialised scan progress of the current job, shown by
    /// `/status` while a scan runs.
    pub fn handle_get(
        &self,
        route: Route,
        url: &str,
        enabled: bool,
        game_alive: bool,
        scan_progress_json: &str,
    ) -> (r: Reply)
        ensures
            r@ == get_reply(
                self.job,
                self.characters@,
                self.weapons@,
                self.artifacts@,
                self.lang,
                route,
                url@,
                enabled,
                game_alive,
                scan_progress_json@,
            ),
    {
        match route {
            Route::Preflight => Reply::NoContent,
            Route::Status => Reply::Json { status: 200, body: self.job.status_json(scan_progress_json) },
            Route::Result => self.result(url),
            Route::Health => self.health(enabled, game_alive),
            Route::Characters => self.characters_reply(url),
            Route::Weapons => self.weapons_reply(url),
            Route::Artifacts => self.artifacts_reply(url),
            _ => error(404, "Not Found"),
        }
    }
}

// ---------------------------------------------------------------------------
// The execution thread's steps
// ---------------------------------------------------------------------------

/// Whether the execution thread holds a game executor. It is made on the
/// first job; when making it fails, that job fails and the next job tries
/// again.
pub struct ExecutorState {
    pub ready: bool,
}

impl ExecutorState {
    /// No executor made yet.
    pub fn new() -> (e: Self)
        ensures
            !e.ready,
    {
        ExecutorState { ready: false }
    }

    /// Before a job: must the executor be made first?
    pub fn needs_init(&self) -> (b: bool)
        ensures
            b == !self.ready,
    {
        !self.ready
    }

    /// Making the executor succeeded (`ok`) or failed. The answer tells
    /// whether the job runs; when it does not, the job fails (`fail_init`)
    /// and, the executor still missing, the next job makes it again.
    pub fn init_done(&mut self, ok: bool) -> (run: bool)
        ensures
            run == ok,
            final(self).ready == ok,
    {
        self.ready = ok;
        ok
    }
}

/// Does the job change the game's state (lock, unlock or equip something)?
/// Scans only read it.
pub open spec fn changes_game_state(req: JobRequest) -> bool {
    match req {
        JobRequest::Manage(m) => m.lock@.len() > 0 || m.unlock@.len() > 0,
        JobRequest::Equip(_) => true,
        JobRequest::Scan(_) => false,
    }
}

/// Does the job change the game's state?
pub fn alters_game(req: &JobRequest) -> (b: bool)
    ensures
        b == changes_game_state(*req),
{
    match req {
        JobRequest::Manage(m) => m.lock.len() > 0 || m.unlock.len() > 0,
        JobRequest::Equip(_) => true,
        JobRequest::Scan(_) => false,
    }
}

/// The artifact cache once a job starts: dropped if the job changes the
/// game's state, since the data would go stale.
pub open spec fn begin_job_cache(c: CacheView<GoodArtifact>, req: JobRequest) -> CacheView<
    GoodArtifact,
> {
    if changes_game_state(req) && c.data is Some {
        empty_cache()
    } else {
        c
    }
}

/// The artifact cache once a manage or equip job `id` has finished: the
/// inventory snapshot the job took, if it took one; else dropped if the job
/// changed the game's state.
pub open spec fn finish_job_cache(
    c: CacheView<GoodArtifact>,
    id: Seq<char>,
    snapshot: Option<Seq<GoodArtifact>>,
    invalidates: bool,
) -> CacheView<GoodArtifact> {
    match snapshot {
        Some(s) => CacheView { job_id: Some(id), data: Some(s) },
        None => if invalidates && c.data is Some {
            empty_cache()
        } else {
            c
        },
    }
}

/// `j` is the state of the job `id` once it has completed with a result.
pub open spec fn completed_as(j: JobState, id: Seq<char>) -> bool {
    &&& j.state == JobPhase::Completed
    &&& j.job_id matches Some(x) && x@ == id
    &&& j.progress is None
    &&& j.scan_progress is None
    &&& j.result is Some
}

/// `rs` reports each of `n` items, `item_0` to `item_<n-1>`, as a UI error.
pub open spec fn ui_error_results(rs: Seq<InstructionResult>, n: nat) -> bool {
    &&& rs.len() == n
    &&& forall|i: int|
        0 <= i < n ==> (#[trigger] rs[i]).id@ == "item_"@ + decimal(i as nat) && rs[i].status
            == InstructionStatus::UiError
}

/// The categories a scan produced data for, in the order they are scanned.
pub open spec fn scan_phase_ids(c: bool, w: bool, a: bool) -> Seq<Seq<char>> {
    (if c {
        seq!["characters"@]
    } else {
        Seq::empty()
    }) + (if w {
        seq!["weapons"@]
    } else {
        Seq::empty()
    }) + (if a {
        seq!["artifacts"@]
    } else {
        Seq::empty()
    })
}

/// `rs` reports each of `ids` as a success, in order.
pub open spec fn all_success(rs: Seq<InstructionResult>, ids: Seq<Seq<char>>) -> bool {
    &&& rs.len() == ids.len()
    &&& forall|i: int|
        0 <= i < ids.len() ==> (#[trigger] rs[i]).id@ == ids[i] && rs[i].status
            == InstructionStatus::Success
}

/// The summary of a job that failed as a whole: one error.
pub open spec fn failure_summary() -> ManageSummary {
    ManageSummary {
        total: 0,
        success: 0,
        already_correct: 0,
        not_found: 0,
        errors: 1,
        aborted: 0,
    }
}

fn success(id: &str) -> (r: InstructionResult)
    ensures
        r.id@ == id@,
        r.status == InstructionStatus::Success,
{
    InstructionResult { id: String::from_str(id), status: InstructionStatus::Success }
}

impl ServerCore {
    /// A job is about to run: if it changes the game's state, the artifact
    /// data is dropped at once, so that no client reads stale data while the
    /// job runs.
    pub fn begin_job(&mut self, req: &JobRequest)
        ensures
            final(self).artifacts@ == begin_job_cache(old(self).artifacts@, *req),
            final(self).job == old(self).job,
            final(self).characters == old(self).characters,
            final(self).weapons == old(self).weapons,
            final(self).lang == old(self).lang,
    {
        if alters_game(req) && self.artifacts.data.is_some() {
            self.artifacts.invalidate();
        }
    }

    /// The running job reports progress: `completed` of `total` items done,
    /// working on `current_id` in phase `phase`.
    pub fn record_progress(&mut self, completed: usize, total: usize, current_id: &str, phase: &str)
        ensures
            final(self).job.progress matches Some(p) && p.completed == completed && p.total == total
                && p.current_id@ == current_id@ && p.phase@ == phase@,
            final(self).job.state == old(self).job.state,
            final(self).job.job_id == old(self).job.job_id,
            final(self).job.scan_progress == old(self).job.scan_progress,
            final(self).job.result == old(self).job.result,
            final(self).characters == old(self).characters,
            final(self).weapons == old(self).weapons,
            final(self).artifacts == old(self).artifacts,
            final(self).lang == old(self).lang,
    {
        self.job.progress = Some(
            JobProgress {
                completed,
                total,
                current_id: String::from_str(current_id),
                phase: String::from_str(phase),
            },
        );
    }

    /// A running scan reports that `completed` of its `total` categories are
    /// done: the categories done are complete, the next one runs, the rest
    /// wait (a job without per-category progress is left as it is).
    pub fn record_scan_progress(&mut self, completed: usize, total: usize)
        ensures
            final(self).job.scan_progress == match old(self).job.scan_progress {
                Some(sp) => Some(advanced_scan(sp, completed as int)),
                None => None,
            },
            final(self).job.progress == old(self).job.progress,
            final(self).job.state == old(self).job.state,
            final(self).job.job_id == old(self).job.job_id,
            final(self).job.result == old(self).job.result,
            final(self).characters == old(self).characters,
            final(self).weapons == old(self).weapons,
            final(self).artifacts == old(self).artifacts,
            final(self).lang == old(self).lang,
    {
        match self.job.scan_progress {
            Some(sp) => {
                let kw: usize = if sp.characters.is_some() {
                    1
                } else {
                    0
                };
                let ka: usize = kw + if sp.weapons.is_some() {
                    1
                } else {
                    0
                };
                self.job.scan_progress = Some(
                    ScanProgress {
                        characters: advance_slot(sp.characters, 0, completed),
                        weapons: advance_slot(sp.weapons, kw, completed),
                        artifacts: advance_slot(sp.artifacts, ka, completed),
                    },
                );
            },
            None => {},
        }
    }

    /// The game could not be prepared for the job `job_id`: the job
    /// completes with every one of its items reported as a UI error.
    pub fn fail_init(&mut self, job_id: String, req: &JobRequest)
        requires
            job_total(*req) <= usize::MAX,
        ensures
            completed_as(final(self).job, job_id@),
            final(self).job.result matches Some(r) && ui_error_results(r.results@, job_total(*req))
                && r.summary == summary_of(r.results@),
            final(self).characters == old(self).characters,
            final(self).weapons == old(self).weapons,
            final(self).artifacts == old(self).artifacts,
            final(self).lang == old(self).lang,
    {
        let n: usize = match req {
            JobRequest::Manage(m) => m.lock.len() + m.unlock.len(),
            JobRequest::Equip(e) => e.equip.len(),
            JobRequest::Scan(s) => {
                let c: usize = if s.characters {
                    1
                } else {
                    0
                };
                let w: usize = if s.weapons {
                    1
                } else {
                    0
                };
                let a: usize = if s.artifacts {
                    1
                } else {
                    0
                };
                c + w + a
            },
        };
        let mut results: Vec<InstructionResult> = Vec::new();
        let mut i: usize = 0;
        while i < n
            invariant
                i <= n,
                n == job_total(*req),
                ui_error_results(results@, i as nat),
            decreases n - i,
        {
            let mut id = String::new();
            push_str(&mut id, "item_");
            push_decimal(&mut id, i as u64);
            assert(id@ =~= "item_"@ + decimal(i as nat));
            results.push(InstructionResult { id, status: InstructionStatus::UiError });
            i += 1;
        }
        let summary = ManageSummary::from_results(&results);
        self.job = JobState::completed(job_id, ManageResult { results, summary });
    }

    /// The manage or equip job `job_id` finished with `result`. The artifact
    /// cache takes the inventory snapshot the job took, if any; else it is
    /// dropped when `invalidates_cache` says the job changed the game's
    /// state.
    pub fn finish_job(
        &mut self,
        job_id: String,
        result: ManageResult,
        snapshot: Option<Vec<GoodArtifact>>,
        invalidates_cache: bool,
    )
        ensures
            final(self).artifacts@ == finish_job_cache(
                old(self).artifacts@,
                job_id@,
                match snapshot {
                    Some(s) => Some(s@),
                    None => None,
                },
                invalidates_cache,
            ),
            completed_as(final(self).job, job_id@),
            final(self).job.result == Some(result),
            final(self).characters == old(self).characters,
            final(self).weapons == old(self).weapons,
            final(self).lang == old(self).lang,
    {
        match snapshot {
            Some(s) => self.artifacts.set(job_id.clone(), s),
            None => {
                if invalidates_cache && self.artifacts.data.is_some() {
                    self.artifacts.invalidate();
                }
            },
        }
        self.job = JobState::completed(job_id, result);
    }

    /// The scan `job_id` finished: each category it produced data for
    /// replaces that category's cache, and the job completes with one
    /// success per such category.
    pub fn finish_scan(
        &mut self,
        job_id: String,
        characters: Option<Vec<GoodCharacter>>,
        weapons: Option<Vec<GoodWeapon>>,
        artifacts: Option<Vec<GoodArtifact>>,
    )
        ensures
            match characters {
                Some(d) => final(self).characters@ == (CacheView {
                    job_id: Some(job_id@),
                    data: Some(d@),
                }),
                None => final(self).characters == old(self).characters,
            },
            match weapons {
                Some(d) => final(self).weapons@ == (CacheView {
                    job_id: Some(job_id@),
                    data: Some(d@),
                }),
                None => final(self).weapons == old(self).weapons,
            },
            match artifacts {
                Some(d) => final(self).artifacts@ == (CacheView {
                    job_id: Some(job_id@),
                    data: Some(d@),
                }),
                None => final(self).artifacts == old(self).artifacts,
            },
            completed_as(final(self).job, job_id@),
            final(self).job.result matches Some(r) && all_success(
                r.results@,
                scan_phase_ids(characters is Some, weapons is Some, artifacts is Some),
            ) && r.summary == summary_of(r.results@),
            final(self).lang == old(self).lang,
    {
        let ghost ids = scan_phase_ids(characters is Some, weapons is Some, artifacts is Some);
        let mut results: Vec<InstructionResult> = Vec::new();
        let ghost c_ids: Seq<Seq<char>> = if characters is Some {
            seq!["characters"@]
        } else {
            Seq::empty()
        };
        let ghost w_ids: Seq<Seq<char>> = if weapons is Some {
            seq!["weapons"@]
        } else {
            Seq::empty()
        };
        let ghost a_ids: Seq<Seq<char>> = if artifacts is Some {
            seq!["artifacts"@]
        } else {
            Seq::empty()
        };
        match characters {
            Some(d) => {
                self.characters.set(job_id.clone(), d);
                results.push(success("characters"));
            },
            None => {},
        }
        assert(all_success(results@, c_ids));
        match weapons {
            Some(d) => {
                self.weapons.set(job_id.clone(), d);
                results.push(success("weapons"));
            },
            None => {},
        }
        assert(all_success(results@, c_ids + w_ids));
        match artifacts {
            Some(d) => {
                self.artifacts.set(job_id.clone(), d);
                results.push(success("artifacts"));
            },
            None => {},
        }
        assert(all_success(results@, c_ids + w_ids + a_ids));
        assert(c_ids + w_ids + a_ids == ids);
        let summary = ManageSummary::from_results(&results);
        self.job = JobState::completed(job_id, ManageResult { results, summary });
    }

    /// The job `job_id` failed as a whole (the scan returned an error, or the
    /// execution panicked): it completes with no per-item results and one
    /// error.
    pub fn finish_failed(&mut self, job_id: String)
        ensures
            completed_as(final(self).job, job_id@),
            final(self).job.result matches Some(r) && r.results@.len() == 0 && r.summary
                == failure_summary(),
            final(self).characters == old(self).characters,
            final(self).weapons == old(self).weapons,
            final(self).artifacts == old(self).artifacts,
            final(self).lang == old(self).lang,
    {
        let summary = ManageSummary {
            total: 0,
            success: 0,
            already_correct: 0,
            not_found: 0,
            errors: 1,
            aborted: 0,
        };
        self.job = JobState::completed(job_id, ManageResult { results: Vec::new(), summary });
    }
}

// ---------------------------------------------------------------------------
// Laws of the server
// ---------------------------------------------------------------------------

/// While a job runs, a switched-on manager refuses every new job request
/// with 409.
pub proof fn busy_server_refuses_jobs(job: JobState, lang: Lang)
    requires
        job.state == JobPhase::Running,
    ensures
        admission_reply(job, true, lang) == Some(error_reply(409, localized(busy_msg(), lang))),
{
}

/// A switched-off manager refuses every job request with 503, whatever the
/// state of the current job.
pub proof fn paused_server_refuses_jobs(job: JobState, lang: Lang)
    ensures
        admission_reply(job, false, lang) == Some(error_reply(503, localized(paused_msg(), lang))),
{
}

/// The job id handed out in the 202 reply, given back as `?jobId=<id>`
/// after any path without a `?`, is read back as that same id.
pub proof fn job_ids_read_back(path: Seq<char>, id: Seq<char>)
    requires
        forall|i: int| 0 <= i < path.len() ==> path[i] != '?',
        is_uuid_text(id),
    ensures
        job_id_of(path + "?jobId="@ + id) == Some(id),
{
    job_id_round_trip(path, id);
}

/// A job that has just started answers `GET /result` for its id with 409.
pub proof fn started_job_result_pending(job: JobState, id: Seq<char>, req: JobRequest, url: Seq<char>)
    requires
        just_started(job, id, req),
        job_id_of(url) == Some(id),
    ensures
        result_reply(job, url) == error_reply(409, "job still running"@),
{
}

/// A job that has just started has exactly one kind of progress: linear
/// for manage and equip jobs, per category for scans; a scan's progress
/// reports keep it so.
pub proof fn started_job_has_one_progress(job: JobState, id: Seq<char>, req: JobRequest, completed: int)
    requires
        just_started(job, id, req),
    ensures
        (job.progress is Some) != (job.scan_progress is Some),
        req is Scan <==> job.scan_progress is Some,
        job.scan_progress matches Some(sp) ==> advanced_scan(sp, completed).characters is Some
            == sp.characters is Some && advanced_scan(sp, completed).weapons is Some
            == sp.weapons is Some && advanced_scan(sp, completed).artifacts is Some
            == sp.artifacts is Some,
{
}

/// Once a job has completed, `GET /result` serves its full result for its
/// id, and answers 404 for any other id.
pub proof fn completed_job_result_served(job: JobState, id: Seq<char>, url: Seq<char>)
    requires
        completed_as(job, id),
        job_id_of(url) is Some,
    ensures
        job_id_of(url) == Some(id) ==> result_reply(job, url) == ReplyView::JobResult,
        job_id_of(url) != Some(id) ==> result_reply(job, url) == job_not_found_reply(),
{
}

/// The data a scan stored is served for the id of that scan, and for no
/// other id.
pub proof fn scan_data_served_for_its_job<T>(
    d: Seq<T>,
    id: Seq<char>,
    url: Seq<char>,
    label: Seq<char>,
    hit: ReplyView,
)
    requires
        job_id_of(url) is Some,
    ensures
        data_reply(CacheView { job_id: Some(id), data: Some(d) }, url, label, hit) == if job_id_of(
            url,
        ) == Some(id) {
            hit
        } else {
            error_reply(404, "no "@ + label + " data for this jobId"@)
        },
{
}

/// Stored artifact data is served without a job id, and with the id of the
/// job that stored it; any other id gets 404.
pub proof fn artifact_data_served(d: Seq<GoodArtifact>, id: Seq<char>, url: Seq<char>, lang: Lang)
    ensures
        artifact_reply(CacheView { job_id: Some(id), data: Some(d) }, url, lang) == if job_id_of(
            url,
        ) is None || job_id_of(url) == Some(id) {
            ReplyView::ArtifactData
        } else {
            error_reply(404, "no artifacts data for this jobId"@)
        },
{
}

/// As soon as a job that locks, unlocks or equips starts, `/artifacts`
/// serves no data, whatever it held before.
pub proof fn game_changing_job_clears_artifacts(
    c: CacheView<GoodArtifact>,
    req: JobRequest,
    url: Seq<char>,
    lang: Lang,
)
    requires
        changes_game_state(req),
    ensures
        artifact_reply(begin_job_cache(c, req), url, lang) == error_reply(
            404,
            localized(no_artifact_data_msg(), lang),
        ),
{
}

/// A scan leaves the artifact data as it was when it starts.
pub proof fn scan_keeps_artifacts(c: CacheView<GoodArtifact>, s: ScanRequest)
    ensures
        begin_job_cache(c, JobRequest::Scan(s)) == c,
{
}

/// A job that changed the game's state and took no fresh inventory
/// snapshot leaves `/artifacts` with no data: stale data is never served.
pub proof fn stale_artifacts_not_served(
    c: CacheView<GoodArtifact>,
    id: Seq<char>,
    url: Seq<char>,
    lang: Lang,
)
    ensures
        artifact_reply(finish_job_cache(c, id, None, true), url, lang) == error_reply(
            404,
            localized(no_artifact_data_msg(), lang),
        ),
{
}

proof fn lemma_counts_all_ui_errors(rs: Seq<InstructionResult>, n: nat)
    requires
        ui_error_results(rs, n),
    ensures
        count_bucket(rs, SummaryBucket::Errors) == n,
        count_bucket(rs, SummaryBucket::Success) == 0,
        count_bucket(rs, SummaryBucket::AlreadyCorrect) == 0,
        count_bucket(rs, SummaryBucket::NotFound) == 0,
        count_bucket(rs, SummaryBucket::Aborted) == 0,
    decreases n,
{
    if n > 0 {
        let p = rs.drop_last();
        assert forall|i: int| 0 <= i < n - 1 implies (#[trigger] p[i]).id@ == "item_"@ + decimal(
            i as nat,
        ) && p[i].status == InstructionStatus::UiError by {
            assert(p[i] == rs[i]);
        }
        lemma_counts_all_ui_errors(p, (n - 1) as nat);
        assert(rs.last() == rs[n - 1]);
    }
}

/// When the game cannot be prepared, the job's summary counts every one of
/// its items as an error and nothing else.
pub proof fn init_failure_counts_errors(rs: Seq<InstructionResult>, n: nat)
    requires
        ui_error_results(rs, n),
        n <= usize::MAX,
    ensures
        summary_of(rs) == (ManageSummary {
            total: n as usize,
            success: 0,
            already_correct: 0,
            not_found: 0,
            errors: n as usize,
            aborted: 0,
        }),
{
    lemma_counts_all_ui_errors(rs, n);
}

proof fn lemma_counts_all_success(rs: Seq<InstructionResult>, ids: Seq<Seq<char>>)
    requires
        all_success(rs, ids),
    ensures
        count_bucket(rs, SummaryBucket::Success) == rs.len(),
        count_bucket(rs, SummaryBucket::Errors) == 0,
        count_bucket(rs, SummaryBucket::AlreadyCorrect) == 0,
        count_bucket(rs, SummaryBucket::NotFound) == 0,
        count_bucket(rs, SummaryBucket::Aborted) == 0,
    decreases rs.len(),
{
    if rs.len() > 0 {
        let p = rs.drop_last();
        let pi = ids.drop_last();
        assert forall|i: int| 0 <= i < pi.len() implies (#[trigger] p[i]).id@ == pi[i]
            && p[i].status == InstructionStatus::Success by {
            assert(p[i] == rs[i]);
        }
        lemma_counts_all_success(p, pi);
        assert(rs.last() == rs[rs.len() - 1]);
    }
}

/// A scan that finished counts each category it produced data for as a
/// success, and nothing else.
pub proof fn scan_summary_counts_successes(rs: Seq<InstructionResult>, ids: Seq<Seq<char>>)
    requires
        all_success(rs, ids),
        rs.len() <= usize::MAX,
    ensures
        summary_of(rs) == (ManageSummary {
            total: ids.len() as usize,
            success: ids.len() as usize,
            already_correct: 0,
            not_found: 0,
            errors: 0,
            aborted: 0,
        }),
{
    lemma_counts_all_success(rs, ids);
}

/// A job whose submission failed leaves the server idle: `/status`
/// reports `{"state":"idle"}`.
pub proof fn idle_status(job: JobState, scan_progress_json: Seq<char>)
    requires
        is_idle(job),
    ensures
        status_json_spec(job, scan_progress_json) == "{\"state\":\"idle\"}"@,
{
}

} // verus!
