//! Data model of the GOOD v3 export format and of the manage/scan jobs.
//!
//! Substat values are kept in tenths (`value_tenths == 39` is 3.9), the
//! precision the game displays them in.
use vstd::prelude::*;

verus! {

/// One substat line of an artifact.
#[derive(Clone, Debug)]
pub struct GoodSubStat {
    pub key: String,
    /// The displayed value, in tenths.
    pub value_tenths: i64,
    /// The value of the first roll, in tenths, where it is known.
    pub initial_value_tenths: Option<i64>,
}

/// An artifact in GOOD v3 form.
#[derive(Clone, Debug)]
pub struct GoodArtifact {
    pub set_key: String,
    pub slot_key: String,
    pub rarity: i32,
    pub level: i32,
    pub main_stat_key: String,
    pub substats: Vec<GoodSubStat>,
    pub location: String,
    pub lock: bool,
    pub astral_mark: bool,
    pub elixir_crafted: bool,
    pub unactivated_substats: Vec<GoodSubStat>,
    /// Number of substat upgrade rolls the solver attributed, if it succeeded.
    pub total_rolls: Option<i32>,
}

/// Talent levels of a character.
#[derive(Clone, Copy, Debug, PartialEq, Eq, Structural)]
pub struct GoodTalent {
    pub auto: i32,
    pub skill: i32,
    pub burst: i32,
}

/// A character in GOOD v3 form.
#[derive(Clone, Debug)]
pub struct GoodCharacter {
    pub key: String,
    pub level: i32,
    pub constellation: i32,
    pub ascension: i32,
    pub talent: GoodTalent,
    pub element: Option<String>,
}

/// A weapon in GOOD v3 form.
#[derive(Clone, Debug)]
pub struct GoodWeapon {
    pub key: String,
    pub level: i32,
    pub ascension: i32,
    pub refinement: i32,
    pub rarity: i32,
    pub location: String,
    pub lock: bool,
}

impl GoodSubStat {
    /// A copy equal to `self`.
    pub fn duplicate(&self) -> (r: Self)
        ensures
            r == *self,
    {
        GoodSubStat {
            key: self.key.clone(),
            value_tenths: self.value_tenths,
            initial_value_tenths: self.initial_value_tenths,
        }
    }
}

/// A copy of a list of substats, equal to it.
pub fn duplicate_substats(v: &Vec<GoodSubStat>) -> (r: Vec<GoodSubStat>)
    ensures
        r@ == v@,
{
    let mut r: Vec<GoodSubStat> = Vec::new();
    let mut i: usize = 0;
    while i < v.len()
        invariant
            i <= v.len(),
            r@ == v@.take(i as int),
        decreases v.len() - i,
    {
        r.push(v[i].duplicate());
        i += 1;
        assert(r@ =~= v@.take(i as int));
    }
    assert(v@.take(v.len() as int) =~= v@);
    r
}

/// The value of an artifact: every field, lists taken by their contents.
pub struct ArtifactView {
    pub set_key: Seq<char>,
    pub slot_key: Seq<char>,
    pub rarity: i32,
    pub level: i32,
    pub main_stat_key: Seq<char>,
    pub substats: Seq<GoodSubStat>,
    pub location: Seq<char>,
    pub lock: bool,
    pub astral_mark: bool,
    pub elixir_crafted: bool,
    pub unactivated_substats: Seq<GoodSubStat>,
    pub total_rolls: Option<i32>,
}

impl View for GoodArtifact {
    type V = ArtifactView;

    open spec fn view(&self) -> ArtifactView {
        ArtifactView {
            set_key: self.set_key@,
            slot_key: self.slot_key@,
            rarity: self.rarity,
            level: self.level,
            main_stat_key: self.main_stat_key@,
            substats: self.substats@,
            location: self.location@,
            lock: self.lock,
            astral_mark: self.astral_mark,
            elixir_crafted: self.elixir_crafted,
            unactivated_substats: self.unactivated_substats@,
            total_rolls: self.total_rolls,
        }
    }
}

impl GoodArtifact {
    /// A copy with the same value as `self`.
    pub fn duplicate(&self) -> (r: Self)
        ensures
            r@ == self@,
    {
        GoodArtifact {
            set_key: self.set_key.clone(),
            slot_key: self.slot_key.clone(),
            rarity: self.rarity,
            level: self.level,
            main_stat_key: self.main_stat_key.clone(),
            substats: duplicate_substats(&self.substats),
            location: self.location.clone(),
            lock: self.lock,
            astral_mark: self.astral_mark,
            elixir_crafted: self.elixir_crafted,
            unactivated_substats: duplicate_substats(&self.unactivated_substats),
            total_rolls: self.total_rolls,
        }
    }
}

// ---------------------------------------------------------------------------
// Requests
// ---------------------------------------------------------------------------

/// Which categories a remote scan should cover.
#[derive(Clone, Copy, Debug, PartialEq, Eq, Structural)]
pub struct ScanRequest {
    pub characters: bool,
    pub weapons: bool,
    pub artifacts: bool,
}

/// One equip instruction: the artifact and the character key to give it to
/// (empty to unequip).
#[derive(Clone, Debug)]
pub struct EquipInstruction {
    pub artifact: GoodArtifact,
    pub location: String,
}

/// A list of equip instructions.
#[derive(Clone, Debug)]
pub struct EquipRequest {
    pub equip: Vec<EquipInstruction>,
}

/// Artifacts to lock and artifacts to unlock. Which list an artifact is in
/// says what should happen to it; its own `lock` field is not consulted.
#[derive(Clone, Debug)]
pub struct LockManageRequest {
    pub lock: Vec<GoodArtifact>,
    pub unlock: Vec<GoodArtifact>,
}

// ---------------------------------------------------------------------------
// Results
// ---------------------------------------------------------------------------

/// Outcome of one instruction.
#[derive(Clone, Copy, Debug, PartialEq, Eq, Structural)]
pub enum InstructionStatus {
    /// Change applied successfully.
    Success,
    /// Artifact was found but already in the desired state.
    AlreadyCorrect,
    /// No matching artifact found during inventory scan.
    NotFound,
    /// OCR failed while trying to identify the artifact.
    OcrError,
    /// In-game UI interaction failed.
    UiError,
    /// User aborted.
    Aborted,
    /// Skipped because a prerequisite step failed.
    Skipped,
    /// Input data is invalid.
    InvalidInput,
}

/// Per-instruction outcome.
#[derive(Clone, Debug)]
pub struct InstructionResult {
    pub id: String,
    pub status: InstructionStatus,
}

/// Counts of the outcomes of a job.
#[derive(Clone, Copy, Debug, PartialEq, Eq, Structural)]
pub struct ManageSummary {
    pub total: usize,
    pub success: usize,
    pub already_correct: usize,
    pub not_found: usize,
    pub errors: usize,
    pub aborted: usize,
}

/// Full result of a manage operation.
#[derive(Clone, Debug)]
pub struct ManageResult {
    pub results: Vec<InstructionResult>,
    pub summary: ManageSummary,
}

/// Which summary counter an outcome goes to.
pub enum SummaryBucket {
    Success,
    AlreadyCorrect,
    NotFound,
    Errors,
    Aborted,
}

/// The summary counter that counts `s`: OCR errors, UI errors, skipped and
/// invalid instructions all count as errors.
pub open spec fn bucket_of(s: InstructionStatus) -> SummaryBucket {
    match s {
        InstructionStatus::Success => SummaryBucket::Success,
        InstructionStatus::AlreadyCorrect => SummaryBucket::AlreadyCorrect,
        InstructionStatus::NotFound => SummaryBucket::NotFound,
        InstructionStatus::Aborted => SummaryBucket::Aborted,
        _ => SummaryBucket::Errors,
    }
}

/// Number of results among `rs` whose status falls in bucket `b`.
pub open spec fn count_bucket(rs: Seq<InstructionResult>, b: SummaryBucket) -> nat
    decreases rs.len(),
{
    if rs.len() == 0 {
        0
    } else {
        count_bucket(rs.drop_last(), b) + if bucket_of(rs.last().status) == b {
            1nat
        } else {
            0nat
        }
    }
}

/// The summary of a list of results.
pub open spec fn summary_of(rs: Seq<InstructionResult>) -> ManageSummary {
    ManageSummary {
        total: rs.len() as usize,
        success: count_bucket(rs, SummaryBucket::Success) as usize,
        already_correct: count_bucket(rs, SummaryBucket::AlreadyCorrect) as usize,
        not_found: count_bucket(rs, SummaryBucket::NotFound) as usize,
        errors: count_bucket(rs, SummaryBucket::Errors) as usize,
        aborted: count_bucket(rs, SummaryBucket::Aborted) as usize,
    }
}

proof fn lemma_count_bucket_le(rs: Seq<InstructionResult>, b: SummaryBucket)
    ensures
        count_bucket(rs, b) <= rs.len(),
    decreases rs.len(),
{
    if rs.len() > 0 {
        lemma_count_bucket_le(rs.drop_last(), b);
    }
}

/// The five counters of a summary add up to its total: every outcome is
/// counted exactly once.
pub proof fn lemma_buckets_partition(rs: Seq<InstructionResult>)
    ensures
        count_bucket(rs, SummaryBucket::Success) + count_bucket(rs, SummaryBucket::AlreadyCorrect)
            + count_bucket(rs, SummaryBucket::NotFound) + count_bucket(rs, SummaryBucket::Errors)
            + count_bucket(rs, SummaryBucket::Aborted) == rs.len(),
    decreases rs.len(),
{
    if rs.len() > 0 {
        lemma_buckets_partition(rs.drop_last());
    }
}

impl ManageSummary {
    /// Count the outcomes of `results`.
    pub fn from_results(results: &Vec<InstructionResult>) -> (s: Self)
        ensures
            s == summary_of(results@),
    {
        let mut summary = ManageSummary {
            total: results.len(),
            success: 0,
            already_correct: 0,
            not_found: 0,
            errors: 0,
            aborted: 0,
        };
        let mut i: usize = 0;
        while i < results.len()
            invariant
                i <= results.len(),
                summary.total == results@.len(),
                summary.success == count_bucket(results@.take(i as int), SummaryBucket::Success),
                summary.already_correct == count_bucket(
                    results@.take(i as int),
                    SummaryBucket::AlreadyCorrect,
                ),
                summary.not_found == count_bucket(results@.take(i as int), SummaryBucket::NotFound),
                summary.errors == count_bucket(results@.take(i as int), SummaryBucket::Errors),
                summary.aborted == count_bucket(results@.take(i as int), SummaryBucket::Aborted),
            decreases results.len() - i,
        {
            let ghost prev = results@.take(i as int);
            let ghost next = results@.take(i + 1);
            assert(next.drop_last() =~= prev);
            proof {
                lemma_buckets_partition(next);
                lemma_count_bucket_le(next, SummaryBucket::Success);
                lemma_count_bucket_le(next, SummaryBucket::AlreadyCorrect);
                lemma_count_bucket_le(next, SummaryBucket::NotFound);
                lemma_count_bucket_le(next, SummaryBucket::Errors);
                lemma_count_bucket_le(next, SummaryBucket::Aborted);
            }
            match results[i].status {
                InstructionStatus::Success => summary.success += 1,
                InstructionStatus::AlreadyCorrect => summary.already_correct += 1,
                InstructionStatus::NotFound => summary.not_found += 1,
                InstructionStatus::OcrError | InstructionStatus::UiError => summary.errors += 1,
                InstructionStatus::Aborted => summary.aborted += 1,
                InstructionStatus::Skipped | InstructionStatus::InvalidInput => summary.errors
                    += 1,
            }
            i += 1;
        }
        assert(results@.take(results.len() as int) =~= results@);
        summary
    }
}

/// The counters of the summary of any results add up to its total.
pub proof fn summary_counts_add_up(results: Seq<InstructionResult>)
    requires
        results.len() <= usize::MAX,
    ensures
        ({
            let s = summary_of(results);
            s.success + s.already_correct + s.not_found + s.errors + s.aborted == s.total
        }),
{
    lemma_buckets_partition(results);
    lemma_count_bucket_le(results, SummaryBucket::Success);
    lemma_count_bucket_le(results, SummaryBucket::AlreadyCorrect);
    lemma_count_bucket_le(results, SummaryBucket::NotFound);
    lemma_count_bucket_le(results, SummaryBucket::Errors);
    lemma_count_bucket_le(results, SummaryBucket::Aborted);
}

// ---------------------------------------------------------------------------
// Job state
// ---------------------------------------------------------------------------

/// Phase of an asynchronous job.
#[derive(Clone, Copy, Debug, PartialEq, Eq, Structural)]
pub enum JobPhase {
    Idle,
    Running,
    Completed,
}

/// Linear progress of a single-phase job (manage, equip).
#[derive(Clone, Debug)]
pub struct JobProgress {
    pub completed: usize,
    pub total: usize,
    pub current_id: String,
    pub phase: String,
}

/// State of one scan category.
#[derive(Clone, Copy, Debug, PartialEq, Eq, Structural)]
pub enum PhaseState {
    Pending,
    Running,
    Complete,
    Aborted,
}

/// Progress of one scan category.
#[derive(Clone, Copy, Debug, PartialEq, Eq, Structural)]
pub struct PhaseProgress {
    pub completed: usize,
    pub total: usize,
    pub state: PhaseState,
}

impl PhaseProgress {
    /// A category that was requested and has not started.
    pub fn pending() -> (p: Self)
        ensures
            p == (PhaseProgress { completed: 0, total: 0, state: PhaseState::Pending }),
    {
        PhaseProgress { completed: 0, total: 0, state: PhaseState::Pending }
    }
}

/// Per-category progress of a scan job; `None` for categories not requested.
#[derive(Clone, Copy, Debug, PartialEq, Eq, Structural)]
pub struct ScanProgress {
    pub characters: Option<PhaseProgress>,
    pub weapons: Option<PhaseProgress>,
    pub artifacts: Option<PhaseProgress>,
}

/// Shared state of the current (or last) job, polled through `GET /status`.
#[derive(Clone, Debug)]
pub struct JobState {
    pub state: JobPhase,
    pub job_id: Option<String>,
    pub progress: Option<JobProgress>,
    pub scan_progress: Option<ScanProgress>,
    pub result: Option<ManageResult>,
}

impl JobState {
    /// No job has been submitted.
    pub fn idle() -> (s: Self)
        ensures
            s.state == JobPhase::Idle,
            s.job_id is None,
            s.progress is None,
            s.scan_progress is None,
            s.result is None,
    {
        JobState {
            state: JobPhase::Idle,
            job_id: None,
            progress: None,
            scan_progress: None,
            result: None,
        }
    }

    /// A manage or equip job with `total` instructions has started.
    pub fn running(job_id: String, total: usize) -> (s: Self)
        ensures
            s.state == JobPhase::Running,
            s.job_id == Some(job_id),
            s.progress matches Some(p) && p.completed == 0 && p.total == total && p.current_id@
                == Seq::<char>::empty() && p.phase@ == Seq::<char>::empty(),
            s.scan_progress is None,
            s.result is None,
    {
        JobState {
            state: JobPhase::Running,
            job_id: Some(job_id),
            progress: Some(
                JobProgress { completed: 0, total, current_id: String::new(), phase: String::new() },
            ),
            scan_progress: None,
            result: None,
        }
    }

    /// A scan job has started; only the requested categories get a pending slot.
    pub fn running_scan(
        job_id: String,
        scan_characters: bool,
        scan_weapons: bool,
        scan_artifacts: bool,
    ) -> (s: Self)
        ensures
            s.state == JobPhase::Running,
            s.job_id == Some(job_id),
            s.progress is None,
            s.result is None,
            s.scan_progress == Some(
                ScanProgress {
                    characters: if scan_characters {
                        Some(PhaseProgress { completed: 0, total: 0, state: PhaseState::Pending })
                    } else {
                        None
                    },
                    weapons: if scan_weapons {
                        Some(PhaseProgress { completed: 0, total: 0, state: PhaseState::Pending })
                    } else {
                        None
                    },
                    artifacts: if scan_artifacts {
                        Some(PhaseProgress { completed: 0, total: 0, state: PhaseState::Pending })
                    } else {
                        None
                    },
                },
            ),
    {
        let sp = ScanProgress {
            characters: if scan_characters {
                Some(PhaseProgress::pending())
            } else {
                None
            },
            weapons: if scan_weapons {
                Some(PhaseProgress::pending())
            } else {
                None
            },
            artifacts: if scan_artifacts {
                Some(PhaseProgress::pending())
            } else {
                None
            },
        };
        JobState {
            state: JobPhase::Running,
            job_id: Some(job_id),
            progress: None,
            scan_progress: Some(sp),
            result: None,
        }
    }

    /// The job `job_id` has finished with `result`.
    pub fn completed(job_id: String, result: ManageResult) -> (s: Self)
        ensures
            s.state == JobPhase::Completed,
            s.job_id == Some(job_id),
            s.progress is None,
            s.scan_progress is None,
            s.result == Some(result),
    {
        JobState {
            state: JobPhase::Completed,
            job_id: Some(job_id),
            progress: None,
            scan_progress: None,
            result: Some(result),
        }
    }
}

} // verus!
