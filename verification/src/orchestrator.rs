//! What the artifact manager decides around the in-game work of a job: the
//! targets it hands to the lock and equip passes, how it completes their
//! results, and the inventory snapshot it derives from a full scan.
use vstd::prelude::*;
use std::collections::HashMap;
use crate::models::{
    ArtifactView, EquipRequest, GoodArtifact, InstructionResult, InstructionStatus,
    LockManageRequest, ManageResult, ManageSummary, summary_of,
};
use crate::text::{decimal, push_decimal, push_str};

verus! {

broadcast use vstd::std_specs::hash::group_hash_axioms;

/// One lock or unlock target: the artifact to find and the lock state it
/// should end in.
pub struct LockTarget {
    /// The id its result is reported under (`lock:<i>` or `unlock:<i>`).
    pub result_id: String,
    pub artifact: GoodArtifact,
    /// `true` to lock, `false` to unlock.
    pub desired_lock: bool,
}

/// One equip target: the artifact and the character that should wear it
/// (empty to unequip).
pub struct EquipTarget {
    /// The id its result is reported under (`equip:<i>`).
    pub result_id: String,
    pub artifact: GoodArtifact,
    pub target_location: String,
}

/// `<list>:<i>`, the result id of entry `i` of a list.
pub open spec fn entry_id(list: Seq<char>, i: int) -> Seq<char> {
    list + ":"@ + decimal(i as nat)
}

fn entry_id_exec(list: &str, i: usize) -> (s: String)
    ensures
        s@ == entry_id(list@, i as int),
{
    let mut s = String::new();
    push_str(&mut s, list);
    push_str(&mut s, ":");
    push_decimal(&mut s, i as u64);
    assert(s@ =~= entry_id(list@, i as int));
    s
}

/// `t` is the target for entry `i` of the list `list`, asking for `lock`.
pub open spec fn is_lock_target(t: LockTarget, list: Seq<char>, i: int, a: GoodArtifact, lock: bool) -> bool {
    t.result_id@ == entry_id(list, i) && t.artifact@ == a@ && t.desired_lock == lock
}

/// The lock targets of a request: the lock list (`lock:<i>`, to lock), then
/// the unlock list (`unlock:<i>`, to unlock), each in order.
pub fn build_lock_targets(request: &LockManageRequest) -> (r: Vec<LockTarget>)
    ensures
        r@.len() == request.lock@.len() + request.unlock@.len(),
        forall|i: int|
            0 <= i < request.lock@.len() ==> is_lock_target(
                #[trigger] r@[i],
                "lock"@,
                i,
                request.lock@[i],
                true,
            ),
        forall|i: int|
            0 <= i < request.unlock@.len() ==> is_lock_target(
                #[trigger] r@[request.lock@.len() + i],
                "unlock"@,
                i,
                request.unlock@[i],
                false,
            ),
{
    let mut r: Vec<LockTarget> = Vec::new();
    let mut i: usize = 0;
    while i < request.lock.len()
        invariant
            i <= request.lock@.len(),
            r@.len() == i,
            forall|j: int|
                0 <= j < i ==> is_lock_target(#[trigger] r@[j], "lock"@, j, request.lock@[j], true),
        decreases request.lock.len() - i,
    {
        r.push(
            LockTarget {
                result_id: entry_id_exec("lock", i),
                artifact: request.lock[i].duplicate(),
                desired_lock: true,
            },
        );
        i += 1;
    }
    let n = request.lock.len();
    let mut k: usize = 0;
    while k < request.unlock.len()
        invariant
            n == request.lock@.len(),
            k <= request.unlock@.len(),
            r@.len() == n + k,
            forall|j: int|
                0 <= j < n ==> is_lock_target(#[trigger] r@[j], "lock"@, j, request.lock@[j], true),
            forall|j: int|
                0 <= j < k ==> is_lock_target(
                    #[trigger] r@[n + j],
                    "unlock"@,
                    j,
                    request.unlock@[j],
                    false,
                ),
        decreases request.unlock.len() - k,
    {
        r.push(
            LockTarget {
                result_id: entry_id_exec("unlock", k),
                artifact: request.unlock[k].duplicate(),
                desired_lock: false,
            },
        );
        k += 1;
    }
    r
}

/// The equip targets of a request, `equip:<i>` in order.
pub fn build_equip_targets(request: &EquipRequest) -> (r: Vec<EquipTarget>)
    ensures
        r@.len() == request.equip@.len(),
        forall|i: int|
            0 <= i < r@.len() ==> (#[trigger] r@[i]).result_id@ == entry_id("equip"@, i)
                && r@[i].artifact@ == request.equip@[i].artifact@ && r@[i].target_location@
                == request.equip@[i].location@,
{
    let mut r: Vec<EquipTarget> = Vec::new();
    let mut i: usize = 0;
    while i < request.equip.len()
        invariant
            i <= request.equip@.len(),
            r@.len() == i,
            forall|j: int|
                0 <= j < i ==> (#[trigger] r@[j]).result_id@ == entry_id("equip"@, j)
                    && r@[j].artifact@ == request.equip@[j].artifact@ && r@[j].target_location@
                    == request.equip@[j].location@,
        decreases request.equip.len() - i,
    {
        r.push(
            EquipTarget {
                result_id: entry_id_exec("equip", i),
                artifact: request.equip[i].artifact.duplicate(),
                target_location: request.equip[i].location.clone(),
            },
        );
        i += 1;
    }
    r
}

/// The highest level among the first `n` target artifacts (0 when there is
/// none).
pub open spec fn max_level_upto(targets: Seq<LockTarget>, n: int) -> int
    decreases n,
{
    if n <= 0 {
        0
    } else if n == 1 {
        targets[0].artifact.level as int
    } else {
        let m = max_level_upto(targets, n - 1);
        if targets[n - 1].artifact.level > m {
            targets[n - 1].artifact.level as int
        } else {
            m
        }
    }
}

/// The level above which the inventory scan may skip pages: the highest
/// target level when the scan stops once every target is matched, else
/// -1 (disabled).
pub fn max_target_level(targets: &Vec<LockTarget>, stop_on_all_matched: bool) -> (r: i32)
    ensures
        r == if stop_on_all_matched {
            max_level_upto(targets@, targets@.len() as int)
        } else {
            -1
        },
{
    if !stop_on_all_matched {
        return -1;
    }
    if targets.len() == 0 {
        return 0;
    }
    let mut m: i32 = targets[0].artifact.level;
    let mut i: usize = 1;
    while i < targets.len()
        invariant
            1 <= i <= targets@.len(),
            m == max_level_upto(targets@, i as int),
        decreases targets.len() - i,
    {
        if targets[i].artifact.level > m {
            m = targets[i].artifact.level;
        }
        i += 1;
    }
    m
}

/// The page-skip level is the highest requested level: with early stopping
/// it is at least the level of every target and is the level of one of
/// them (0 when there are none); without, it is -1.
pub proof fn max_target_level_is_highest(targets: Seq<LockTarget>, n: int)
    requires
        0 <= n <= targets.len(),
    ensures
        forall|i: int| 0 <= i < n ==> #[trigger] targets[i].artifact.level <= max_level_upto(targets, n),
        n == 0 ==> max_level_upto(targets, n) == 0,
        n > 0 ==> exists|i: int|
            0 <= i < n && #[trigger] targets[i].artifact.level == max_level_upto(targets, n),
    decreases n,
{
    if n > 1 {
        max_target_level_is_highest(targets, n - 1);
        let m = max_level_upto(targets, n - 1);
        if targets[n - 1].artifact.level > m {
            assert(targets[n - 1].artifact.level == max_level_upto(targets, n));
        } else {
            let w = choose|i: int| 0 <= i < n - 1 && #[trigger] targets[i].artifact.level == m;
            assert(targets[w].artifact.level == max_level_upto(targets, n));
        }
    } else if n == 1 {
        assert(targets[0].artifact.level == max_level_upto(targets, n));
    }
}

// ---------------------------------------------------------------------------
// Results
// ---------------------------------------------------------------------------

/// Does some result of `rs` have the id `id`?
pub open spec fn has_result(rs: Seq<InstructionResult>, id: Seq<char>) -> bool {
    exists|i: int| 0 <= i < rs.len() && (#[trigger] rs[i]).id@ == id
}

/// The results of the targets the lock pass did not report, in target
/// order, among the first `n` targets: aborted if the job was cancelled,
/// else skipped.
pub open spec fn missing_results(
    reported: Seq<InstructionResult>,
    targets: Seq<LockTarget>,
    cancelled: bool,
    n: int,
) -> Seq<(Seq<char>, InstructionStatus)>
    decreases n,
{
    if n <= 0 {
        Seq::empty()
    } else {
        let rest = missing_results(reported, targets, cancelled, n - 1);
        if has_result(reported, targets[n - 1].result_id@) {
            rest
        } else {
            rest.push(
                (
                    targets[n - 1].result_id@,
                    if cancelled {
                        InstructionStatus::Aborted
                    } else {
                        InstructionStatus::Skipped
                    },
                ),
            )
        }
    }
}

/// The id and status of a result.
pub open spec fn id_status(r: InstructionResult) -> (Seq<char>, InstructionStatus) {
    (r.id@, r.status)
}

fn has_result_exec(rs: &Vec<InstructionResult>, id: &String) -> (b: bool)
    ensures
        b == has_result(rs@, id@),
{
    let mut i: usize = 0;
    while i < rs.len()
        invariant
            i <= rs@.len(),
            forall|j: int| 0 <= j < i ==> (#[trigger] rs@[j]).id@ != id@,
        decreases rs.len() - i,
    {
        if rs[i].id == *id {
            assert(rs@[i as int].id@ == id@);
            return true;
        }
        i += 1;
    }
    false
}

/// All results of a lock job: those the lock pass reported, then one for
/// each target it did not report, aborted if the job was cancelled and
/// skipped otherwise.
pub fn complete_results(
    reported: &Vec<InstructionResult>,
    targets: &Vec<LockTarget>,
    cancelled: bool,
) -> (r: Vec<InstructionResult>)
    ensures
        r@.map_values(|x: InstructionResult| id_status(x)) == reported@.map_values(
            |x: InstructionResult| id_status(x),
        ) + missing_results(reported@, targets@, cancelled, targets@.len() as int),
{
    let mut r: Vec<InstructionResult> = Vec::new();
    let mut i: usize = 0;
    while i < reported.len()
        invariant
            i <= reported@.len(),
            r@.len() == i,
            forall|j: int| 0 <= j < i ==> id_status(#[trigger] r@[j]) == id_status(reported@[j]),
        decreases reported.len() - i,
    {
        r.push(InstructionResult { id: reported[i].id.clone(), status: reported[i].status });
        i += 1;
    }
    assert(r@.map_values(|x: InstructionResult| id_status(x)) =~= reported@.map_values(
        |x: InstructionResult| id_status(x),
    ));
    let ghost base = reported@.map_values(|x: InstructionResult| id_status(x));
    let mut k: usize = 0;
    while k < targets.len()
        invariant
            k <= targets@.len(),
            base == reported@.map_values(|x: InstructionResult| id_status(x)),
            r@.map_values(|x: InstructionResult| id_status(x)) == base + missing_results(
                reported@,
                targets@,
                cancelled,
                k as int,
            ),
        decreases targets.len() - k,
    {
        let ghost before = r@.map_values(|x: InstructionResult| id_status(x));
        if !has_result_exec(reported, &targets[k].result_id) {
            let status = if cancelled {
                InstructionStatus::Aborted
            } else {
                InstructionStatus::Skipped
            };
            r.push(InstructionResult { id: targets[k].result_id.clone(), status });
            assert(r@.map_values(|x: InstructionResult| id_status(x)) =~= before.push(
                (targets@[k as int].result_id@, status),
            ));
        }
        k += 1;
    }
    r
}

// ---------------------------------------------------------------------------
// The inventory snapshot
// ---------------------------------------------------------------------------

/// Number of the first `n` scanned artifacts the roll solver failed on: an
/// upgraded artifact (level above 0) without a roll count.
pub open spec fn solver_failures_upto(scanned: Seq<(usize, GoodArtifact)>, n: int) -> nat
    decreases n,
{
    if n <= 0 {
        0
    } else {
        solver_failures_upto(scanned, n - 1) + if scanned[n - 1].1.level > 0
            && scanned[n - 1].1.total_rolls is None {
            1nat
        } else {
            0nat
        }
    }
}

/// Number of scanned artifacts the roll solver failed on.
pub fn count_solver_failures(scanned: &Vec<(usize, GoodArtifact)>) -> (r: usize)
    ensures
        r == solver_failures_upto(scanned@, scanned@.len() as int),
{
    let mut c: usize = 0;
    let mut i: usize = 0;
    while i < scanned.len()
        invariant
            i <= scanned@.len(),
            c == solver_failures_upto(scanned@, i as int),
            c <= i,
        decreases scanned.len() - i,
    {
        if scanned[i].1.level > 0 && scanned[i].1.total_rolls.is_none() {
            c += 1;
        }
        i += 1;
    }
    c
}

/// Whether the inventory read during a lock job may stand as the snapshot:
/// the scan went through the whole inventory, found something, and lost no
/// artifact to OCR nor to the roll solver.
pub open spec fn snapshot_usable(
    scan_complete: bool,
    scanned_len: nat,
    ocr_failures: nat,
    solver_failures: nat,
) -> bool {
    scan_complete && scanned_len > 0 && ocr_failures == 0 && solver_failures == 0
}

/// Did target `t` succeed, by the results?
pub open spec fn target_succeeded(results: Seq<InstructionResult>, t: LockTarget) -> bool {
    exists|i: int|
        0 <= i < results.len() && (#[trigger] results[i]).id@ == t.result_id@ && results[i].status
            == InstructionStatus::Success
}

/// The lock state that the last of the first `n` targets, among those that
/// succeeded and were matched to the scanned artifact `idx`, put it in.
pub open spec fn toggled_upto(
    targets: Seq<LockTarget>,
    matched: Map<usize, usize>,
    results: Seq<InstructionResult>,
    idx: usize,
    n: int,
) -> Option<bool>
    decreases n,
{
    if n <= 0 {
        None
    } else if target_succeeded(results, targets[n - 1]) && matched.contains_key((n - 1) as usize)
        && matched[(n - 1) as usize] == idx {
        Some(targets[n - 1].desired_lock)
    } else {
        toggled_upto(targets, matched, results, idx, n - 1)
    }
}

/// An artifact after a successful toggle to `lock`: its lock state set, and
/// its astral mark gone if it was unlocked (the game drops it).
pub open spec fn toggled_view(a: ArtifactView, lock: bool) -> ArtifactView {
    ArtifactView { lock, astral_mark: if lock {
        a.astral_mark
    } else {
        false
    }, ..a }
}

/// The snapshot entry of the scanned artifact `a` at inventory index `idx`.
pub open spec fn snapshot_entry(
    a: GoodArtifact,
    idx: usize,
    targets: Seq<LockTarget>,
    matched: Map<usize, usize>,
    results: Seq<InstructionResult>,
) -> ArtifactView {
    match toggled_upto(targets, matched, results, idx, targets.len() as int) {
        Some(lock) => toggled_view(a@, lock),
        None => a@,
    }
}

proof fn lemma_toggled_only(
    targets: Seq<LockTarget>,
    matched: Map<usize, usize>,
    results: Seq<InstructionResult>,
    idx: usize,
    k: int,
    n: int,
)
    requires
        0 <= k < targets.len(),
        n <= targets.len(),
        target_succeeded(results, targets[k]),
        matched.contains_key(k as usize),
        matched[k as usize] == idx,
        forall|j: int|
            0 <= j < targets.len() && j != k && target_succeeded(results, #[trigger] targets[j])
                && matched.contains_key(j as usize) ==> matched[j as usize] != idx,
    ensures
        n > k ==> toggled_upto(targets, matched, results, idx, n) == Some(targets[k].desired_lock),
        n <= k ==> toggled_upto(targets, matched, results, idx, n) is None,
    decreases n,
{
    if n > 0 {
        lemma_toggled_only(targets, matched, results, idx, k, n - 1);
        if n - 1 != k {
            let j = n - 1;
            if target_succeeded(results, targets[j]) && matched.contains_key(j as usize) {
                assert(matched[j as usize] != idx);
            }
        }
    }
}

proof fn lemma_toggled_none(
    targets: Seq<LockTarget>,
    matched: Map<usize, usize>,
    results: Seq<InstructionResult>,
    idx: usize,
    n: int,
)
    requires
        n <= targets.len(),
        forall|j: int|
            0 <= j < targets.len() && target_succeeded(results, #[trigger] targets[j])
                && matched.contains_key(j as usize) ==> matched[j as usize] != idx,
    ensures
        toggled_upto(targets, matched, results, idx, n) is None,
    decreases n,
{
    if n > 0 {
        lemma_toggled_none(targets, matched, results, idx, n - 1);
        let j = n - 1;
        if target_succeeded(results, targets[j]) && matched.contains_key(j as usize) {
            assert(matched[j as usize] != idx);
        }
    }
}

/// In the snapshot, a scanned artifact that exactly one successful target
/// was matched to is locked or unlocked as that target asked (an unlocked
/// one loses its astral mark, everything else stays); one that no
/// successful target was matched to is as it was scanned.
pub proof fn snapshot_follows_successful_targets(
    a: GoodArtifact,
    idx: usize,
    targets: Seq<LockTarget>,
    matched: Map<usize, usize>,
    results: Seq<InstructionResult>,
    k: int,
)
    requires
        0 <= k < targets.len(),
    ensures
        (target_succeeded(results, targets[k]) && matched.contains_key(k as usize)
            && matched[k as usize] == idx && forall|j: int|
            0 <= j < targets.len() && j != k && target_succeeded(results, #[trigger] targets[j])
                && matched.contains_key(j as usize) ==> matched[j as usize] != idx) ==> {
            let e = snapshot_entry(a, idx, targets, matched, results);
            &&& e.lock == targets[k].desired_lock
            &&& e.astral_mark == (targets[k].desired_lock && a.astral_mark)
            &&& e.set_key == a.set_key@ && e.slot_key == a.slot_key@ && e.level == a.level
            &&& e.rarity == a.rarity && e.main_stat_key == a.main_stat_key@
            &&& e.substats == a.substats@ && e.location == a.location@
        },
        (forall|j: int|
            0 <= j < targets.len() && target_succeeded(results, #[trigger] targets[j])
                && matched.contains_key(j as usize) ==> matched[j as usize] != idx) ==> snapshot_entry(
            a,
            idx,
            targets,
            matched,
            results,
        ) == a@,
{
    if target_succeeded(results, targets[k]) && matched.contains_key(k as usize) && matched[k
        as usize] == idx && forall|j: int|
        0 <= j < targets.len() && j != k && target_succeeded(results, #[trigger] targets[j])
            && matched.contains_key(j as usize) ==> matched[j as usize] != idx {
        lemma_toggled_only(targets, matched, results, idx, k, targets.len() as int);
    }
    if forall|j: int|
        0 <= j < targets.len() && target_succeeded(results, #[trigger] targets[j])
            && matched.contains_key(j as usize) ==> matched[j as usize] != idx {
        lemma_toggled_none(targets, matched, results, idx, targets.len() as int);
    }
}

fn succeeded_exec(results: &Vec<InstructionResult>, t: &LockTarget) -> (b: bool)
    ensures
        b == target_succeeded(results@, *t),
{
    let mut i: usize = 0;
    while i < results.len()
        invariant
            i <= results@.len(),
            forall|j: int|
                0 <= j < i ==> !((#[trigger] results@[j]).id@ == t.result_id@ && results@[j].status
                    == InstructionStatus::Success),
        decreases results.len() - i,
    {
        if results[i].id == t.result_id && results[i].status == InstructionStatus::Success {
            assert(results@[i as int].id@ == t.result_id@);
            return true;
        }
        i += 1;
    }
    false
}

fn toggled_exec(
    targets: &Vec<LockTarget>,
    matched: &HashMap<usize, usize>,
    results: &Vec<InstructionResult>,
    idx: usize,
) -> (r: Option<bool>)
    ensures
        r == toggled_upto(targets@, matched@, results@, idx, targets@.len() as int),
{
    let mut n: usize = targets.len();
    while n > 0
        invariant
            n <= targets@.len(),
            toggled_upto(targets@, matched@, results@, idx, targets@.len() as int) == toggled_upto(
                targets@,
                matched@,
                results@,
                idx,
                n as int,
            ),
        decreases n,
    {
        let t = &targets[n - 1];
        if succeeded_exec(results, t) {
            match matched.get(&(n - 1)) {
                Some(s) => {
                    if *s == idx {
                        return Some(t.desired_lock);
                    }
                },
                None => {},
            }
        }
        n -= 1;
    }
    None
}

/// The inventory snapshot after a lock job: each scanned artifact, with the
/// lock state of those that a successful target was matched to set as that
/// target asked (the last such target wins), and their astral mark dropped
/// when unlocked.
pub fn build_artifact_snapshot(
    scanned: &Vec<(usize, GoodArtifact)>,
    targets: &Vec<LockTarget>,
    matched: &HashMap<usize, usize>,
    results: &Vec<InstructionResult>,
) -> (r: Vec<GoodArtifact>)
    ensures
        r@.len() == scanned@.len(),
        forall|i: int|
            0 <= i < r@.len() ==> (#[trigger] r@[i])@ == snapshot_entry(
                scanned@[i].1,
                scanned@[i].0,
                targets@,
                matched@,
                results@,
            ),
{
    let mut r: Vec<GoodArtifact> = Vec::new();
    let mut i: usize = 0;
    while i < scanned.len()
        invariant
            i <= scanned@.len(),
            r@.len() == i,
            forall|j: int|
                0 <= j < i ==> (#[trigger] r@[j])@ == snapshot_entry(
                    scanned@[j].1,
                    scanned@[j].0,
                    targets@,
                    matched@,
                    results@,
                ),
        decreases scanned.len() - i,
    {
        let (idx, a) = (scanned[i].0, &scanned[i].1);
        let mut copy = a.duplicate();
        match toggled_exec(targets, matched, results, idx) {
            Some(lock) => {
                copy.lock = lock;
                if !lock {
                    copy.astral_mark = false;
                }
            },
            None => {},
        }
        r.push(copy);
        i += 1;
    }
    r
}

/// The outcome of a lock job once the lock pass is over: the complete
/// results and their summary, and the inventory snapshot when the scan may
/// stand as one.
pub fn lock_job_outcome(
    targets: &Vec<LockTarget>,
    reported: &Vec<InstructionResult>,
    scanned: &Vec<(usize, GoodArtifact)>,
    matched: &HashMap<usize, usize>,
    scan_complete: bool,
    ocr_failures: usize,
    cancelled: bool,
) -> (r: (ManageResult, Option<Vec<GoodArtifact>>))
    ensures
        r.0.results@.map_values(|x: InstructionResult| id_status(x)) == reported@.map_values(
            |x: InstructionResult| id_status(x),
        ) + missing_results(reported@, targets@, cancelled, targets@.len() as int),
        r.0.summary == summary_of(r.0.results@),
        match r.1 {
            Some(snap) => {
                &&& snapshot_usable(
                    scan_complete,
                    scanned@.len(),
                    ocr_failures as nat,
                    solver_failures_upto(scanned@, scanned@.len() as int),
                )
                &&& snap@.len() == scanned@.len()
                &&& forall|i: int|
                    0 <= i < snap@.len() ==> (#[trigger] snap@[i])@ == snapshot_entry(
                        scanned@[i].1,
                        scanned@[i].0,
                        targets@,
                        matched@,
                        r.0.results@,
                    )
            },
            None => !snapshot_usable(
                scan_complete,
                scanned@.len(),
                ocr_failures as nat,
                solver_failures_upto(scanned@, scanned@.len() as int),
            ),
        },
{
    let results = complete_results(reported, targets, cancelled);
    let summary = ManageSummary::from_results(&results);
    let solver_failures = count_solver_failures(scanned);
    let snapshot = if scan_complete && scanned.len() > 0 && ocr_failures == 0 && solver_failures
        == 0 {
        Some(build_artifact_snapshot(scanned, targets, matched, &results))
    } else {
        None
    };
    (ManageResult { results, summary }, snapshot)
}


proof fn lemma_missing_covers(
    reported: Seq<InstructionResult>,
    targets: Seq<LockTarget>,
    cancelled: bool,
    n: int,
    k: int,
)
    requires
        0 <= k < n <= targets.len(),
        !has_result(reported, targets[k].result_id@),
    ensures
        exists|j: int|
            0 <= j < missing_results(reported, targets, cancelled, n).len() && (#[trigger] missing_results(
                reported,
                targets,
                cancelled,
                n,
            )[j]).0 == targets[k].result_id@,
    decreases n,
{
    let rest = missing_results(reported, targets, cancelled, n - 1);
    if k < n - 1 {
        lemma_missing_covers(reported, targets, cancelled, n - 1, k);
        let j = choose|j: int|
            0 <= j < rest.len() && (#[trigger] missing_results(reported, targets, cancelled, n - 1)[j]).0
                == targets[k].result_id@;
        let full = missing_results(reported, targets, cancelled, n);
        assert(full[j] == rest[j]);
    } else {
        let full = missing_results(reported, targets, cancelled, n);
        assert(full[rest.len() as int].0 == targets[k].result_id@);
    }
}

/// Every target of a lock job ends up with a result: either the lock pass
/// reported one, or one is added for it.
pub proof fn every_target_gets_a_result(
    reported: Seq<InstructionResult>,
    targets: Seq<LockTarget>,
    cancelled: bool,
    k: int,
)
    requires
        0 <= k < targets.len(),
    ensures
        ({
            let all = reported.map_values(|x: InstructionResult| id_status(x)) + missing_results(
                reported,
                targets,
                cancelled,
                targets.len() as int,
            );
            exists|j: int| 0 <= j < all.len() && (#[trigger] all[j]).0 == targets[k].result_id@
        }),
{
    let all = reported.map_values(|x: InstructionResult| id_status(x)) + missing_results(
        reported,
        targets,
        cancelled,
        targets.len() as int,
    );
    if has_result(reported, targets[k].result_id@) {
        let j = choose|j: int| 0 <= j < reported.len() && (#[trigger] reported[j]).id@ == targets[k].result_id@;
        assert(all[j].0 == targets[k].result_id@);
    } else {
        lemma_missing_covers(reported, targets, cancelled, targets.len() as int, k);
        let m = missing_results(reported, targets, cancelled, targets.len() as int);
        let j = choose|j: int| 0 <= j < m.len() && (#[trigger] missing_results(reported, targets, cancelled, targets.len() as int)[j]).0 == targets[k].result_id@;
        assert(all[reported.len() + j] == m[j]);
    }
}

} // verus!
