//! Matching a scanned artifact against the artifacts named in a manage
//! request.
//!
//! The fields the scanner reads reliably (set, slot, rarity, level, main
//! stat) must agree exactly; the substats then rank the candidates that
//! remain. Substat values are compared in tenths.
use vstd::prelude::*;
use crate::models::{GoodArtifact, GoodSubStat};

verus! {

// ---------------------------------------------------------------------------
// Keys of a substat list
// ---------------------------------------------------------------------------

/// Does some substat of `s` have the key `k`?
pub open spec fn has_key(s: Seq<GoodSubStat>, k: Seq<char>) -> bool {
    exists|i: int| 0 <= i < s.len() && (#[trigger] s[i]).key@ == k
}

/// The set of keys of `s` (each key once, order ignored).
pub open spec fn key_set(s: Seq<GoodSubStat>) -> Set<Seq<char>> {
    Set::new(|k: Seq<char>| has_key(s, k))
}

/// The first position at or after `start` whose key is `k`, or `s.len()`.
pub open spec fn key_index_from(s: Seq<GoodSubStat>, k: Seq<char>, start: int) -> int
    decreases s.len() - start,
{
    if start < 0 || start >= s.len() {
        s.len() as int
    } else if s[start].key@ == k {
        start
    } else {
        key_index_from(s, k, start + 1)
    }
}

proof fn lemma_key_index(s: Seq<GoodSubStat>, k: Seq<char>, start: int)
    requires
        0 <= start <= s.len(),
    ensures
        start <= key_index_from(s, k, start) <= s.len(),
        key_index_from(s, k, start) < s.len() ==> s[key_index_from(s, k, start)].key@ == k,
        forall|j: int| start <= j < key_index_from(s, k, start) ==> s[j].key@ != k,
    decreases s.len() - start,
{
    if start < s.len() && s[start].key@ != k {
        lemma_key_index(s, k, start + 1);
    }
}

proof fn lemma_has_key_index(s: Seq<GoodSubStat>, k: Seq<char>)
    ensures
        has_key(s, k) == (key_index_from(s, k, 0) < s.len()),
{
    lemma_key_index(s, k, 0);
    if key_index_from(s, k, 0) < s.len() {
        assert(s[key_index_from(s, k, 0)].key@ == k);
    }
}

/// The position of the first substat of `s` with key `k`, or `s.len()`.
fn find_key(s: &Vec<GoodSubStat>, k: &String) -> (r: usize)
    ensures
        r == key_index_from(s@, k@, 0),
        r <= s.len(),
        has_key(s@, k@) == (r < s.len()),
{
    let mut i: usize = 0;
    while i < s.len() && !(s[i].key == *k)
        invariant
            i <= s.len(),
            key_index_from(s@, k@, 0) == key_index_from(s@, k@, i as int),
        decreases s.len() - i,
    {
        i += 1;
    }
    proof {
        lemma_key_index(s@, k@, 0);
        lemma_has_key_index(s@, k@);
    }
    i
}

/// Is every key of `a` also a key of `b`?
fn keys_within(a: &Vec<GoodSubStat>, b: &Vec<GoodSubStat>) -> (r: bool)
    ensures
        r == (forall|k: Seq<char>| has_key(a@, k) ==> has_key(b@, k)),
{
    let mut i: usize = 0;
    while i < a.len()
        invariant
            i <= a.len(),
            forall|j: int| 0 <= j < i ==> has_key(b@, (#[trigger] a@[j]).key@),
        decreases a.len() - i,
    {
        if find_key(b, &a[i].key) >= b.len() {
            assert(has_key(a@, a@[i as int].key@));
            return false;
        }
        i += 1;
    }
    assert forall|k: Seq<char>| has_key(a@, k) implies has_key(b@, k) by {
        let j = choose|j: int| 0 <= j < a@.len() && (#[trigger] a@[j]).key@ == k;
        assert(has_key(b@, a@[j].key@));
    }
    true
}

/// Do `a` and `b` have the same set of keys?
fn same_keys(a: &Vec<GoodSubStat>, b: &Vec<GoodSubStat>) -> (r: bool)
    ensures
        r == (key_set(a@) == key_set(b@)),
{
    let ab = keys_within(a, b);
    let ba = keys_within(b, a);
    if ab && ba {
        assert(key_set(a@) =~= key_set(b@));
        true
    } else {
        proof {
            if key_set(a@) == key_set(b@) {
                assert forall|k: Seq<char>| has_key(a@, k) implies has_key(b@, k) by {
                    assert(key_set(a@).contains(k));
                }
                assert forall|k: Seq<char>| has_key(b@, k) implies has_key(a@, k) by {
                    assert(key_set(b@).contains(k));
                }
            }
        }
        false
    }
}

// ---------------------------------------------------------------------------
// Scores
// ---------------------------------------------------------------------------

/// A percentage stat (`critRate_`, `atk_`, ...): its key ends with `_`.
pub open spec fn is_percent_key(k: Seq<char>) -> bool {
    k.len() > 0 && k.last() == '_'
}

/// How far two readings of a substat may lie apart and still agree, in
/// tenths: 0.2 for percentages, 1.5 for flat stats.
pub open spec fn tolerance(k: Seq<char>) -> int {
    if is_percent_key(k) {
        2
    } else {
        15
    }
}

/// The absolute value of `x`.
pub open spec fn abs(x: int) -> int {
    if x < 0 {
        -x
    } else {
        x
    }
}

/// Does the substat `t` agree in value with the first substat of `s` that
/// has its key?
pub open spec fn value_agrees(s: Seq<GoodSubStat>, t: GoodSubStat) -> bool {
    let j = key_index_from(s, t.key@, 0);
    j < s.len() && abs(s[j].value_tenths - t.value_tenths) <= tolerance(t.key@)
}

/// Number of the first `n` substats of `t` that agree in value with `s`.
pub open spec fn agreeing(s: Seq<GoodSubStat>, t: Seq<GoodSubStat>, n: int) -> nat
    decreases n,
{
    if n <= 0 {
        0
    } else {
        agreeing(s, t, n - 1) + if value_agrees(s, t[n - 1]) {
            1nat
        } else {
            0nat
        }
    }
}

/// Number of distinct keys among the first `n` substats of `t` that `s`
/// has too (a key is counted at its first occurrence in `t`).
pub open spec fn shared_keys(s: Seq<GoodSubStat>, t: Seq<GoodSubStat>, n: int) -> nat
    decreases n,
{
    if n <= 0 {
        0
    } else {
        shared_keys(s, t, n - 1) + if key_index_from(t, t[n - 1].key@, 0) == n - 1 && has_key(
            s,
            t[n - 1].key@,
        ) {
            1nat
        } else {
            0nat
        }
    }
}

/// The substat score of a scanned list `s` against a target list `t`: 0 when
/// both are empty; with the same key sets, 20 plus 5 for each target substat
/// whose value agrees; otherwise 3 for each key they share.
pub open spec fn substat_score(s: Seq<GoodSubStat>, t: Seq<GoodSubStat>) -> int {
    if s.len() == 0 && t.len() == 0 {
        0
    } else if key_set(s) == key_set(t) {
        20 + 5 * (agreeing(s, t, t.len() as int) as int)
    } else {
        3 * (shared_keys(s, t, t.len() as int) as int)
    }
}

proof fn lemma_agreeing_le(s: Seq<GoodSubStat>, t: Seq<GoodSubStat>, n: int)
    ensures
        agreeing(s, t, n) <= if n < 0 {
            0
        } else {
            n
        },
    decreases n,
{
    if n > 0 {
        lemma_agreeing_le(s, t, n - 1);
    }
}

proof fn lemma_shared_le(s: Seq<GoodSubStat>, t: Seq<GoodSubStat>, n: int)
    ensures
        shared_keys(s, t, n) <= if n < 0 {
            0
        } else {
            n
        },
    decreases n,
{
    if n > 0 {
        lemma_shared_le(s, t, n - 1);
    }
}

/// The substat score of `s` against `t`.
pub fn score_substats(s: &Vec<GoodSubStat>, t: &Vec<GoodSubStat>) -> (r: u128)
    ensures
        r == substat_score(s@, t@),
{
    if s.len() == 0 && t.len() == 0 {
        return 0;
    }
    if same_keys(s, t) {
        let mut count: usize = 0;
        let mut i: usize = 0;
        while i < t.len()
            invariant
                i <= t.len(),
                count == agreeing(s@, t@, i as int),
            decreases t.len() - i,
        {
            proof {
                lemma_agreeing_le(s@, t@, i as int);
            }
            let j = find_key(s, &t[i].key);
            if j < s.len() {
                let d: i128 = (s[j].value_tenths as i128) - (t[i].value_tenths as i128);
                let ad: i128 = if d < 0 {
                    -d
                } else {
                    d
                };
                let tol: i128 = if is_percent(&t[i].key) {
                    2
                } else {
                    15
                };
                if ad <= tol {
                    count += 1;
                }
            }
            i += 1;
        }
        20 + 5 * (count as u128)
    } else {
        let mut count: usize = 0;
        let mut i: usize = 0;
        while i < t.len()
            invariant
                i <= t.len(),
                count == shared_keys(s@, t@, i as int),
            decreases t.len() - i,
        {
            proof {
                lemma_shared_le(s@, t@, i as int);
            }
            let first = find_key(t, &t[i].key);
            if first == i && find_key(s, &t[i].key) < s.len() {
                count += 1;
            }
            i += 1;
        }
        3 * (count as u128)
    }
}

/// Does the key end with `_`?
fn is_percent(k: &String) -> (b: bool)
    ensures
        b == is_percent_key(k@),
{
    let cs = crate::text::to_chars(k.as_str());
    cs.len() > 0 && cs[cs.len() - 1] == '_'
}

/// The score of a scanned artifact against a target: none when set, slot,
/// rarity, level or main stat differ; else 50 plus the substat scores of the
/// active and of the unactivated substats. Higher is better.
pub open spec fn match_score_spec(scanned: GoodArtifact, target: GoodArtifact) -> Option<int> {
    if scanned.rarity != target.rarity || scanned.slot_key@ != target.slot_key@
        || scanned.set_key@ != target.set_key@ || scanned.level != target.level
        || scanned.main_stat_key@ != target.main_stat_key@ {
        None
    } else {
        Some(
            50 + substat_score(scanned.substats@, target.substats@) + substat_score(
                scanned.unactivated_substats@,
                target.unactivated_substats@,
            ),
        )
    }
}

/// Match a scanned artifact against a target.
pub fn match_score(scanned: &GoodArtifact, target: &GoodArtifact) -> (r: Option<u128>)
    ensures
        match r {
            Some(x) => match_score_spec(*scanned, *target) == Some(x as int),
            None => match_score_spec(*scanned, *target) is None,
        },
{
    if scanned.rarity != target.rarity {
        return None;
    }
    if !(scanned.slot_key == target.slot_key) {
        return None;
    }
    if !(scanned.set_key == target.set_key) {
        return None;
    }
    if scanned.level != target.level {
        return None;
    }
    if !(scanned.main_stat_key == target.main_stat_key) {
        return None;
    }
    let n1 = target.substats.len();
    let n2 = target.unactivated_substats.len();
    let a = score_substats(&scanned.substats, &target.substats);
    let b = score_substats(&scanned.unactivated_substats, &target.unactivated_substats);
    proof {
        lemma_agreeing_le(scanned.substats@, target.substats@, target.substats@.len() as int);
        lemma_shared_le(scanned.substats@, target.substats@, target.substats@.len() as int);
        lemma_agreeing_le(
            scanned.unactivated_substats@,
            target.unactivated_substats@,
            target.unactivated_substats@.len() as int,
        );
        lemma_shared_le(
            scanned.unactivated_substats@,
            target.unactivated_substats@,
            target.unactivated_substats@.len() as int,
        );
        assert(a <= 20 + 5 * target.substats@.len());
        assert(b <= 20 + 5 * target.unactivated_substats@.len());
        assert(target.substats@.len() == n1);
        assert(target.unactivated_substats@.len() == n2);
    }
    Some(50 + a + b)
}

/// `o` is no score, or a score of at most `bound`.
pub open spec fn at_most(o: Option<int>, bound: int) -> bool {
    match o {
        Some(x) => x <= bound,
        None => true,
    }
}

/// `o` is no score, or a score below `bound`.
pub open spec fn below(o: Option<int>, bound: int) -> bool {
    match o {
        Some(x) => x < bound,
        None => true,
    }
}

/// The best of a list of candidate targets for a scanned artifact: among
/// the targets that match, the one with the highest score, the earliest of
/// them on a tie. The result is that target's index (the first component of
/// its pair) and its score.
pub fn find_best_match(scanned: &GoodArtifact, targets: &[(usize, &GoodArtifact)]) -> (r: Option<
    (usize, u128),
>)
    ensures
        match r {
            None => forall|i: int|
                0 <= i < targets@.len() ==> match_score_spec(*scanned, *(#[trigger] targets@[i]).1)
                    is None,
            Some((idx, score)) => exists|i: int|
                {
                    &&& 0 <= i < targets@.len()
                    &&& (#[trigger] targets@[i]).0 == idx
                    &&& match_score_spec(*scanned, *targets@[i].1) == Some(score as int)
                    &&& forall|j: int|
                        0 <= j < targets@.len() ==> at_most(
                            match_score_spec(*scanned, *(#[trigger] targets@[j]).1),
                            score as int,
                        )
                    &&& forall|j: int|
                        0 <= j < i ==> below(
                            match_score_spec(*scanned, *(#[trigger] targets@[j]).1),
                            score as int,
                        )
                },
        },
{
    let mut best: Option<(usize, u128)> = None;
    let ghost mut best_pos: int = 0;
    let mut k: usize = 0;
    while k < targets.len()
        invariant
            k <= targets@.len(),
            best is None ==> forall|i: int|
                0 <= i < k ==> match_score_spec(*scanned, *(#[trigger] targets@[i]).1) is None,
            best matches Some((idx, score)) ==> {
                &&& 0 <= best_pos < k
                &&& targets@[best_pos].0 == idx
                &&& match_score_spec(*scanned, *targets@[best_pos].1) == Some(score as int)
                &&& forall|j: int|
                    0 <= j < k ==> at_most(
                        match_score_spec(*scanned, *(#[trigger] targets@[j]).1),
                        score as int,
                    )
                &&& forall|j: int|
                    0 <= j < best_pos ==> below(
                        match_score_spec(*scanned, *(#[trigger] targets@[j]).1),
                        score as int,
                    )
            },
        decreases targets@.len() - k,
    {
        let (idx, target) = targets[k];
        match match_score(scanned, target) {
            Some(score) => {
                let better = match best {
                    None => true,
                    Some((_, b)) => score > b,
                };
                if better {
                    best = Some((idx, score));
                    proof {
                        best_pos = k as int;
                    }
                }
            },
            None => {},
        }
        k += 1;
    }
    proof {
        if best is Some {
            assert(0 <= best_pos < targets@.len());
        }
    }
    best
}

// ---------------------------------------------------------------------------
// Laws
// ---------------------------------------------------------------------------

/// No two substats of `s` share a key.
pub open spec fn distinct_keys(s: Seq<GoodSubStat>) -> bool {
    forall|i: int, j: int| 0 <= i < j < s.len() ==> (#[trigger] s[i]).key@ != (#[trigger] s[j]).key@
}

proof fn lemma_substat_score_bound(s: Seq<GoodSubStat>, t: Seq<GoodSubStat>)
    ensures
        substat_score(s, t) <= 20 + 5 * t.len(),
{
    lemma_agreeing_le(s, t, t.len() as int);
    lemma_shared_le(s, t, t.len() as int);
}

proof fn lemma_self_agrees(t: Seq<GoodSubStat>, n: int)
    requires
        distinct_keys(t),
        0 <= n <= t.len(),
    ensures
        agreeing(t, t, n) == n,
    decreases n,
{
    if n > 0 {
        lemma_self_agrees(t, n - 1);
        let i = n - 1;
        lemma_key_index(t, t[i].key@, 0);
        let j = key_index_from(t, t[i].key@, 0);
        assert(j <= i) by {
            if j > i {
                assert(t[i].key@ != t[i].key@);
            }
        }
        if j < i {
            assert(t[j].key@ == t[i].key@);
        }
        assert(j == i);
        assert(value_agrees(t, t[i]));
    }
}

/// A list of substats with distinct keys scores against itself the most
/// any list can score against it.
pub proof fn own_substats_score_highest(s: Seq<GoodSubStat>, t: Seq<GoodSubStat>)
    requires
        distinct_keys(t),
    ensures
        substat_score(s, t) <= substat_score(t, t),
{
    lemma_substat_score_bound(s, t);
    lemma_self_agrees(t, t.len() as int);
    if t.len() == 0 {
        if s.len() != 0 {
            assert(s[0].key@ == s[0].key@);
            assert(key_set(s).contains(s[0].key@));
            assert(!key_set(t).contains(s[0].key@));
            assert(key_set(s) != key_set(t));
            assert(shared_keys(s, t, 0) == 0);
        }
    }
}

/// Every artifact matches itself.
pub proof fn artifact_matches_itself(a: GoodArtifact)
    ensures
        match_score_spec(a, a) is Some,
{
}

/// A target whose substat lists have distinct keys is matched best by an
/// exact copy of itself: no scanned artifact scores higher against it.
pub proof fn exact_copy_matches_best(scanned: GoodArtifact, target: GoodArtifact)
    requires
        distinct_keys(target.substats@),
        distinct_keys(target.unactivated_substats@),
        match_score_spec(scanned, target) is Some,
    ensures
        match_score_spec(scanned, target)->0 <= match_score_spec(target, target)->0,
{
    own_substats_score_highest(scanned.substats@, target.substats@);
    own_substats_score_highest(scanned.unactivated_substats@, target.unactivated_substats@);
}

/// The hard fields decide whether a scanned artifact can be the target at
/// all: it gets a score exactly when its set, slot, rarity, level and main
/// stat are the target's, and a score is never below 50. So an artifact of
/// another set never matches, however alike the rest.
pub proof fn hard_fields_decide_match(scanned: GoodArtifact, target: GoodArtifact)
    ensures
        (match_score_spec(scanned, target) is Some) <==> (scanned.set_key@ == target.set_key@
            && scanned.slot_key@ == target.slot_key@ && scanned.rarity == target.rarity
            && scanned.level == target.level && scanned.main_stat_key@ == target.main_stat_key@),
        scanned.set_key@ != target.set_key@ ==> match_score_spec(scanned, target) is None,
        match_score_spec(scanned, target) matches Some(x) ==> x >= 50,
{
}

} // verus!
