//! Talent levels: undoing the constellation bonuses the game adds to the
//! displayed levels, and judging whether a scanned character needs a
//! second look.
use vstd::prelude::*;
use crate::levels::level_suspicious;
use crate::models::GoodCharacter;
use crate::text::str_eq;

verus! {

/// Which talent a constellation of a character raises by 3: `"A"` (normal
/// attack), `"E"` (skill) or `"Q"` (burst), for C3 and for C5.
#[derive(Clone, Debug)]
pub struct ConstBonus {
    pub c3: Option<String>,
    pub c5: Option<String>,
}

/// What a scan saw besides the character itself.
#[derive(Clone, Copy, Debug)]
pub struct ScanMeta {
    /// Some talent that should carry a +3 bonus read below 4.
    pub talent_suspicious: bool,
    /// The skill level as read, before any adjustment.
    pub raw_skill: i32,
    /// The burst level as read, before any adjustment.
    pub raw_burst: i32,
}

/// The GOOD key of Tartaglia, whose normal attack shows one level too high.
pub open spec fn tartaglia_key() -> Seq<char> {
    "Tartaglia"@
}

/// Talent levels (normal attack, skill, burst) and whether a bonus was
/// taken off a level too low to carry it.
pub struct TalentReading {
    pub auto: int,
    pub skill: int,
    pub burst: int,
    pub suspicious: bool,
}

/// A level with a +3 bonus taken off, never below 1.
pub open spec fn minus_bonus(v: int) -> int {
    if v < 4 {
        1
    } else {
        v - 3
    }
}

/// Take the +3 bonus off the talent named by `slot` (`"A"`, `"E"` or
/// `"Q"`; anything else changes nothing), noting a level below 4.
pub open spec fn take_bonus(t: TalentReading, slot: Seq<char>) -> TalentReading {
    if slot == "A"@ {
        TalentReading { auto: minus_bonus(t.auto), suspicious: t.suspicious || t.auto < 4, ..t }
    } else if slot == "E"@ {
        TalentReading { skill: minus_bonus(t.skill), suspicious: t.suspicious || t.skill < 4, ..t }
    } else if slot == "Q"@ {
        TalentReading { burst: minus_bonus(t.burst), suspicious: t.suspicious || t.burst < 4, ..t }
    } else {
        t
    }
}

/// The constellation bonus entry of `name`: the first pair of `m` for it.
pub open spec fn bonus_of(m: Seq<(String, ConstBonus)>, name: Seq<char>) -> Option<ConstBonus>
    decreases m.len(),
{
    if m.len() == 0 {
        None
    } else {
        match bonus_of(m.drop_last(), name) {
            Some(b) => Some(b),
            None => if m.last().0@ == name {
                Some(m.last().1)
            } else {
                None
            },
        }
    }
}

/// The talent levels behind the displayed ones. Tartaglia's normal attack
/// loses 1 (never below 1). A character with a bonus entry loses 3 on the
/// talent its C3 raises, from C3 on, and on the one its C5 raises, from C5
/// on. The Traveler, who has none, loses 3 on skill and burst from C5 on,
/// and below C5 on whichever of them reads above 10.
pub open spec fn adjusted_talents(
    auto: int,
    skill: int,
    burst: int,
    name: Seq<char>,
    constellation: int,
    bonuses: Seq<(String, ConstBonus)>,
) -> TalentReading {
    let a = if name == tartaglia_key() {
        if auto < 2 {
            1
        } else {
            auto - 1
        }
    } else {
        auto
    };
    let t0 = TalentReading { auto: a, skill, burst, suspicious: false };
    match bonus_of(bonuses, name) {
        Some(b) => {
            let t1 = if constellation >= 3 && b.c3 is Some {
                take_bonus(t0, b.c3->0@)
            } else {
                t0
            };
            if constellation >= 5 && b.c5 is Some {
                take_bonus(t1, b.c5->0@)
            } else {
                t1
            }
        },
        None => if name == "Traveler"@ {
            if constellation >= 5 {
                take_bonus(take_bonus(t0, "E"@), "Q"@)
            } else {
                let t1 = if skill > 10 {
                    take_bonus(t0, "E"@)
                } else {
                    t0
                };
                if burst > 10 {
                    take_bonus(t1, "Q"@)
                } else {
                    t1
                }
            }
        } else {
            t0
        },
    }
}

fn minus_bonus_exec(v: i32) -> (r: i32)
    ensures
        r == minus_bonus(v as int),
{
    if v < 4 {
        1
    } else {
        v - 3
    }
}

fn take_bonus_exec(t: (i32, i32, i32, bool), slot: &str) -> (r: (i32, i32, i32, bool))
    ensures
        ({
            let s = take_bonus(
                TalentReading { auto: t.0 as int, skill: t.1 as int, burst: t.2 as int, suspicious: t.3 },
                slot@,
            );
            r.0 == s.auto && r.1 == s.skill && r.2 == s.burst && r.3 == s.suspicious
        }),
{
    if str_eq(slot, "A") {
        (minus_bonus_exec(t.0), t.1, t.2, t.3 || t.0 < 4)
    } else if str_eq(slot, "E") {
        (t.0, minus_bonus_exec(t.1), t.2, t.3 || t.1 < 4)
    } else if str_eq(slot, "Q") {
        (t.0, t.1, minus_bonus_exec(t.2), t.3 || t.2 < 4)
    } else {
        t
    }
}

proof fn lemma_bonus_prefix(m: Seq<(String, ConstBonus)>, name: Seq<char>, k: int)
    requires
        0 <= k <= m.len(),
        bonus_of(m.take(k), name) is Some,
    ensures
        bonus_of(m, name) == bonus_of(m.take(k), name),
    decreases m.len() - k,
{
    if k < m.len() {
        assert(m.take(k + 1).drop_last() =~= m.take(k));
        lemma_bonus_prefix(m, name, k + 1);
    } else {
        assert(m.take(k) =~= m);
    }
}

/// The bonus entry of `name` in `m`.
pub fn find_bonus<'a>(m: &'a Vec<(String, ConstBonus)>, name: &str) -> (r: Option<&'a ConstBonus>)
    ensures
        match r {
            Some(b) => bonus_of(m@, name@) == Some(*b),
            None => bonus_of(m@, name@) is None,
        },
{
    let mut i: usize = 0;
    while i < m.len()
        invariant
            i <= m.len(),
            bonus_of(m@.take(i as int), name@) is None,
        decreases m.len() - i,
    {
        assert(m@.take(i + 1).drop_last() =~= m@.take(i as int));
        if str_eq(m[i].0.as_str(), name) {
            proof {
                lemma_bonus_prefix(m@, name@, i + 1);
            }
            return Some(&m[i].1);
        }
        i += 1;
    }
    assert(m@.take(m.len() as int) =~= m@);
    None
}

/// Undo the bonuses in the displayed talent levels of the character `name`
/// at constellation `constellation`. The result is (normal attack, skill,
/// burst, suspicious), `suspicious` telling that a bonus was taken off a
/// level below 4.
pub fn adjust_talents(
    raw_auto: i32,
    raw_skill: i32,
    raw_burst: i32,
    name: &str,
    constellation: i32,
    bonuses: &Vec<(String, ConstBonus)>,
) -> (r: (i32, i32, i32, bool))
    ensures
        ({
            let s = adjusted_talents(
                raw_auto as int,
                raw_skill as int,
                raw_burst as int,
                name@,
                constellation as int,
                bonuses@,
            );
            r.0 == s.auto && r.1 == s.skill && r.2 == s.burst && r.3 == s.suspicious
        }),
{
    let auto: i32 = if str_eq(name, "Tartaglia") {
        if raw_auto < 2 {
            1
        } else {
            raw_auto - 1
        }
    } else {
        raw_auto
    };
    let t0 = (auto, raw_skill, raw_burst, false);
    match find_bonus(bonuses, name) {
        Some(b) => {
            let t1 = if constellation >= 3 && b.c3.is_some() {
                match &b.c3 {
                    Some(s) => take_bonus_exec(t0, s.as_str()),
                    None => t0,
                }
            } else {
                t0
            };
            if constellation >= 5 && b.c5.is_some() {
                match &b.c5 {
                    Some(s) => take_bonus_exec(t1, s.as_str()),
                    None => t1,
                }
            } else {
                t1
            }
        },
        None => {
            if str_eq(name, "Traveler") {
                if constellation >= 5 {
                    take_bonus_exec(take_bonus_exec(t0, "E"), "Q")
                } else {
                    let t1 = if raw_skill > 10 {
                        take_bonus_exec(t0, "E")
                    } else {
                        t0
                    };
                    if raw_burst > 10 {
                        take_bonus_exec(t1, "Q")
                    } else {
                        t1
                    }
                }
            } else {
                t0
            }
        },
    }
}

/// The highest talent level a character can have at an ascension phase
/// (before bonuses).
pub open spec fn max_talent(ascension: int) -> int {
    if ascension <= 1 && ascension >= 0 {
        1
    } else if ascension == 2 {
        2
    } else if ascension == 3 {
        4
    } else if ascension == 4 {
        6
    } else if ascension == 5 {
        8
    } else {
        10
    }
}

/// The highest talent level a character can have at `ascension`.
pub fn max_talent_for_ascension(ascension: i32) -> (r: i32)
    ensures
        r == max_talent(ascension as int),
{
    match ascension {
        0 => 1,
        1 => 1,
        2 => 2,
        3 => 4,
        4 => 6,
        5 => 8,
        _ => 10,
    }
}

/// A scanned character to scan again: a suspicious level, a skill or burst
/// read as 1 at level 40 or above, a talent above what its ascension
/// allows, or a bonus taken off a level too low to carry it.
pub open spec fn character_suspicious(c: GoodCharacter, meta: Option<ScanMeta>) -> bool {
    ||| level_suspicious(c.level as int, false)
    ||| (c.level >= 40 && (meta matches Some(m) && (m.raw_skill == 1 || m.raw_burst == 1)))
    ||| c.talent.auto > max_talent(c.ascension as int)
    ||| c.talent.skill > max_talent(c.ascension as int)
    ||| c.talent.burst > max_talent(c.ascension as int)
    ||| (meta matches Some(m) && m.talent_suspicious)
}

/// Does the scanned character warrant a second scan?
pub fn is_character_suspicious(c: &GoodCharacter, meta: Option<&ScanMeta>) -> (b: bool)
    ensures
        b == character_suspicious(
            *c,
            match meta {
                Some(m) => Some(*m),
                None => None,
            },
        ),
{
    if crate::levels::is_level_suspicious(c.level, false) {
        return true;
    }
    if c.level >= 40 {
        if let Some(m) = meta {
            if m.raw_skill == 1 || m.raw_burst == 1 {
                return true;
            }
        }
    }
    let mt = max_talent_for_ascension(c.ascension);
    if c.talent.auto > mt || c.talent.skill > mt || c.talent.burst > mt {
        return true;
    }
    if let Some(m) = meta {
        if m.talent_suspicious {
            return true;
        }
    }
    false
}


/// Taking bonuses off never raises a talent level above its reading, and
/// leaves every level that read at least 1 at 1 or more.
pub proof fn adjusted_talents_bounded(
    auto: int,
    skill: int,
    burst: int,
    name: Seq<char>,
    constellation: int,
    bonuses: Seq<(String, ConstBonus)>,
)
    requires
        auto >= 1,
        skill >= 1,
        burst >= 1,
    ensures
        ({
            let t = adjusted_talents(auto, skill, burst, name, constellation, bonuses);
            1 <= t.auto <= auto && 1 <= t.skill <= skill && 1 <= t.burst <= burst
        }),
{
}

} // verus!
