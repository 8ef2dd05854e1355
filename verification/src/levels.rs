//! Character levels and talents: snapping OCR readings of `level/cap` to the
//! caps the game has, judging whether a reading is plausible, and undoing the
//! constellation bonuses on talent levels.
use vstd::prelude::*;
use crate::models::GoodCharacter;
use crate::text::{decimal, push_decimal, push_signed, push_str, signed_decimal};

verus! {

// ---------------------------------------------------------------------------
// Level caps
// ---------------------------------------------------------------------------

/// The level caps of the game, in increasing order.
pub open spec fn caps() -> Seq<int> {
    seq![20, 40, 50, 60, 70, 80, 90, 95, 100]
}

/// The least level from which each cap of `caps()` can be reached (the
/// previous cap: one must reach it to ascend).
pub open spec fn cap_floors() -> Seq<int> {
    seq![1, 20, 40, 50, 60, 70, 80, 90, 95]
}

/// Is `v` a level cap?
pub open spec fn is_cap(v: int) -> bool {
    caps().contains(v)
}

/// The cap nearest to the reading `m`, the smaller one on a tie.
pub open spec fn nearest_cap(m: int) -> int {
    if m <= 30 {
        20
    } else if m <= 45 {
        40
    } else if m <= 55 {
        50
    } else if m <= 65 {
        60
    } else if m <= 75 {
        70
    } else if m <= 85 {
        80
    } else if m <= 92 {
        90
    } else if m <= 97 {
        95
    } else {
        100
    }
}

/// The first cap above `level`, or 100 when there is none.
pub open spec fn next_cap_above(level: int) -> int {
    if level < 20 {
        20
    } else if level < 40 {
        40
    } else if level < 50 {
        50
    } else if level < 60 {
        60
    } else if level < 70 {
        70
    } else if level < 80 {
        80
    } else if level < 90 {
        90
    } else if level < 95 {
        95
    } else {
        100
    }
}

/// The absolute value of `x`.
pub open spec fn abs(x: int) -> int {
    if x < 0 {
        -x
    } else {
        x
    }
}

/// The snapped cap is a cap, no cap lies nearer to the reading, and every
/// smaller cap lies farther.
pub proof fn nearest_cap_is_nearest(m: int)
    ensures
        is_cap(nearest_cap(m)),
        forall|i: int| 0 <= i < caps().len() ==> abs(nearest_cap(m) - m) <= abs(caps()[i] - m),
        forall|i: int|
            0 <= i < caps().len() && caps()[i] < nearest_cap(m) ==> abs(nearest_cap(m) - m) < abs(
                caps()[i] - m,
            ),
{
    let c = caps();
    assert(c[0] == 20 && c[1] == 40 && c[2] == 50 && c[3] == 60 && c[4] == 70);
    assert(c[5] == 80 && c[6] == 90 && c[7] == 95 && c[8] == 100);
    let n = nearest_cap(m);
    assert(c.contains(n)) by {
        if n == 20 {
            assert(c[0] == n);
        } else if n == 40 {
            assert(c[1] == n);
        } else if n == 50 {
            assert(c[2] == n);
        } else if n == 60 {
            assert(c[3] == n);
        } else if n == 70 {
            assert(c[4] == n);
        } else if n == 80 {
            assert(c[5] == n);
        } else if n == 90 {
            assert(c[6] == n);
        } else if n == 95 {
            assert(c[7] == n);
        } else {
            assert(c[8] == n);
        }
    }
}

fn nearest_cap_exec(m: i32) -> (r: i32)
    ensures
        r == nearest_cap(m as int),
{
    if m <= 30 {
        20
    } else if m <= 45 {
        40
    } else if m <= 55 {
        50
    } else if m <= 65 {
        60
    } else if m <= 75 {
        70
    } else if m <= 85 {
        80
    } else if m <= 92 {
        90
    } else if m <= 97 {
        95
    } else {
        100
    }
}

fn next_cap_above_exec(level: i32) -> (r: i32)
    ensures
        r == next_cap_above(level as int),
{
    if level < 20 {
        20
    } else if level < 40 {
        40
    } else if level < 50 {
        50
    } else if level < 60 {
        60
    } else if level < 70 {
        70
    } else if level < 80 {
        80
    } else if level < 90 {
        90
    } else if level < 95 {
        95
    } else {
        100
    }
}

fn is_cap_exec(v: i32) -> (b: bool)
    ensures
        b == is_cap(v as int),
{
    let b = v == 20 || v == 40 || v == 50 || v == 60 || v == 70 || v == 80 || v == 90 || v == 95
        || v == 100;
    proof {
        let c = caps();
        assert(c[0] == 20 && c[1] == 40 && c[2] == 50 && c[3] == 60 && c[4] == 70);
        assert(c[5] == 80 && c[6] == 90 && c[7] == 95 && c[8] == 100);
        if b {
            assert(c.contains(v as int)) by {
                if v == 20 {
                    assert(c[0] == v);
                } else if v == 40 {
                    assert(c[1] == v);
                } else if v == 50 {
                    assert(c[2] == v);
                } else if v == 60 {
                    assert(c[3] == v);
                } else if v == 70 {
                    assert(c[4] == v);
                } else if v == 80 {
                    assert(c[5] == v);
                } else if v == 90 {
                    assert(c[6] == v);
                } else if v == 95 {
                    assert(c[7] == v);
                } else {
                    assert(c[8] == v);
                }
            }
        }
    }
    b
}

/// A finished reading of a level: the level capped by the snapped cap (a
/// level is never raised or snapped otherwise) and whether the character is
/// ascended (a level of at least 20 below its cap).
pub open spec fn finalize_level_spec(level: int, max_level: int) -> (int, bool) {
    let cap = nearest_cap(max_level);
    let lv = if level < cap {
        level
    } else {
        cap
    };
    (lv, lv >= 20 && lv < cap)
}

/// Finish a `(level, cap)` reading: snap the cap to the nearest real cap,
/// and compute the level (the reading, at most the cap) and the ascended
/// flag. Levels that no character can have (91-94, 96-99) are kept, so that
/// they are caught as OCR errors.
pub fn finalize_level(level: i32, max_level: i32) -> (r: (i32, bool))
    ensures
        r.0 as int == finalize_level_spec(level as int, max_level as int).0,
        r.1 == finalize_level_spec(level as int, max_level as int).1,
{
    let cap = nearest_cap_exec(max_level);
    let lv = if level < cap {
        level
    } else {
        cap
    };
    (lv, lv >= 20 && lv < cap)
}

/// The least level from which the cap `max_level` can be reached, if it is
/// a cap.
pub open spec fn cap_floor(max_level: int) -> Option<int> {
    if max_level == 20 {
        Some(1)
    } else if max_level == 40 {
        Some(20)
    } else if max_level == 50 {
        Some(40)
    } else if max_level == 60 {
        Some(50)
    } else if max_level == 70 {
        Some(60)
    } else if max_level == 80 {
        Some(70)
    } else if max_level == 90 {
        Some(80)
    } else if max_level == 95 {
        Some(90)
    } else if max_level == 100 {
        Some(95)
    } else {
        None
    }
}

/// `cap_floor` agrees with the two tables.
pub proof fn cap_floor_follows_tables(i: int)
    requires
        0 <= i < caps().len(),
    ensures
        cap_floor(caps()[i]) == Some(cap_floors()[i]),
{
}

/// A plausible `(level, cap)` pair: the level lies between 1 and the cap,
/// and for a real cap it is at least the floor of that cap.
pub open spec fn level_plausible(level: int, max_level: int) -> bool {
    &&& 1 <= level <= max_level
    &&& match cap_floor(max_level) {
        Some(f) => level >= f,
        None => true,
    }
}

/// Is the `(level, cap)` pair plausible?
pub fn is_level_plausible(level: i32, max_level: i32) -> (b: bool)
    ensures
        b == level_plausible(level as int, max_level as int),
{
    if level > max_level || level < 1 {
        return false;
    }
    let floor: i32 = if max_level == 20 {
        1
    } else if max_level == 40 {
        20
    } else if max_level == 50 {
        40
    } else if max_level == 60 {
        50
    } else if max_level == 70 {
        60
    } else if max_level == 80 {
        70
    } else if max_level == 90 {
        80
    } else if max_level == 95 {
        90
    } else if max_level == 100 {
        95
    } else {
        i32::MIN
    };
    level >= floor
}

/// The cap a level reading implies: the next cap above it when ascended, the
/// level itself when it is a cap and not ascended, else the next cap above
/// (100 past the last).
pub open spec fn derived_max_level(level: int, ascended: bool) -> int {
    if !ascended && is_cap(level) {
        level
    } else {
        next_cap_above(level)
    }
}

/// The cap a level reading implies.
pub fn derive_max_level(level: i32, ascended: bool) -> (r: i32)
    ensures
        r == derived_max_level(level as int, ascended),
{
    if ascended {
        next_cap_above_exec(level)
    } else if is_cap_exec(level) {
        level
    } else {
        next_cap_above_exec(level)
    }
}

/// A level reading to retry: a level no character can have (91-94,
/// 96-99), a single-digit level above 1 (a lost digit), or a level that is
/// not plausible for the cap it implies.
pub open spec fn level_suspicious(level: int, ascended: bool) -> bool {
    ||| 91 <= level <= 94
    ||| 96 <= level <= 99
    ||| 2 <= level < 10
    ||| !level_plausible(level, derived_max_level(level, ascended))
}

/// Does the level reading warrant a retry?
pub fn is_level_suspicious(level: i32, ascended: bool) -> (b: bool)
    ensures
        b == level_suspicious(level as int, ascended),
{
    if (91 <= level && level <= 94) || (96 <= level && level <= 99) {
        return true;
    }
    if level >= 2 && level < 10 {
        return true;
    }
    let max_level = derive_max_level(level, ascended);
    if !is_level_plausible(level, max_level) {
        return true;
    }
    false
}

/// `level/cap` as shown in the game, the cap derived from the level: the
/// first cap the level lies below, or the level itself when it is a cap and
/// the character is not ascended, or the next cap when it is; 100 past the
/// last cap.
pub open spec fn display_cap(level: int, ascended: bool) -> int {
    if level <= 20 {
        if level == 20 && ascended {
            40
        } else {
            20
        }
    } else if level <= 40 {
        if level == 40 && ascended {
            50
        } else {
            40
        }
    } else if level <= 50 {
        if level == 50 && ascended {
            60
        } else {
            50
        }
    } else if level <= 60 {
        if level == 60 && ascended {
            70
        } else {
            60
        }
    } else if level <= 70 {
        if level == 70 && ascended {
            80
        } else {
            70
        }
    } else if level <= 80 {
        if level == 80 && ascended {
            90
        } else {
            80
        }
    } else if level <= 90 {
        if level == 90 && ascended {
            95
        } else {
            90
        }
    } else if level <= 95 {
        if level == 95 && ascended {
            100
        } else {
            95
        }
    } else {
        100
    }
}

/// `"<level>/<cap>"` for a level reading.
pub fn level_cap_display(level: i32, ascended: bool) -> (s: String)
    ensures
        s@ == signed_decimal(level as int) + "/"@ + decimal(
            display_cap(level as int, ascended) as nat,
        ),
{
    let cap: i32 = if level <= 20 {
        if level == 20 && ascended {
            40
        } else {
            20
        }
    } else if level <= 40 {
        if level == 40 && ascended {
            50
        } else {
            40
        }
    } else if level <= 50 {
        if level == 50 && ascended {
            60
        } else {
            50
        }
    } else if level <= 60 {
        if level == 60 && ascended {
            70
        } else {
            60
        }
    } else if level <= 70 {
        if level == 70 && ascended {
            80
        } else {
            70
        }
    } else if level <= 80 {
        if level == 80 && ascended {
            90
        } else {
            80
        }
    } else if level <= 90 {
        if level == 90 && ascended {
            95
        } else {
            90
        }
    } else if level <= 95 {
        if level == 95 && ascended {
            100
        } else {
            95
        }
    } else {
        100
    };
    let mut s = String::new();
    push_signed(&mut s, level as i64);
    push_str(&mut s, "/");
    push_decimal(&mut s, cap as u64);
    assert(s@ =~= signed_decimal(level as int) + "/"@ + decimal(
        display_cap(level as int, ascended) as nat,
    ));
    s
}


/// The cap shown next to a level is a cap, and no lower than the level
/// for any level up to 100.
pub proof fn display_cap_is_cap(level: int, ascended: bool)
    requires
        level <= 100,
    ensures
        is_cap(display_cap(level, ascended)),
        display_cap(level, ascended) >= level,
{
    let c = caps();
    assert(c[0] == 20 && c[1] == 40 && c[2] == 50 && c[3] == 60 && c[4] == 70);
    assert(c[5] == 80 && c[6] == 90 && c[7] == 95 && c[8] == 100);
    let d = display_cap(level, ascended);
    if d == 20 {
        assert(c[0] == d);
    } else if d == 40 {
        assert(c[1] == d);
    } else if d == 50 {
        assert(c[2] == d);
    } else if d == 60 {
        assert(c[3] == d);
    } else if d == 70 {
        assert(c[4] == d);
    } else if d == 80 {
        assert(c[5] == d);
    } else if d == 90 {
        assert(c[6] == d);
    } else if d == 95 {
        assert(c[7] == d);
    } else {
        assert(c[8] == d);
    }
}

} // verus!
