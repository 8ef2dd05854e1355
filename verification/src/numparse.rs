//! Decimal numerals: their values, and `i32` parsing as `str::parse` does it.
use vstd::prelude::*;
use crate::text::{digit_value, is_digit};

verus! {

/// Every character of `s` is an ASCII digit.
pub open spec fn all_digits(s: Seq<char>) -> bool {
    forall|i: int| 0 <= i < s.len() ==> is_digit(#[trigger] s[i])
}

/// The value of a string of decimal digits (0 for the empty string).
pub open spec fn digits_value(s: Seq<char>) -> nat
    decreases s.len(),
{
    if s.len() == 0 {
        0
    } else {
        10 * digits_value(s.drop_last()) + (digit_value(s.last()) as nat)
    }
}

/// What `str::parse::<i32>` gives: an optional `+` or `-` followed by at
/// least one ASCII digit, with a value that fits an `i32`; nothing else
/// (white space included) is accepted.
pub open spec fn parse_i32_spec(s: Seq<char>) -> Option<int> {
    if s.len() == 0 {
        None
    } else {
        let neg = s[0] == '-';
        let body = if s[0] == '+' || s[0] == '-' {
            s.skip(1)
        } else {
            s
        };
        if body.len() == 0 || !all_digits(body) {
            None
        } else {
            let v: int = if neg {
                -(digits_value(body) as int)
            } else {
                digits_value(body) as int
            };
            if i32::MIN <= v <= i32::MAX {
                Some(v)
            } else {
                None
            }
        }
    }
}

/// The bound past which values are not tracked exactly.
pub open spec fn value_cap() -> nat {
    10000000000
}

/// `digits_value(s)`, or `value_cap()` when that is smaller.
pub open spec fn capped_value(s: Seq<char>) -> nat {
    if digits_value(s) < value_cap() {
        digits_value(s)
    } else {
        value_cap()
    }
}

/// The value of the digits `v[start..end]`, capped at `value_cap()`.
pub fn capped_digits_value(v: &Vec<char>, start: usize, end: usize) -> (r: u64)
    requires
        start <= end <= v.len(),
        all_digits(v@.subrange(start as int, end as int)),
    ensures
        r == capped_value(v@.subrange(start as int, end as int)),
{
    let mut acc: u64 = 0;
    let mut i: usize = start;
    while i < end
        invariant
            start <= i <= end,
            end <= v.len(),
            all_digits(v@.subrange(start as int, end as int)),
            acc == capped_value(v@.subrange(start as int, i as int)),
        decreases end - i,
    {
        let ghost prev = v@.subrange(start as int, i as int);
        let ghost next = v@.subrange(start as int, i + 1);
        assert(next.drop_last() =~= prev);
        assert(next.last() == v@[i as int]);
        assert(is_digit(v@.subrange(start as int, end as int)[i - start]));
        assert(v@.subrange(start as int, end as int)[i - start] == v@[i as int]);
        let d: u64 = ((v[i] as u32) - 48) as u64;
        if acc >= 10000000000 {
            acc = 10000000000;
        } else {
            let n = acc * 10 + d;
            acc = if n >= 10000000000 {
                10000000000
            } else {
                n
            };
        }
        i += 1;
    }
    acc
}

/// Are `v[start..end]` all ASCII digits?
pub fn digits_only(v: &Vec<char>, start: usize, end: usize) -> (b: bool)
    requires
        start <= end <= v.len(),
    ensures
        b == all_digits(v@.subrange(start as int, end as int)),
{
    let mut i: usize = start;
    while i < end
        invariant
            start <= i <= end,
            end <= v.len(),
            forall|k: int| start <= k < i ==> is_digit(v@[k]),
        decreases end - i,
    {
        if !('0' <= v[i] && v[i] <= '9') {
            assert(!is_digit(v@.subrange(start as int, end as int)[i - start]));
            return false;
        }
        i += 1;
    }
    assert forall|k: int| 0 <= k < end - start implies is_digit(
        #[trigger] v@.subrange(start as int, end as int)[k],
    ) by {
        assert(v@.subrange(start as int, end as int)[k] == v@[start + k]);
    }
    true
}

/// `str::parse::<i32>` on the characters `v`.
pub fn parse_i32(v: &Vec<char>) -> (r: Option<i32>)
    ensures
        match r {
            Some(x) => parse_i32_spec(v@) == Some(x as int),
            None => parse_i32_spec(v@) is None,
        },
{
    if v.len() == 0 {
        return None;
    }
    let neg = v[0] == '-';
    let start: usize = if v[0] == '+' || v[0] == '-' {
        1
    } else {
        0
    };
    assert(v@.subrange(start as int, v.len() as int) =~= if v@[0] == '+' || v@[0] == '-' {
        v@.skip(1)
    } else {
        v@
    });
    if start == v.len() || !digits_only(v, start, v.len()) {
        return None;
    }
    let c = capped_digits_value(v, start, v.len());
    if neg {
        if c > 2147483648 {
            None
        } else {
            let x: i64 = -(c as i64);
            Some(x as i32)
        }
    } else {
        if c > 2147483647 {
            None
        } else {
            Some(c as i32)
        }
    }
}

/// What `str::parse::<u64>` gives: an optional `+` followed by at least one
/// ASCII digit, with a value that fits a `u64`.
pub open spec fn parse_u64_spec(s: Seq<char>) -> Option<nat> {
    let body = if s.len() > 0 && s[0] == '+' {
        s.skip(1)
    } else {
        s
    };
    if body.len() == 0 || !all_digits(body) || digits_value(body) > u64::MAX {
        None
    } else {
        Some(digits_value(body))
    }
}

proof fn lemma_digits_value_push(s: Seq<char>, c: char)
    requires
        is_digit(c),
    ensures
        digits_value(s.push(c)) == 10 * digits_value(s) + digit_value(c),
{
    assert(s.push(c).drop_last() =~= s);
}

/// `str::parse::<u64>` on the characters `v`.
pub fn parse_u64(v: &Vec<char>) -> (r: Option<u64>)
    ensures
        match r {
            Some(x) => parse_u64_spec(v@) == Some(x as nat),
            None => parse_u64_spec(v@) is None,
        },
{
    let start: usize = if v.len() > 0 && v[0] == '+' {
        1
    } else {
        0
    };
    let ghost body = if v@.len() > 0 && v@[0] == '+' {
        v@.skip(1)
    } else {
        v@
    };
    assert(v@.subrange(start as int, v.len() as int) =~= body);
    if start == v.len() || !digits_only(v, start, v.len()) {
        return None;
    }
    let mut acc: u64 = 0;
    let mut i: usize = start;
    while i < v.len()
        invariant
            start <= i <= v.len(),
            body == v@.subrange(start as int, v.len() as int),
            body == (if v@.len() > 0 && v@[0] == '+' {
                v@.skip(1)
            } else {
                v@
            }),
            all_digits(body),
            acc == digits_value(v@.subrange(start as int, i as int)),
        decreases v.len() - i,
    {
        let ghost prev = v@.subrange(start as int, i as int);
        assert(v@.subrange(start as int, i + 1) =~= prev.push(v@[i as int]));
        assert(is_digit(body[i - start]));
        assert(body[i - start] == v@[i as int]);
        proof {
            lemma_digits_value_push(prev, v@[i as int]);
        }
        let d: u64 = ((v[i] as u32) - 48) as u64;
        match acc.checked_mul(10) {
            Some(m) => match m.checked_add(d) {
                Some(n) => {
                    acc = n;
                },
                None => {
                    proof {
                        lemma_value_grows(v@.subrange(start as int, v.len() as int), i + 1 - start);
                        assert(v@.subrange(start as int, v.len() as int).take(i + 1 - start)
                            =~= v@.subrange(start as int, i + 1));
                        assert(digits_value(v@.subrange(start as int, i + 1)) == 10 * acc + d);
                        assert(digits_value(body) > u64::MAX);

                    }
                    return None;
                },
            },
            None => {
                proof {
                    lemma_value_grows(v@.subrange(start as int, v.len() as int), i + 1 - start);
                    assert(v@.subrange(start as int, v.len() as int).take(i + 1 - start)
                        =~= v@.subrange(start as int, i + 1));
                    assert(digits_value(v@.subrange(start as int, i + 1)) == 10 * acc + d);
                    assert(digits_value(body) > u64::MAX);
                }
                return None;
            },
        }
        i += 1;
    }
    assert(v@.subrange(start as int, v.len() as int) =~= body);
    Some(acc)
}

/// The value of a string of digits is at least that of any prefix.
proof fn lemma_value_grows(s: Seq<char>, k: int)
    requires
        0 <= k <= s.len(),
    ensures
        digits_value(s.take(k)) <= digits_value(s),
    decreases s.len() - k,
{
    if k < s.len() {
        lemma_value_grows(s, k + 1);
        assert(s.take(k + 1).drop_last() =~= s.take(k));
    } else {
        assert(s.take(k) =~= s);
    }
}

} // verus!
