//! Reading levels out of OCR text: `"80/90"` character levels (with the
//! fallbacks for a lost slash or a stray digit) and `"Lv.10"` talent levels.
use vstd::prelude::*;
use crate::levels::{abs, finalize_level, finalize_level_spec};
use crate::numparse::{
    all_digits, capped_digits_value, capped_value, digits_value, parse_i32, parse_i32_spec,
    value_cap,
};
use crate::text::{is_digit, slice_chars, to_chars};

verus! {

// ---------------------------------------------------------------------------
// Regular expressions
// ---------------------------------------------------------------------------

/// Name for what the regex crate gives as the text of capture group
/// `group` of the first match of `pattern` in `text` (none when the pattern
/// does not compile, nothing matches, or the group took no part).
pub uninterp spec fn regex_group(pattern: Seq<char>, text: Seq<char>, group: nat) -> Option<
    Seq<char>,
>;

/// The text of capture group `group` of the first match of `pattern` in
/// `text`.
///
/// Calls `regex::Regex::new`, `Regex::captures` and `Captures::get`; the
/// contract only names the result, which depends on the three arguments
/// alone.
#[verifier::external_body]
fn capture_group(pattern: &str, text: &str, group: usize) -> (r: Option<String>)
    ensures
        match r {
            Some(s) => regex_group(pattern@, text@, group as nat) == Some(s@),
            None => regex_group(pattern@, text@, group as nat) is None,
        },
{
    let re = match regex::Regex::new(pattern) {
        Ok(re) => re,
        Err(_) => return None,
    };
    match re.captures(text) {
        Some(caps) => match caps.get(group) {
            Some(m) => Some(m.as_str().to_string()),
            None => None,
        },
        None => None,
    }
}

/// `"Lv.10"` and its OCR variants (`LV`, `Ly`, `lv`, with `.`, `:`, `．` or
/// nothing, then white space): the one- or two-digit level.
pub open spec fn talent_level_pattern() -> Seq<char> {
    "(?i)[Ll][VvYy][.:．]?\\s*(\\d{1,2})"@
}

/// Any one- or two-digit number.
pub open spec fn short_number_pattern() -> Seq<char> {
    "(\\d{1,2})"@
}

/// `"<level>/<cap>"`, with stray dots, colons and white space around the slash.
pub open spec fn level_pattern() -> Seq<char> {
    "(\\d+)\\s*[./·:]*\\s*/\\s*[./·:]*\\s*(\\d+)"@
}

// ---------------------------------------------------------------------------
// Talent levels
// ---------------------------------------------------------------------------

/// Is the character at `i` of `s` a space between two ASCII digits (which
/// the OCR inserts into numbers)?
pub open spec fn digit_gap_at(s: Seq<char>, i: int) -> bool {
    s[i] == ' ' && i > 0 && i + 1 < s.len() && is_digit(s[i - 1]) && is_digit(s[i + 1])
}

/// The first `n` characters of `s` without the spaces between digits.
pub open spec fn close_gaps_upto(s: Seq<char>, n: int) -> Seq<char>
    decreases n,
{
    if n <= 0 {
        Seq::empty()
    } else if digit_gap_at(s, n - 1) {
        close_gaps_upto(s, n - 1)
    } else {
        close_gaps_upto(s, n - 1).push(s[n - 1])
    }
}

/// `s` without the spaces between digits.
pub open spec fn close_digit_gaps(s: Seq<char>) -> Seq<char> {
    close_gaps_upto(s, s.len() as int)
}

fn close_digit_gaps_exec(s: &Vec<char>) -> (r: Vec<char>)
    ensures
        r@ == close_digit_gaps(s@),
{
    let mut out: Vec<char> = Vec::new();
    let mut i: usize = 0;
    while i < s.len()
        invariant
            i <= s.len(),
            out@ == close_gaps_upto(s@, i as int),
        decreases s.len() - i,
    {
        let gap = s[i] == ' ' && i > 0 && i + 1 < s.len() && ('0' <= s[i - 1] && s[i - 1] <= '9')
            && ('0' <= s[i + 1] && s[i + 1] <= '9');
        if !gap {
            out.push(s[i]);
        }
        i += 1;
    }
    out
}

/// A talent level from the text of a capture: its `i32` value (0 when it
/// does not parse), when that lies in 1..=15.
pub open spec fn talent_level_from(g: Option<Seq<char>>) -> Option<int> {
    match g {
        Some(t) => {
            let v = match parse_i32_spec(t) {
                Some(x) => x,
                None => 0,
            };
            if 1 <= v <= 15 {
                Some(v)
            } else {
                None
            }
        },
        None => None,
    }
}

/// The talent level given the `Lv` capture and the bare-number capture: the
/// first that yields a level in 1..=15, else 0.
pub open spec fn lv_from_groups(first: Option<Seq<char>>, second: Option<Seq<char>>) -> int {
    match talent_level_from(first) {
        Some(v) => v,
        None => match talent_level_from(second) {
            Some(v) => v,
            None => 0,
        },
    }
}

fn talent_level_exec(g: Option<&str>) -> (r: Option<i32>)
    ensures
        match r {
            Some(v) => talent_level_from(
                match g {
                    Some(t) => Some(t@),
                    None => None,
                },
            ) == Some(v as int),
            None => talent_level_from(
                match g {
                    Some(t) => Some(t@),
                    None => None,
                },
            ) is None,
        },
{
    match g {
        Some(t) => {
            let v: i32 = match parse_i32(&to_chars(t)) {
                Some(x) => x,
                None => 0,
            };
            if 1 <= v && v <= 15 {
                Some(v)
            } else {
                None
            }
        },
        None => None,
    }
}

/// The talent level given what the two patterns captured.
pub fn lv_from_captures(first: Option<&str>, second: Option<&str>) -> (r: i32)
    ensures
        r == lv_from_groups(
            match first {
                Some(t) => Some(t@),
                None => None,
            },
            match second {
                Some(t) => Some(t@),
                None => None,
            },
        ),
{
    match talent_level_exec(first) {
        Some(v) => v,
        None => match talent_level_exec(second) {
            Some(v) => v,
            None => 0,
        },
    }
}

/// The talent level read from `"Lv.X"` text: 0 for empty text; else the
/// spaces between digits are closed up and the level is taken from the
/// `Lv` pattern, or failing that from the first short number.
pub open spec fn lv_text_value(text: Seq<char>) -> int {
    if text.len() == 0 {
        0
    } else {
        let c = close_digit_gaps(text);
        lv_from_groups(
            regex_group(talent_level_pattern(), c, 1),
            regex_group(short_number_pattern(), c, 1),
        )
    }
}

/// The talent level read from `"Lv.X"` text, 0 if none.
pub fn parse_lv_text(text: &str) -> (r: i32)
    ensures
        r == lv_text_value(text@),
{
    let t = to_chars(text);
    if t.len() == 0 {
        return 0;
    }
    let c = close_digit_gaps_exec(&t);
    let cs = crate::text::from_chars(&c);
    let first = capture_group("(?i)[Ll][VvYy][.:．]?\\s*(\\d{1,2})", cs.as_str(), 1);
    let second = capture_group("(\\d{1,2})", cs.as_str(), 1);
    match (&first, &second) {
        (Some(a), Some(b)) => lv_from_captures(Some(a.as_str()), Some(b.as_str())),
        (Some(a), None) => lv_from_captures(Some(a.as_str()), None),
        (None, Some(b)) => lv_from_captures(None, Some(b.as_str())),
        (None, None) => lv_from_captures(None, None),
    }
}

// ---------------------------------------------------------------------------
// Splitting a run of digits into level and cap
// ---------------------------------------------------------------------------

/// Splitting `d` after `i` digits gives a plausible `(level, cap)`: a level
/// in 1..=100, a cap in 10..=100, and a cap not below the level.
pub open spec fn split_ok(d: Seq<char>, i: int) -> bool {
    let lv = digits_value(d.take(i));
    let mx = digits_value(d.skip(i));
    1 <= lv <= 100 && 10 <= mx <= 100 && mx >= lv
}

/// The plausible split of `d` with the longest level part no longer than
/// `i` digits.
pub open spec fn split_from(d: Seq<char>, i: int) -> Option<(int, int)>
    decreases i,
{
    if i < 1 {
        None
    } else if split_ok(d, i) {
        Some((digits_value(d.take(i)) as int, digits_value(d.skip(i)) as int))
    } else {
        split_from(d, i - 1)
    }
}

/// The plausible split of a run of digits with the longest level part.
pub open spec fn split_digits(d: Seq<char>) -> Option<(int, int)> {
    split_from(d, d.len() - 1)
}

proof fn lemma_capped_small(s: Seq<char>)
    ensures
        capped_value(s) <= 100 <==> digits_value(s) <= 100,
        capped_value(s) <= 100 ==> capped_value(s) == digits_value(s),
{
}

/// Split a run of ASCII digits into `(level, cap)`, trying the longest level
/// part first.
pub fn try_split_digits(d: &Vec<char>) -> (r: Option<(i32, i32)>)
    requires
        all_digits(d@),
    ensures
        match r {
            Some((lv, mx)) => split_digits(d@) == Some((lv as int, mx as int)),
            None => split_digits(d@) is None,
        },
{
    if d.len() < 2 {
        return None;
    }
    let mut i: usize = d.len() - 1;
    while i >= 1
        invariant
            0 <= i <= d.len() - 1,
            d.len() >= 2,
            all_digits(d@),
            split_digits(d@) == split_from(d@, i as int),
        decreases i,
    {
        assert(d@.subrange(0, i as int) =~= d@.take(i as int));
        assert(d@.subrange(i as int, d.len() as int) =~= d@.skip(i as int));
        assert(all_digits(d@.subrange(0, i as int)));
        assert(all_digits(d@.subrange(i as int, d.len() as int)));
        let lv = capped_digits_value(d, 0, i);
        let mx = capped_digits_value(d, i, d.len());
        proof {
            lemma_capped_small(d@.take(i as int));
            lemma_capped_small(d@.skip(i as int));
        }
        if 1 <= lv && lv <= 100 && 10 <= mx && mx <= 100 && mx >= lv {
            return Some((lv as i32, mx as i32));
        }
        i -= 1;
    }
    None
}

// ---------------------------------------------------------------------------
// Character levels
// ---------------------------------------------------------------------------

/// `d` without the digit at `k`.
pub open spec fn without_index(d: Seq<char>, k: int) -> Seq<char> {
    d.take(k) + d.skip(k + 1)
}

/// A split found after dropping one stray digit: the level, the cap and the
/// position of the dropped digit.
pub struct NoiseSplit {
    pub level: int,
    pub cap: int,
    pub dropped: int,
}

/// How far position `k` lies from the middle of a run of `n` digits, doubled.
pub open spec fn noise_dist(n: int, k: int) -> int {
    abs(2 * k - n)
}

/// Among the first `n` positions of `d`, the one whose digit, dropped,
/// leaves a run that splits, nearest the middle (the first on a tie).
pub open spec fn best_noise_upto(d: Seq<char>, n: int) -> Option<NoiseSplit>
    decreases n,
{
    if n <= 0 {
        None
    } else {
        let b = best_noise_upto(d, n - 1);
        let k = n - 1;
        match split_digits(without_index(d, k)) {
            Some((lv, mx)) => if b is None || noise_dist(d.len() as int, k) < noise_dist(
                d.len() as int,
                b->0.dropped,
            ) {
                Some(NoiseSplit { level: lv, cap: mx, dropped: k })
            } else {
                b
            },
            None => b,
        }
    }
}

/// The level reading of a run of ASCII digits, when the text had no slash:
/// `(1, false)` for no digits; the whole run when it is a level in 1..=100;
/// else its best split into level and cap; else the best split after
/// dropping one stray digit; else the first three, or two, digits when they
/// form a level in 1..=100; else `(1, false)`.
pub open spec fn level_from_digits(d: Seq<char>) -> (int, bool) {
    if d.len() == 0 {
        (1, false)
    } else if 0 < digits_value(d) <= 100 {
        (digits_value(d) as int, false)
    } else if split_digits(d) is Some {
        match split_digits(d) {
            Some((lv, mx)) => finalize_level_spec(lv, mx),
            None => (1, false),
        }
    } else if best_noise_upto(d, d.len() as int) is Some {
        let b = best_noise_upto(d, d.len() as int)->0;
        finalize_level_spec(b.level, b.cap)
    } else if d.len() >= 3 && 1 <= digits_value(d.take(3)) <= 100 {
        (digits_value(d.take(3)) as int, false)
    } else if d.len() >= 2 && 1 <= digits_value(d.take(2)) <= 100 {
        (digits_value(d.take(2)) as int, false)
    } else {
        (1, false)
    }
}

fn without_index_exec(d: &Vec<char>, k: usize) -> (r: Vec<char>)
    requires
        k < d.len(),
    ensures
        r@ == without_index(d@, k as int),
{
    let mut r = slice_chars(d, 0, k);
    let mut i: usize = k + 1;
    while i < d.len()
        invariant
            k < i <= d.len(),
            r@ == d@.take(k as int) + d@.subrange(k + 1, i as int),
        decreases d.len() - i,
    {
        r.push(d[i]);
        i += 1;
        assert(r@ =~= d@.take(k as int) + d@.subrange(k + 1, i as int));
    }
    assert(r@ =~= without_index(d@, k as int));
    r
}

proof fn lemma_without_index_digits(d: Seq<char>, k: int)
    requires
        all_digits(d),
        0 <= k < d.len(),
    ensures
        all_digits(without_index(d, k)),
{
    let w = without_index(d, k);
    assert forall|i: int| 0 <= i < w.len() implies is_digit(#[trigger] w[i]) by {
        if i < k {
            assert(w[i] == d[i]);
        } else {
            assert(w[i] == d[i + 1]);
        }
    }
}

/// The level reading of a run of ASCII digits.
pub fn level_from_digit_run(d: &Vec<char>) -> (r: (i32, bool))
    requires
        all_digits(d@),
    ensures
        r.0 as int == level_from_digits(d@).0,
        r.1 == level_from_digits(d@).1,
{
    let n = d.len();
    if n == 0 {
        return (1, false);
    }
    assert(d@.subrange(0, n as int) =~= d@);
    let whole = capped_digits_value(d, 0, n);
    proof {
        lemma_capped_small(d@);
    }
    if 0 < whole && whole <= 100 {
        return (whole as i32, false);
    }
    match try_split_digits(d) {
        Some((lv, mx)) => return finalize_level(lv, mx),
        None => {},
    }
    let mut best: Option<(i32, i32, usize)> = None;
    let mut k: usize = 0;
    while k < n
        invariant
            k <= n,
            n == d@.len(),
            all_digits(d@),
            match best {
                None => best_noise_upto(d@, k as int) is None,
                Some((lv, mx, at)) => best_noise_upto(d@, k as int) == Some(
                    NoiseSplit { level: lv as int, cap: mx as int, dropped: at as int },
                ),
            },
        decreases n - k,
    {
        let reduced = without_index_exec(d, k);
        proof {
            lemma_without_index_digits(d@, k as int);
        }
        match try_split_digits(&reduced) {
            Some((lv, mx)) => {
                let better = match best {
                    None => true,
                    Some((_, _, at)) => {
                        let dk: u128 = if 2 * (k as u128) >= (n as u128) {
                            2 * (k as u128) - (n as u128)
                        } else {
                            (n as u128) - 2 * (k as u128)
                        };
                        let da: u128 = if 2 * (at as u128) >= (n as u128) {
                            2 * (at as u128) - (n as u128)
                        } else {
                            (n as u128) - 2 * (at as u128)
                        };
                        dk < da
                    },
                };
                if better {
                    best = Some((lv, mx, k));
                }
            },
            None => {},
        }
        k += 1;
    }
    match best {
        Some((lv, mx, _)) => return finalize_level(lv, mx),
        None => {},
    }
    if n >= 3 {
        assert(d@.subrange(0, 3) =~= d@.take(3));
        assert(all_digits(d@.subrange(0, 3)));
        let v = capped_digits_value(d, 0, 3);
        proof {
            lemma_capped_small(d@.take(3));
        }
        if 1 <= v && v <= 100 {
            return (v as i32, false);
        }
    }
    if n >= 2 {
        assert(d@.subrange(0, 2) =~= d@.take(2));
        assert(all_digits(d@.subrange(0, 2)));
        let v = capped_digits_value(d, 0, 2);
        proof {
            lemma_capped_small(d@.take(2));
        }
        if 1 <= v && v <= 100 {
            return (v as i32, false);
        }
    }
    (1, false)
}

/// The ASCII digits of `s`, in order.
pub open spec fn ascii_digits(s: Seq<char>) -> Seq<char>
    decreases s.len(),
{
    if s.len() == 0 {
        s
    } else if is_digit(s.last()) {
        ascii_digits(s.drop_last()).push(s.last())
    } else {
        ascii_digits(s.drop_last())
    }
}

proof fn lemma_ascii_digits_all(s: Seq<char>)
    ensures
        all_digits(ascii_digits(s)),
    decreases s.len(),
{
    if s.len() > 0 {
        lemma_ascii_digits_all(s.drop_last());
    }
}

fn ascii_digits_exec(s: &Vec<char>) -> (r: Vec<char>)
    ensures
        r@ == ascii_digits(s@),
        all_digits(r@),
{
    let mut out: Vec<char> = Vec::new();
    let mut i: usize = 0;
    while i < s.len()
        invariant
            i <= s.len(),
            out@ == ascii_digits(s@.take(i as int)),
        decreases s.len() - i,
    {
        assert(s@.take(i + 1).drop_last() =~= s@.take(i as int));
        assert(s@.take(i + 1).last() == s@[i as int]);
        if '0' <= s[i] && s[i] <= '9' {
            out.push(s[i]);
        }
        i += 1;
    }
    assert(s@.take(s.len() as int) =~= s@);
    proof {
        lemma_ascii_digits_all(s@);
    }
    out
}

/// The `i32` value of `t`, or `default` when it does not parse.
pub open spec fn parse_or(t: Seq<char>, default: int) -> int {
    match parse_i32_spec(t) {
        Some(x) => x,
        None => default,
    }
}

/// A character level reading from what the `"<level>/<cap>"` pattern
/// captured in `text`: with a match, the level (1 when it does not parse)
/// and the cap (20 when it does not parse) are finished by
/// `finalize_level`; without one, the level is read from the digits of the
/// text alone.
pub open spec fn level_from_groups(g1: Option<Seq<char>>, g2: Option<Seq<char>>, text: Seq<char>) -> (
    int,
    bool,
) {
    match g1 {
        Some(a) => finalize_level_spec(
            parse_or(a, 1),
            match g2 {
                Some(b) => parse_or(b, 20),
                None => 20,
            },
        ),
        None => level_from_digits(ascii_digits(text)),
    }
}

fn parse_or_exec(t: &str, default: i32) -> (r: i32)
    ensures
        r == parse_or(t@, default as int),
{
    match parse_i32(&to_chars(t)) {
        Some(x) => x,
        None => default,
    }
}

/// A character level reading, given what the level pattern captured.
pub fn level_from_captures(g1: Option<&str>, g2: Option<&str>, text: &str) -> (r: (i32, bool))
    ensures
        ({
            let s = level_from_groups(
                match g1 {
                    Some(t) => Some(t@),
                    None => None,
                },
                match g2 {
                    Some(t) => Some(t@),
                    None => None,
                },
                text@,
            );
            r.0 as int == s.0 && r.1 == s.1
        }),
{
    match g1 {
        Some(a) => {
            let lv = parse_or_exec(a, 1);
            let mx = match g2 {
                Some(b) => parse_or_exec(b, 20),
                None => 20,
            };
            finalize_level(lv, mx)
        },
        None => {
            let digits = ascii_digits_exec(&to_chars(text));
            level_from_digit_run(&digits)
        },
    }
}

/// The character level reading of OCR text (`"80/90"` and the like).
pub open spec fn level_text_value(text: Seq<char>) -> (int, bool) {
    level_from_groups(
        regex_group(level_pattern(), text, 1),
        regex_group(level_pattern(), text, 2),
        text,
    )
}

/// Read a character's level and ascension flag from OCR text.
pub fn parse_level_text(text: &str) -> (r: (i32, bool))
    ensures
        r.0 as int == level_text_value(text@).0,
        r.1 == level_text_value(text@).1,
{
    let pattern = "(\\d+)\\s*[./·:]*\\s*/\\s*[./·:]*\\s*(\\d+)";
    let g1 = capture_group(pattern, text, 1);
    let g2 = capture_group(pattern, text, 2);
    match (&g1, &g2) {
        (Some(a), Some(b)) => level_from_captures(Some(a.as_str()), Some(b.as_str()), text),
        (Some(a), None) => level_from_captures(Some(a.as_str()), None, text),
        (None, Some(b)) => level_from_captures(None, Some(b.as_str()), text),
        (None, None) => level_from_captures(None, None, text),
    }
}

} // verus!
