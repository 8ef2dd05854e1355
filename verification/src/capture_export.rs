//! Recognising the JSON files that a packet-capture export writes, so that a
//! new export can replace the older ones.
use vstd::prelude::*;
use crate::text::{decimal, digit_char, is_digit, digit_value, push_str, to_chars};
use crate::clock::{civil_date, is_leap, lemma_decimal_len, month_day, month_len, padded, timestamp_spec, year_len};

verus! {

/// File names of capture exports start with this.
pub open spec fn export_prefix() -> Seq<char> {
    seq!['g', 'e', 'n', 's', 'h', 'i', 'n', '_', 'e', 'x', 'p', 'o', 'r', 't', '_']
}

/// File names of capture exports end with this.
pub open spec fn export_suffix() -> Seq<char> {
    seq!['.', 'j', 's', 'o', 'n']
}

/// The number written by the two digits at `t[i]`, `t[i + 1]`.
pub open spec fn two_digit_value(t: Seq<char>, i: int) -> int {
    digit_value(t[i]) * 10 + digit_value(t[i + 1])
}

/// Position `i` of a `YYYY-MM-DD_hh-mm-ss` stamp holds the character it should.
pub open spec fn stamp_char_ok(t: Seq<char>, i: int) -> bool {
    if i == 4 || i == 7 || i == 13 || i == 16 {
        t[i] == '-'
    } else if i == 10 {
        t[i] == '_'
    } else {
        is_digit(t[i])
    }
}

/// `t` is a `YYYY-MM-DD_hh-mm-ss` stamp with a month in 1..=12, a day in
/// 1..=31, an hour up to 23 and minutes and seconds up to 59.
pub open spec fn is_export_stamp(t: Seq<char>) -> bool {
    &&& t.len() == 19
    &&& forall|i: int| 0 <= i < 19 ==> #[trigger] stamp_char_ok(t, i)
    &&& 1 <= two_digit_value(t, 5) <= 12
    &&& 1 <= two_digit_value(t, 8) <= 31
    &&& two_digit_value(t, 11) <= 23
    &&& two_digit_value(t, 14) <= 59
    &&& two_digit_value(t, 17) <= 59
}

/// `name` is `genshin_export_<stamp>.json` with a valid stamp.
pub open spec fn is_export_name(name: Seq<char>) -> bool {
    &&& name.len() >= export_prefix().len() + export_suffix().len()
    &&& name.take(export_prefix().len() as int) == export_prefix()
    &&& name.skip(name.len() - export_suffix().len()) == export_suffix()
    &&& is_export_stamp(
        name.subrange(export_prefix().len() as int, name.len() - export_suffix().len()),
    )
}

fn digit_of(c: char) -> (d: u8)
    requires
        is_digit(c),
    ensures
        d == digit_value(c),
        d <= 9,
{
    let n = c as u32;
    assert(n == c as int);
    (n - 48) as u8
}

/// The two-digit number at `bytes[0]`, `bytes[1]`.
fn parse_two_digits(t: &Vec<char>, i: usize) -> (v: u8)
    requires
        t@.len() == 19,
        i < 18,
        is_digit(t@[i as int]),
        is_digit(t@[i + 1]),
    ensures
        v == two_digit_value(t@, i as int),
{
    digit_of(t[i]) * 10 + digit_of(t[i + 1])
}

/// Is `t` a `YYYY-MM-DD_hh-mm-ss` stamp with plausible month, day and time?
fn is_capture_export_timestamp(t: &Vec<char>) -> (b: bool)
    ensures
        b == is_export_stamp(t@),
{
    if t.len() != 19 {
        return false;
    }
    let mut i: usize = 0;
    while i < 19
        invariant
            t@.len() == 19,
            i <= 19,
            forall|j: int| 0 <= j < i ==> #[trigger] stamp_char_ok(t@, j),
        decreases 19 - i,
    {
        let c = t[i];
        let ok = if i == 4 || i == 7 || i == 13 || i == 16 {
            c == '-'
        } else if i == 10 {
            c == '_'
        } else {
            '0' <= c && c <= '9'
        };
        if !ok {
            assert(!stamp_char_ok(t@, i as int));
            return false;
        }
        i += 1;
    }
    assert(stamp_char_ok(t@, 5) && stamp_char_ok(t@, 6));
    assert(stamp_char_ok(t@, 8) && stamp_char_ok(t@, 9));
    assert(stamp_char_ok(t@, 11) && stamp_char_ok(t@, 12));
    assert(stamp_char_ok(t@, 14) && stamp_char_ok(t@, 15));
    assert(stamp_char_ok(t@, 17) && stamp_char_ok(t@, 18));
    let month = parse_two_digits(t, 5);
    let day = parse_two_digits(t, 8);
    let hour = parse_two_digits(t, 11);
    let minute = parse_two_digits(t, 14);
    let second = parse_two_digits(t, 17);
    1 <= month && month <= 12 && 1 <= day && day <= 31 && hour <= 23 && minute <= 59 && second
        <= 59
}

/// Does `file_name` name a file that a capture export wrote
/// (`genshin_export_YYYY-MM-DD_hh-mm-ss.json`)?
pub fn is_generated_capture_export_filename(file_name: &str) -> (b: bool)
    ensures
        b == is_export_name(file_name@),
{
    let name = to_chars(file_name);
    let prefix = to_chars("genshin_export_");
    let suffix = to_chars(".json");
    proof {
        reveal_strlit("genshin_export_");
        reveal_strlit(".json");
        assert(prefix@ =~= export_prefix());
        assert(suffix@ =~= export_suffix());
    }
    if name.len() < 20 {
        return false;
    }
    let mut i: usize = 0;
    while i < 15
        invariant
            i <= 15,
            name@.len() >= 20,
            name@ == file_name@,
            prefix@ == export_prefix(),
            forall|j: int| 0 <= j < i ==> name@[j] == prefix@[j],
        decreases 15 - i,
    {
        if name[i] != prefix[i] {
            assert(name@.take(15)[i as int] != export_prefix()[i as int]);
            assert(name@.take(export_prefix().len() as int) != export_prefix());
            return false;
        }
        i += 1;
    }
    assert(name@.take(15) =~= export_prefix());
    let n = name.len();
    let mut k: usize = 0;
    while k < 5
        invariant
            k <= 5,
            n == name@.len(),
            n >= 20,
            name@ == file_name@,
            suffix@ == export_suffix(),
            forall|j: int| 0 <= j < k ==> name@[n - 5 + j] == suffix@[j],
        decreases 5 - k,
    {
        if name[n - 5 + k] != suffix[k] {
            assert(name@.skip(n - 5)[k as int] != export_suffix()[k as int]);
            assert(name@.skip(name@.len() - export_suffix().len()) != export_suffix());
            return false;
        }
        k += 1;
    }
    assert(name@.skip(n - 5) =~= export_suffix());
    let mut stamp: Vec<char> = Vec::new();
    let mut p: usize = 15;
    while p < n - 5
        invariant
            15 <= p <= n - 5,
            n == name@.len(),
            n >= 20,
            stamp@ == name@.subrange(15, p as int),
        decreases n - 5 - p,
    {
        stamp.push(name[p]);
        p += 1;
        assert(stamp@ =~= name@.subrange(15, p as int));
    }
    is_capture_export_timestamp(&stamp)
}


/// The file name of a capture export written at `timestamp`.
pub fn capture_export_filename(timestamp: &str) -> (r: String)
    ensures
        r@ == export_prefix() + timestamp@ + export_suffix(),
{
    let mut s = String::new();
    push_str(&mut s, "genshin_export_");
    push_str(&mut s, timestamp);
    push_str(&mut s, ".json");
    proof {
        reveal_strlit("genshin_export_");
        reveal_strlit(".json");
    }
    assert(s@ =~= export_prefix() + timestamp@ + export_suffix());
    s
}

proof fn lemma_digit_char(d: int)
    requires
        0 <= d < 10,
    ensures
        is_digit(digit_char(d)),
        digit_value(digit_char(d)) == d,
{
}

proof fn lemma_decimal_digits(n: nat)
    ensures
        forall|i: int| 0 <= i < decimal(n).len() ==> is_digit(#[trigger] decimal(n)[i]),
    decreases n,
{
    if n >= 10 {
        lemma_decimal_digits(n / 10);
        lemma_digit_char((n % 10) as int);
        let p = decimal(n / 10);
        assert forall|i: int| 0 <= i < decimal(n).len() implies is_digit(#[trigger] decimal(n)[i]) by {
            if i < p.len() {
                assert(decimal(n)[i] == p[i]);
            }
        }
    } else {
        lemma_digit_char(n as int);
    }
}

proof fn lemma_padded2(n: nat)
    requires
        n < 100,
    ensures
        padded(n, 2).len() == 2,
        is_digit(padded(n, 2)[0]),
        is_digit(padded(n, 2)[1]),
        digit_value(padded(n, 2)[0]) * 10 + digit_value(padded(n, 2)[1]) == n,
{
    lemma_decimal_len(n);
    if n < 10 {
        lemma_digit_char(n as int);
        assert(padded(n, 1) == decimal(n));
        assert(padded(n, 2) == seq!['0'] + decimal(n));
    } else {
        lemma_decimal_len(n / 10);
        lemma_digit_char((n / 10) as int);
        lemma_digit_char((n % 10) as int);
        assert(decimal(n / 10) == seq![digit_char((n / 10) as int)]);
        assert(padded(n, 2) == decimal(n));
    }
}

proof fn lemma_padded4(y: nat)
    requires
        1000 <= y < 10000,
    ensures
        padded(y, 4).len() == 4,
        forall|i: int| 0 <= i < 4 ==> is_digit(#[trigger] padded(y, 4)[i]),
{
    lemma_decimal_len(y);
    lemma_decimal_len(y / 10);
    lemma_decimal_len(y / 100);
    lemma_decimal_len(y / 1000);
    lemma_decimal_digits(y);
    assert(padded(y, 4) == decimal(y));
}

/// Days of months `m` to 12 of a year.
pub open spec fn months_from(m: nat, leap: bool) -> nat
    decreases 13 - m,
{
    if m > 12 {
        0
    } else {
        month_len(m, leap) + months_from(m + 1, leap)
    }
}

proof fn lemma_month_day(d: nat, leap: bool, m: nat)
    requires
        1 <= m <= 12,
        d < months_from(m, leap),
    ensures
        1 <= month_day(d, leap, m).0 <= 12,
        month_day(d, leap, m).1 < month_len(month_day(d, leap, m).0, leap),
    decreases 13 - m,
{
    if d >= month_len(m, leap) {
        if m == 12 {
            assert(months_from(13, leap) == 0);
        } else {
            lemma_month_day((d - month_len(m, leap)) as nat, leap, m + 1);
        }
    }
}

proof fn lemma_year_months(leap: bool)
    ensures
        months_from(1, leap) == if leap {
            366nat
        } else {
            365nat
        },
{
    reveal_with_fuel(months_from, 13);
}

proof fn lemma_civil_date(days: nat, y: nat)
    ensures
        civil_date(days, y).0 >= y,
        1 <= civil_date(days, y).1 <= 12,
        civil_date(days, y).2 < 31,
    decreases days,
{
    if days < year_len(y) {
        lemma_year_months(is_leap(y));
        lemma_month_day(days, is_leap(y), 1);
        let (m, d) = month_day(days, is_leap(y), 1);
        assert(month_len(m, is_leap(y)) <= 31);
    } else {
        lemma_civil_date((days - year_len(y)) as nat, y + 1);
    }
}

/// The number of days from the start of year `y` to the start of year `to`.
pub open spec fn days_until(y: nat, to: nat) -> nat
    decreases to - y,
{
    if y >= to {
        0
    } else {
        year_len(y) + days_until(y + 1, to)
    }
}

/// Leap years from year 1 to year `n`.
pub open spec fn leaps(n: int) -> int {
    n / 4 - n / 100 + n / 400
}

proof fn lemma_leap_step(y: int)
    requires
        y >= 1,
    ensures
        leaps(y) - leaps(y - 1) == if is_leap(y as nat) {
            1int
        } else {
            0
        },
{
    assert(y / 4 - (y - 1) / 4 == if y % 4 == 0 { 1int } else { 0 }) by (nonlinear_arith)
        requires y >= 1;
    assert(y / 100 - (y - 1) / 100 == if y % 100 == 0 { 1int } else { 0 }) by (nonlinear_arith)
        requires y >= 1;
    assert(y / 400 - (y - 1) / 400 == if y % 400 == 0 { 1int } else { 0 }) by (nonlinear_arith)
        requires y >= 1;
    assert(y % 400 == 0 ==> y % 100 == 0 && y % 4 == 0) by (nonlinear_arith)
        requires y >= 1;
    assert(y % 100 == 0 ==> y % 4 == 0) by (nonlinear_arith)
        requires y >= 1;
}

proof fn lemma_days_until(y: nat)
    requires
        1 <= y <= 10000,
    ensures
        days_until(y, 10000) == 365 * (10000 - y) + leaps(9999) - leaps(y - 1),
    decreases 10000 - y,
{
    if y < 10000 {
        lemma_days_until(y + 1);
        lemma_leap_step(y as int);
    }
}

proof fn lemma_year_before(days: nat, y: nat, to: nat)
    requires
        days < days_until(y, to),
    ensures
        civil_date(days, y).0 < to,
    decreases days,
{
    if days >= year_len(y) {
        lemma_year_before((days - year_len(y)) as nat, y + 1, to);
    }
}

/// A Unix time before 253402300800 seconds (10000-01-01) falls in a year
/// below 10000.
pub proof fn lemma_before_year_10000(secs: nat)
    requires
        secs < 253402300800,
    ensures
        civil_date(secs / 86400, 1970).0 < 10000,
{
    lemma_days_until(1970);
    assert(leaps(9999) == 2424 && leaps(1969) == 477);
    assert(days_until(1970, 10000) == 2932897);
    assert(secs / 86400 < 2932897) by (nonlinear_arith)
        requires secs < 253402300800;
    lemma_year_before(secs / 86400, 1970, 10000);
}

/// Every capture export written before the year 10000 (a clock below
/// 253402300800 seconds) has a file name that is recognised as a capture
/// export, so that a newer export can replace it.
pub proof fn generated_exports_are_recognised(secs: nat)
    requires
        secs < 253402300800,
    ensures
        is_export_name(export_prefix() + timestamp_spec(secs) + export_suffix()),
{
    lemma_before_year_10000(secs);
    reveal_strlit("-");
    reveal_strlit("_");
    let days = secs / 86400;
    let rem = secs % 86400;
    lemma_civil_date(days, 1970);
    let (y, m, d) = civil_date(days, 1970);
    lemma_padded4(y);
    lemma_padded2(m);
    lemma_padded2(d + 1);
    lemma_padded2(rem / 3600);
    lemma_padded2((rem % 3600) / 60);
    lemma_padded2(rem % 60);
    let t = timestamp_spec(secs);
    let py = padded(y, 4);
    let pm = padded(m, 2);
    let pd = padded(d + 1, 2);
    let ph = padded(rem / 3600, 2);
    let pmi = padded((rem % 3600) / 60, 2);
    let ps = padded(rem % 60, 2);
    let flat = seq![
        py[0], py[1], py[2], py[3], '-', pm[0], pm[1], '-', pd[0], pd[1], '_', ph[0], ph[1], '-',
        pmi[0], pmi[1], '-', ps[0], ps[1],
    ];
    assert(t =~= flat);
    assert forall|i: int| 0 <= i < 19 implies #[trigger] stamp_char_ok(t, i) by {
        assert(t[i] == flat[i]);
    }
    let name = export_prefix() + t + export_suffix();
    assert(name.take(15) =~= export_prefix());
    assert(name.skip(name.len() - 5) =~= export_suffix());
    assert(name.subrange(15, name.len() - 5) =~= t);
}

} // verus!
