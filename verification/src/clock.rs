//! Wall-clock time: the Unix time, cache freshness, and the timestamps
//! written into file names.
use vstd::prelude::*;
use crate::text::{decimal, push_char, push_decimal, push_str};

verus! {

/// A point in time as the system clock gives it (`std::time::SystemTime`).
#[verifier::external_type_specification]
#[verifier::external_body]
pub struct ExSystemTime(std::time::SystemTime);

/// Calls `SystemTime::now`: the system clock's current time, of which
/// nothing is claimed.
#[verifier::external_body]
fn system_now() -> std::time::SystemTime {
    std::time::SystemTime::now()
}

/// Calls `SystemTime::duration_since(UNIX_EPOCH)`: the time elapsed since
/// 1970-01-01 00:00 UTC, none (the call's error) for a time before it.
/// Nothing is claimed of the duration itself.
#[verifier::external_body]
fn since_epoch(t: &std::time::SystemTime) -> Option<std::time::Duration> {
    match t.duration_since(std::time::UNIX_EPOCH) {
        Ok(d) => Some(d),
        Err(_) => None,
    }
}

/// Calls `Duration::as_secs`: the whole seconds of `d`, of which nothing is
/// claimed (`d` is opaque here).
#[verifier::external_body]
fn duration_secs(d: &std::time::Duration) -> u64 {
    d.as_secs()
}

/// Calls `Duration::subsec_millis`: the milliseconds of `d` past its whole
/// seconds, which the documentation says are below one thousand.
#[verifier::external_body]
fn duration_millis(d: &std::time::Duration) -> (r: u32)
    ensures
        r < 1000,
{
    d.subsec_millis()
}

/// The current Unix time: whole seconds and the milliseconds past them (0
/// and 0 when the clock reads a time before 1970).
fn unix_time() -> (r: (u64, u32))
    ensures
        r.1 < 1000,
{
    let t = system_now();
    match since_epoch(&t) {
        Some(d) => (duration_secs(&d), duration_millis(&d)),
        None => (0, 0),
    }
}

/// The current Unix time in seconds.
pub fn now() -> u64 {
    unix_time().0
}

// ---------------------------------------------------------------------------
// Cache freshness
// ---------------------------------------------------------------------------

/// When each remote resource was last fetched (Unix seconds, 0 for never).
#[derive(Clone, Copy, Debug, PartialEq, Eq, Structural)]
pub struct CacheMeta {
    pub mappings_last_fetch_time: u64,
    pub data_cache_last_fetch_time: u64,
}

impl Default for CacheMeta {
    fn default() -> (r: Self)
        ensures
            r.mappings_last_fetch_time == 0 && r.data_cache_last_fetch_time == 0,
    {
        CacheMeta { mappings_last_fetch_time: 0, data_cache_last_fetch_time: 0 }
    }
}

/// A cache fetched at `last` is fresh at `now` when it was fetched at all
/// and less than `ttl` seconds have passed (the difference taken modulo
/// 2^64, so that a fetch time after `now` counts as very old).
pub open spec fn fresh_at_spec(last: u64, ttl: u64, now: u64) -> bool {
    last > 0 && (if now >= last {
        now - last
    } else {
        now - last + 18446744073709551616
    }) < ttl
}

/// Is a cache fetched at `last` fresh at `now`?
pub fn fresh_at(last: u64, ttl: u64, now: u64) -> (b: bool)
    ensures
        b == fresh_at_spec(last, ttl, now),
{
    last > 0 && now.wrapping_sub(last) < ttl
}

/// Is a cache fetched at `last` still fresh, with a time to live of `ttl`
/// seconds? The answer is `fresh_at` at the time the clock gives.
pub fn is_fresh(last_fetch_time: u64, ttl_secs: u64) -> (b: bool)
    ensures
        exists|t: u64| b == fresh_at_spec(last_fetch_time, ttl_secs, t),
        last_fetch_time == 0 ==> !b,
{
    let t = now();
    let b = fresh_at(last_fetch_time, ttl_secs, t);
    assert(b == fresh_at_spec(last_fetch_time, ttl_secs, t));
    b
}

// ---------------------------------------------------------------------------
// Calendar dates
// ---------------------------------------------------------------------------

/// Is `y` a leap year of the Gregorian calendar?
pub open spec fn is_leap(y: nat) -> bool {
    (y % 4 == 0 && y % 100 != 0) || y % 400 == 0
}

/// Number of days of the year `y`.
pub open spec fn year_len(y: nat) -> nat {
    if is_leap(y) {
        366
    } else {
        365
    }
}

/// Number of days of month `m` (1-based) in a year that is a leap year or not.
pub open spec fn month_len(m: nat, leap: bool) -> nat {
    if m == 2 {
        if leap {
            29
        } else {
            28
        }
    } else if m == 4 || m == 6 || m == 9 || m == 11 {
        30
    } else {
        31
    }
}

/// The month (1-based) and day within it (0-based) of the `d`-th day
/// (0-based) of a year, counting from month `m` on.
pub open spec fn month_day(d: nat, leap: bool, m: nat) -> (nat, nat)
    decreases 13 - m,
{
    if m >= 13 || d < month_len(m, leap) {
        (m, d)
    } else {
        month_day((d - month_len(m, leap)) as nat, leap, m + 1)
    }
}

/// The year, month (1-based) and day of month (0-based) of the `days`-th
/// day (0-based) counted from the first day of the year `y`.
pub open spec fn civil_date(days: nat, y: nat) -> (nat, nat, nat)
    decreases days,
{
    if days < year_len(y) {
        let (m, d) = month_day(days, is_leap(y), 1);
        (y, m, d)
    } else {
        civil_date((days - year_len(y)) as nat, y + 1)
    }
}

/// `n` in decimal, padded with zeros to at least `width` digits.
pub open spec fn padded(n: nat, width: nat) -> Seq<char>
    decreases width,
{
    if decimal(n).len() >= width {
        decimal(n)
    } else {
        seq!['0'] + padded(n, (width - 1) as nat)
    }
}

pub proof fn lemma_decimal_len(n: nat)
    ensures
        decimal(n).len() >= 1,
        n < 10 ==> decimal(n).len() == 1,
        10 <= n < 100 ==> decimal(n).len() == 2,
        100 <= n < 1000 ==> decimal(n).len() == 3,
        1000 <= n ==> decimal(n).len() >= 4,
    decreases n,
{
    if n >= 10 {
        lemma_decimal_len(n / 10);
    }
}

pub(crate) fn push_padded(out: &mut String, n: u64, width: u64)
    requires
        width <= 4,
    ensures
        final(out)@ == old(out)@ + padded(n as nat, width as nat),
    decreases width,
{
    proof {
        lemma_decimal_len(n as nat);
    }
    let digits: u64 = if n < 10 {
        1
    } else if n < 100 {
        2
    } else if n < 1000 {
        3
    } else {
        4
    };
    if digits >= width {
        proof {
            assert(decimal(n as nat).len() >= width);
        }
        push_decimal(out, n);
    } else {
        let ghost before = out@;
        push_char(out, '0');
        push_padded(out, n, width - 1);
        assert(out@ =~= before + padded(n as nat, width as nat));
    }
}

/// `YYYY-MM-DD_hh-mm-ss` (UTC) for the Unix time `secs`.
pub open spec fn timestamp_spec(secs: nat) -> Seq<char> {
    let days = secs / 86400;
    let rem = secs % 86400;
    let (y, m, d) = civil_date(days, 1970);
    padded(y, 4) + "-"@ + padded(m, 2) + "-"@ + padded(d + 1, 2) + "_"@ + padded(rem / 3600, 2)
        + "-"@ + padded((rem % 3600) / 60, 2) + "-"@ + padded(rem % 60, 2)
}

fn month_len_exec(m: u64, leap: bool) -> (r: u64)
    ensures
        r == month_len(m as nat, leap),
{
    if m == 2 {
        if leap {
            29
        } else {
            28
        }
    } else if m == 4 || m == 6 || m == 9 || m == 11 {
        30
    } else {
        31
    }
}

fn month_day_exec(d: u64, leap: bool) -> (r: (u64, u64))
    ensures
        r.0 == month_day(d as nat, leap, 1).0,
        r.1 == month_day(d as nat, leap, 1).1,
        r.1 <= d,
{
    let mut m: u64 = 1;
    let mut dd: u64 = d;
    while m < 13 && dd >= month_len_exec(m, leap)
        invariant
            1 <= m <= 13,
            dd <= d,
            month_day(d as nat, leap, 1) == month_day(dd as nat, leap, m as nat),
        decreases 13 - m,
    {
        dd = dd - month_len_exec(m, leap);
        m += 1;
    }
    (m, dd)
}

fn year_len_exec(y: u64) -> (r: u64)
    ensures
        r == year_len(y as nat),
{
    if (y % 4 == 0 && y % 100 != 0) || y % 400 == 0 {
        366
    } else {
        365
    }
}

/// `YYYY-MM-DD_hh-mm-ss` (UTC) for the Unix time `secs`.
pub fn timestamp_from_secs(secs: u64) -> (s: String)
    ensures
        s@ == timestamp_spec(secs as nat),
{
    let days = secs / 86400;
    let rem = secs % 86400;
    let mut y: u64 = 1970;
    let mut d: u64 = days;
    while d >= year_len_exec(y)
        invariant
            1970 <= y <= 1970 + days,
            d <= days,
            days - d >= (y - 1970) * 365,
            civil_date(days as nat, 1970) == civil_date(d as nat, y as nat),
        decreases d,
    {
        let len = year_len_exec(y);
        d = d - len;
        y = y + 1;
    }
    let leap = (y % 4 == 0 && y % 100 != 0) || y % 400 == 0;
    let (m, dd) = month_day_exec(d, leap);
    let mut out = String::new();
    push_padded(&mut out, y, 4);
    push_str(&mut out, "-");
    push_padded(&mut out, m, 2);
    push_str(&mut out, "-");
    push_padded(&mut out, dd + 1, 2);
    push_str(&mut out, "_");
    push_padded(&mut out, rem / 3600, 2);
    push_str(&mut out, "-");
    push_padded(&mut out, (rem % 3600) / 60, 2);
    push_str(&mut out, "-");
    push_padded(&mut out, rem % 60, 2);
    assert(out@ =~= timestamp_spec(secs as nat));
    out
}

/// A timestamp for file names, `YYYY-MM-DD_hh-mm-ss` in UTC, of the current
/// time.
pub fn chrono_timestamp() -> (s: String)
    ensures
        exists|t: u64| s@ == timestamp_spec(t as nat),
{
    let t = now();
    timestamp_from_secs(t)
}

/// `hh-mm-ss_mmm` (UTC time of day) for the Unix time `secs` plus `millis`.
pub open spec fn time_of_day_spec(secs: nat, millis: nat) -> Seq<char> {
    padded((secs / 3600) % 24, 2) + "-"@ + padded((secs / 60) % 60, 2) + "-"@ + padded(
        secs % 60,
        2,
    ) + "_"@ + padded(millis, 3)
}

/// `hh-mm-ss_mmm` for a Unix time.
pub fn time_of_day_stamp(secs: u64, millis: u32) -> (s: String)
    ensures
        s@ == time_of_day_spec(secs as nat, millis as nat),
{
    let mut out = String::new();
    push_padded(&mut out, (secs / 3600) % 24, 2);
    push_str(&mut out, "-");
    push_padded(&mut out, (secs / 60) % 60, 2);
    push_str(&mut out, "-");
    push_padded(&mut out, secs % 60, 2);
    push_str(&mut out, "_");
    push_padded(&mut out, millis as u64, 3);
    assert(out@ =~= time_of_day_spec(secs as nat, millis as nat));
    out
}

/// `hh-mm-ss_mmm` of the current time, naming saved request bodies.
pub fn timestamp_string() -> (s: String)
    ensures
        exists|t: u64, ms: u32| ms < 1000 && s@ == time_of_day_spec(t as nat, ms as nat),
{
    let (secs, millis) = unix_time();
    time_of_day_stamp(secs, millis)
}

/// `hh:mm:ss` (UTC time of day) for the Unix time `secs`.
pub open spec fn clock_time_spec(secs: nat) -> Seq<char> {
    padded((secs % 86400) / 3600, 2) + ":"@ + padded(((secs % 86400) % 3600) / 60, 2) + ":"@
        + padded(secs % 60, 2)
}

/// `hh:mm:ss` for a Unix time, as log lines show it.
pub fn clock_time(secs: u64) -> (s: String)
    ensures
        s@ == clock_time_spec(secs as nat),
{
    let day = secs % 86400;
    let mut out = String::new();
    push_padded(&mut out, day / 3600, 2);
    push_str(&mut out, ":");
    push_padded(&mut out, (day % 3600) / 60, 2);
    push_str(&mut out, ":");
    push_padded(&mut out, secs % 60, 2);
    assert(out@ =~= clock_time_spec(secs as nat));
    out
}

/// `hh:mm:ss` of the current time, for log lines.
pub fn format_timestamp() -> (s: String)
    ensures
        exists|t: u64| s@ == clock_time_spec(t as nat),
{
    clock_time(now())
}

/// A cache that was never fetched is never fresh, and one fetched at the
/// current time with a positive time to live is.
pub proof fn freshness_at_fetch(now: u64, ttl: u64)
    ensures
        !fresh_at_spec(0, ttl, now),
        now > 0 && ttl > 0 ==> fresh_at_spec(now, ttl, now),
{
}

} // verus!
