//! Dates and times: what chrono reads from the clock and from texts, and the texts the service
//! shows of them.
use vstd::prelude::*;
use chrono::{Datelike, TimeZone, Timelike};
use crate::text::{decimal, digit_char, push_char, push_decimal};

verus! {

/// A decimal number written with at least four digits, zeros in front.
pub open spec fn zero_pad4(n: nat) -> Seq<char> {
    if n < 10 {
        seq!['0', '0', '0'] + decimal(n)
    } else if n < 100 {
        seq!['0', '0'] + decimal(n)
    } else if n < 1000 {
        seq!['0'] + decimal(n)
    } else {
        decimal(n)
    }
}

/// A year as chrono's `%Y` writes it: four digits from 0 to 9999, otherwise a sign and at least
/// four digits.
pub open spec fn year_text(y: int) -> Seq<char> {
    if 0 <= y <= 9999 {
        zero_pad4(y as nat)
    } else if y < 0 {
        seq!['-'] + zero_pad4((-y) as nat)
    } else {
        seq!['+'] + zero_pad4(y as nat)
    }
}

/// A number below 100 as two digits, as chrono's `%m`, `%d`, `%H`, `%M` and `%S` write it.
pub open spec fn two_digits(n: int) -> Seq<char> {
    seq![digit_char(n / 10), digit_char(n % 10)]
}

/// A date and time to the minute as `%Y-%m-%d %H:%M`.
pub open spec fn minute_text(y: int, mo: int, d: int, h: int, mi: int) -> Seq<char> {
    year_text(y) + seq!['-'] + two_digits(mo) + seq!['-'] + two_digits(d) + seq![' '] + two_digits(h) + seq![':']
        + two_digits(mi)
}

/// A date and time to the second as `%Y-%m-%d %H:%M:%S`.
pub open spec fn second_text(y: int, mo: int, d: int, h: int, mi: int, s: int) -> Seq<char> {
    minute_text(y, mo, d, h, mi) + seq![':'] + two_digits(s)
}

/// Whether month, day, hour and minute lie in their ranges.
pub open spec fn fields_in_range(mo: u32, d: u32, h: u32, mi: u32) -> bool {
    1 <= mo <= 12 && 1 <= d <= 31 && h < 24 && mi < 60
}

/// What `chrono::NaiveDateTime::parse_from_str(text, fmt)` reads from a text: year, month, day,
/// hour and minute, or nothing when the text does not match the format.
pub uninterp spec fn naive_fields(text: Seq<char>, fmt: Seq<char>) -> Option<(i32, u32, u32, u32, u32)>;

fn push_zero_pad4(s: &mut String, n: u64)
    ensures
        final(s)@ == old(s)@ + zero_pad4(n as nat),
{
    if n < 10 {
        push_char(s, '0');
        push_char(s, '0');
        push_char(s, '0');
    } else if n < 100 {
        push_char(s, '0');
        push_char(s, '0');
    } else if n < 1000 {
        push_char(s, '0');
    }
    push_decimal(s, n);
    assert(final(s)@ =~= old(s)@ + zero_pad4(n as nat));
}

fn push_year(s: &mut String, y: i32)
    ensures
        final(s)@ == old(s)@ + year_text(y as int),
{
    if 0 <= y && y <= 9999 {
        push_zero_pad4(s, y as u64);
    } else if y < 0 {
        push_char(s, '-');
        let m: u64 = (-(y as i64)) as u64;
        push_zero_pad4(s, m);
    } else {
        push_char(s, '+');
        push_zero_pad4(s, y as u64);
    }
    assert(final(s)@ =~= old(s)@ + year_text(y as int));
}

fn push_two(s: &mut String, n: u32)
    requires
        n < 100,
    ensures
        final(s)@ == old(s)@ + two_digits(n as int),
{
    push_char(s, ((n / 10) as u8 + 48) as char);
    push_char(s, ((n % 10) as u8 + 48) as char);
    assert(final(s)@ =~= old(s)@ + two_digits(n as int));
}

/// A date and time to the minute as `%Y-%m-%d %H:%M`.
pub fn minute_string(y: i32, mo: u32, d: u32, h: u32, mi: u32) -> (res: String)
    requires
        mo < 100 && d < 100 && h < 100 && mi < 100,
    ensures
        res@ == minute_text(y as int, mo as int, d as int, h as int, mi as int),
{
    let mut s = String::new();
    push_year(&mut s, y);
    push_char(&mut s, '-');
    push_two(&mut s, mo);
    push_char(&mut s, '-');
    push_two(&mut s, d);
    push_char(&mut s, ' ');
    push_two(&mut s, h);
    push_char(&mut s, ':');
    push_two(&mut s, mi);
    assert(s@ =~= minute_text(y as int, mo as int, d as int, h as int, mi as int));
    s
}

/// A date and time to the second as `%Y-%m-%d %H:%M:%S`.
pub fn second_string(y: i32, mo: u32, d: u32, h: u32, mi: u32, sec: u32) -> (res: String)
    requires
        mo < 100 && d < 100 && h < 100 && mi < 100 && sec < 100,
    ensures
        res@ == second_text(y as int, mo as int, d as int, h as int, mi as int, sec as int),
{
    let mut s = minute_string(y, mo, d, h, mi);
    push_char(&mut s, ':');
    push_two(&mut s, sec);
    assert(s@ =~= second_text(y as int, mo as int, d as int, h as int, mi as int, sec as int));
    s
}

/// `chrono::Local::now()` read as year, month, day, hour, minute, second and nanosecond.
/// Trusted to give a valid local time: month 1 to 12, day 1 to 31, hour below 24, minute and
/// second below 60, nanosecond below two billion (a leap second is kept in the nanoseconds).
/// Which time it is is not stated.
#[verifier::external_body]
fn now_fields() -> (res: (i32, u32, u32, u32, u32, u32, u32))
    ensures
        fields_in_range(res.1, res.2, res.3, res.4),
        res.5 < 60,
        res.6 < 2_000_000_000,
{
    let t = chrono::Local::now();
    (t.year(), t.month(), t.day(), t.hour(), t.minute(), t.second(), t.nanosecond())
}

/// The local time now, as `%Y-%m-%d %H:%M:%S`. Which time it is is not stated.
pub fn now_string() -> (res: String)
    ensures
        exists|y: i32, mo: u32, d: u32, h: u32, mi: u32, s: int|
            fields_in_range(mo, d, h, mi) && 0 <= s <= 60 && res@ == second_text(y as int, mo as int, d as int, h as int, mi as int, s),
{
    let (y, mo, d, h, mi, sec, nano) = now_fields();
    let shown = sec + nano / 1_000_000_000;
    second_string(y, mo, d, h, mi, shown)
}

/// `chrono::NaiveDateTime::parse_from_str(text, fmt)`, read as year, month, day, hour and
/// minute. Trusted to depend on the two texts alone, and to give a valid date and time whose
/// year lies in chrono's range (`NaiveDate`'s `MIN_YEAR` to `MAX_YEAR`).
#[verifier::external_body]
fn parse_naive(text: &str, fmt: &str) -> (res: Option<(i32, u32, u32, u32, u32)>)
    ensures
        res == naive_fields(text@, fmt@),
        res matches Some((y, mo, d, h, mi)) ==> fields_in_range(mo, d, h, mi) && year_in_range(y),
{
    chrono::NaiveDateTime::parse_from_str(text, fmt).ok().map(|t| (t.year(), t.month(), t.day(), t.hour(), t.minute()))
}

/// The instant a local date and time names in the machine's time zone, in seconds since the
/// epoch, with the zone's offset there (local minus UTC, in seconds):
/// `chrono::Local.from_local_datetime(..).single()`. Trusted, as chrono computes it, to be the
/// UTC reading of the local fields less the offset, and the offset to be under a day
/// (`FixedOffset::east_opt`). Whether the local time exists or is ambiguous, and which offset
/// applies, depend on the time zone and are not stated.
#[verifier::external_body]
fn local_timestamp(y: i32, mo: u32, d: u32, h: u32, mi: u32) -> (res: Option<(i64, i32)>)
    ensures
        res matches Some((t, off)) ==> -86400 < off < 86400 && t == utc_seconds(y as int, mo as int, d as int, h as int, mi as int) - off,
{
    let naive = chrono::NaiveDate::from_ymd_opt(y, mo, d)?.and_hms_opt(h, mi, 0)?;
    chrono::Local.from_local_datetime(&naive).single().map(|t| (t.timestamp(), t.offset().local_minus_utc()))
}

/// Whether a year lies in chrono's range of dates.
pub open spec fn year_in_range(y: i32) -> bool {
    -262143 <= y <= 262142
}

/// Days from 1970-01-01 to a date of the proleptic Gregorian calendar: March-based years, counted
/// in 400-year eras of 146097 days (shifted by 1000 eras so that every year of chrono's range
/// counts from a non-negative year).
pub open spec fn civil_days(y: int, mo: int, d: int) -> int {
    let ys = (if mo <= 2 { y - 1 } else { y }) + 400000;
    let era = ys / 400;
    let yoe = ys % 400;
    let mp = if mo > 2 { mo - 3 } else { mo + 9 };
    let doy = (153 * mp + 2) / 5 + d - 1;
    let doe = yoe * 365 + yoe / 4 - yoe / 100 + doy;
    (era - 1000) * 146097 + doe - 719468
}

/// Seconds since the epoch of a date and time read as UTC.
pub open spec fn utc_seconds(y: int, mo: int, d: int, h: int, mi: int) -> int {
    civil_days(y, mo, d) * 86400 + h * 3600 + mi * 60
}

/// Seconds since the epoch of a date and time read as UTC.
pub fn utc_seconds_of(y: i32, mo: u32, d: u32, h: u32, mi: u32) -> (res: i64)
    requires
        year_in_range(y),
        fields_in_range(mo, d, h, mi),
    ensures
        res == utc_seconds(y as int, mo as int, d as int, h as int, mi as int),
{
    let yp: i64 = if mo <= 2 { y as i64 - 1 } else { y as i64 };
    let ys: u64 = (yp + 400000) as u64;
    let era: u64 = ys / 400;
    let yoe: u64 = ys % 400;
    let mp: u64 = if mo > 2 { mo as u64 - 3 } else { mo as u64 + 9 };
    let doy: u64 = (153 * mp + 2) / 5 + d as u64 - 1;
    let doe: u64 = yoe * 365 + yoe / 4 - yoe / 100 + doy;
    assert(era <= 1656) by (nonlinear_arith)
        requires era == ys / 400, ys <= 662142;
    assert(doy <= 367);
    assert(doe <= 146100) by (nonlinear_arith)
        requires doe == yoe * 365 + yoe / 4 - yoe / 100 + doy, yoe < 400, doy <= 367;
    let days: i64 = (era as i64 - 1000) * 146097 + doe as i64 - 719468;
    days * 86400 + h as i64 * 3600 + mi as i64 * 60
}

/// A date and time read as local time with the zone's offset there: the instant is the UTC
/// reading less the offset; the text is `%Y-%m-%d %H:%M`.
pub fn local_time_at(fields: Option<(i32, u32, u32, u32, u32)>, offset: Option<i32>) -> (res: Option<(i64, String)>)
    requires
        fields matches Some((y, mo, d, h, mi)) ==> fields_in_range(mo, d, h, mi) && year_in_range(y),
        offset matches Some(off) ==> -86400 < off < 86400,
    ensures
        match (fields, offset) {
            (Some((y, mo, d, h, mi)), Some(off)) => res matches Some((t, shown))
                && t == utc_seconds(y as int, mo as int, d as int, h as int, mi as int) - off
                && shown@ == minute_text(y as int, mo as int, d as int, h as int, mi as int),
            _ => res is None,
        },
{
    match (fields, offset) {
        (Some((y, mo, d, h, mi)), Some(off)) => {
            let t = utc_seconds_of(y, mo, d, h, mi) - off as i64;
            local_time_of(fields, Some(t))
        },
        _ => None,
    }
}

/// The number of days in a month of the Gregorian calendar.
pub open spec fn days_in_month(y: int, mo: int) -> int {
    if mo == 2 {
        if (y % 4 == 0 && y % 100 != 0) || y % 400 == 0 { 29 } else { 28 }
    } else if mo == 4 || mo == 6 || mo == 9 || mo == 11 {
        30
    } else {
        31
    }
}

proof fn lemma_march_follows_february(y: int)
    requires
        -400000 < y,
    ensures
        civil_days(y, 3, 1) == civil_days(y, 2, days_in_month(y, 2)) + 1,
{
    let b = y + 400000;
    let a = b - 1;
    assert(b >= 1);
    let yb = b % 400;
    let ya = a % 400;
    assert(a / 400 * 400 + ya == a && b / 400 * 400 + yb == b) by (nonlinear_arith)
        requires a >= 0, b >= 0, ya == a % 400, yb == b % 400;
    assert(0 <= ya < 400 && 0 <= yb < 400);
    if yb == 0 {
        assert(ya == 399 && b / 400 == a / 400 + 1) by (nonlinear_arith)
            requires a / 400 * 400 + ya == a, b / 400 * 400 + yb == b, b == a + 1, yb == 0, 0 <= ya < 400;
        assert(y % 400 == 0) by (nonlinear_arith)
            requires b == y + 400000, b % 400 == 0;
    } else {
        assert(ya == yb - 1 && b / 400 == a / 400) by (nonlinear_arith)
            requires a / 400 * 400 + ya == a, b / 400 * 400 + yb == b, b == a + 1, 0 < yb < 400, 0 <= ya < 400;
        assert(y % 4 == yb % 4 && y % 100 == yb % 100 && y % 400 == yb) by (nonlinear_arith)
            requires b == y + 400000, yb == b % 400, 0 <= yb < 400;
        assert(yb / 4 - ya / 4 == (if yb % 4 == 0 { 1int } else { 0 })) by (nonlinear_arith)
            requires ya == yb - 1, 0 < yb < 400;
        assert(yb / 100 - ya / 100 == (if yb % 100 == 0 { 1int } else { 0 })) by (nonlinear_arith)
            requires ya == yb - 1, 0 < yb < 400;
    }
}

/// The calendar counts days one after another across months and years: the first of each month
/// follows the last day of the month before (29 days in February of a leap year, 28 otherwise),
/// and the first of January follows the last of December.
pub proof fn lemma_months_follow(y: int, mo: int)
    requires
        -400000 < y,
        1 <= mo <= 11,
    ensures
        civil_days(y, mo + 1, 1) == civil_days(y, mo, days_in_month(y, mo)) + 1,
        civil_days(y + 1, 1, 1) == civil_days(y, 12, 31) + 1,
{
    if mo == 2 {
        lemma_march_follows_february(y);
    }
}

/// Two local times of one day read with the same offset are as far apart as their clock
/// readings: an hour is 3600 seconds, a minute 60.
pub proof fn lemma_local_times_apart(y: int, mo: int, d: int, h1: int, m1: int, h2: int, m2: int, off: int)
    ensures
        (utc_seconds(y, mo, d, h2, m2) - off) - (utc_seconds(y, mo, d, h1, m1) - off) == (h2 - h1) * 3600 + (m2 - m1) * 60,
{
}

/// The calendar counts days one after another: the next day of a month is one day later, and
/// 1970-01-01 is day zero.
pub proof fn lemma_civil_days_follow(y: int, mo: int, d: int)
    requires
        1 <= mo <= 12,
    ensures
        civil_days(y, mo, d + 1) == civil_days(y, mo, d) + 1,
        civil_days(1970, 1, 1) == 0,
{
}

/// A time read from a text with `fmt`, placed in the machine's time zone: the instant and the
/// local time as `%Y-%m-%d %H:%M`. When the text does not match, nothing; when it matches, the
/// text shows what it read, and the instant is the UTC reading of the fields read less the
/// zone's offset there, whatever that offset is.
pub fn read_local_time(text: &str, fmt: &str) -> (res: Option<(i64, String)>)
    ensures
        match naive_fields(text@, fmt@) {
            None => res is None,
            Some((y, mo, d, h, mi)) => res matches Some((t, shown)) ==> {
                &&& shown@ == minute_text(y as int, mo as int, d as int, h as int, mi as int)
                &&& -86400 < utc_seconds(y as int, mo as int, d as int, h as int, mi as int) - t < 86400
            },
        },
{
    let fields = parse_naive(text, fmt);
    let offset = match fields {
        Some((y, mo, d, h, mi)) => match local_timestamp(y, mo, d, h, mi) {
            Some((_, off)) => Some(off),
            None => None,
        },
        None => None,
    };
    local_time_at(fields, offset)
}

/// A time read from a text, given the fields read and the instant they name: the instant and
/// the text `%Y-%m-%d %H:%M`, when both are there.
pub fn local_time_of(fields: Option<(i32, u32, u32, u32, u32)>, stamp: Option<i64>) -> (res: Option<(i64, String)>)
    requires
        fields matches Some((y, mo, d, h, mi)) ==> fields_in_range(mo, d, h, mi),
    ensures
        match (fields, stamp) {
            (Some((y, mo, d, h, mi)), Some(t)) => res matches Some((t2, shown)) && t2 == t
                && shown@ == minute_text(y as int, mo as int, d as int, h as int, mi as int),
            _ => res is None,
        },
{
    match (fields, stamp) {
        (Some((y, mo, d, h, mi)), Some(t)) => Some((t, minute_string(y, mo, d, h, mi))),
        _ => None,
    }
}

} // verus!
