//! UTC calendar time: what instant a date and time names, and back.
//!
//! The calendar itself is the `chrono` crate's. Its calls stand behind the
//! wrappers at the end of this file; what they return is stated here over the
//! proleptic Gregorian calendar, in which the year 0 is 1 BCE.

use crate::text::{padded, padded_signed};
use chrono::{DateTime, Datelike, LocalResult, NaiveDate, NaiveDateTime, TimeZone, Timelike, Utc};
use vstd::prelude::*;

verus! {

/// A date and a time of day, to the second.
#[derive(Clone, Copy, Debug, PartialEq, Eq, Structural)]
pub struct CivilTime {
    pub year: i32,
    pub month: u32,
    pub day: u32,
    pub hour: u32,
    pub minute: u32,
    pub second: u32,
}

pub open spec fn is_leap(year: int) -> bool {
    year % 4 == 0 && (year % 100 != 0 || year % 400 == 0)
}

pub open spec fn days_in_month(year: int, month: int) -> int {
    if month == 2 {
        if is_leap(year) {
            29
        } else {
            28
        }
    } else if month == 4 || month == 6 || month == 9 || month == 11 {
        30
    } else {
        31
    }
}

/// Days from January 1 to the first of the month.
pub open spec fn days_before_month(year: int, month: int) -> int
    decreases month,
{
    if month <= 1 {
        0
    } else {
        days_before_month(year, month - 1) + days_in_month(year, month - 1)
    }
}

/// Days from January 1 of the year 1 to January 1 of `year`.
pub open spec fn days_before_year(year: int) -> int {
    365 * (year - 1) + (year - 1) / 4 - (year - 1) / 100 + (year - 1) / 400
}

/// Days from January 1, 1970.
pub open spec fn epoch_day(year: int, month: int, day: int) -> int {
    days_before_year(year) - days_before_year(1970) + days_before_month(year, month) + day - 1
}

/// Seconds from January 1, 1970 00:00:00 UTC.
pub open spec fn epoch_seconds(c: CivilTime) -> int {
    epoch_day(c.year as int, c.month as int, c.day as int) * 86400 + c.hour * 3600 + c.minute * 60
        + c.second
}

/// Whether the date and the time of day exist, in a year that the calendar
/// covers.
pub open spec fn is_civil(c: CivilTime) -> bool {
    &&& -262143 <= c.year <= 262142
    &&& is_date_time(c)
}

/// Whether the date and the time of day exist, in whatever year.
pub open spec fn is_date_time(c: CivilTime) -> bool {
    &&& 1 <= c.month <= 12
    &&& 1 <= c.day <= days_in_month(c.year as int, c.month as int)
    &&& c.hour < 24
    &&& c.minute < 60
    &&& c.second < 60
}

/// Whether the date and the time of day exist, in whatever year.
pub fn date_time_exists(c: CivilTime) -> (b: bool)
    ensures
        b == is_date_time(c),
{
    // The calendar repeats every 400 years.
    let y: u64 = (c.year as i64 + 2_400_000_000) as u64;
    let leap = y % 4 == 0 && (y % 100 != 0 || y % 400 == 0);
    assert(y % 4 == (c.year as int) % 4) by {
        vstd::arithmetic::div_mod::lemma_mod_multiples_vanish(600_000_000, c.year as int, 4);
    }
    assert(y % 100 == (c.year as int) % 100) by {
        vstd::arithmetic::div_mod::lemma_mod_multiples_vanish(24_000_000, c.year as int, 100);
    }
    assert(y % 400 == (c.year as int) % 400) by {
        vstd::arithmetic::div_mod::lemma_mod_multiples_vanish(6_000_000, c.year as int, 400);
    }
    assert(leap == is_leap(c.year as int));
    let days: u32 = if c.month == 2 {
        if leap {
            29
        } else {
            28
        }
    } else if c.month == 4 || c.month == 6 || c.month == 9 || c.month == 11 {
        30
    } else {
        31
    };
    1 <= c.month && c.month <= 12 && 1 <= c.day && c.day <= days && c.hour < 24 && c.minute < 60
        && c.second < 60
}

/// The seconds that the calendar covers: from the first second of the year
/// -262143 to the last of the year 262142.
pub open spec fn in_calendar(secs: int) -> bool {
    epoch_day(-262143, 1, 1) * 86400 <= secs < epoch_day(262143, 1, 1) * 86400
}

/// One field of a format: the year with at least four digits (and a sign
/// outside 0..=9999), the others with two.
pub open spec fn format_field(f: char, c: CivilTime) -> Seq<char> {
    if f == 'Y' {
        if c.year > 9999 {
            seq!['+'] + padded(c.year as nat, 4)
        } else {
            padded_signed(
                c.year as int,
                if c.year < 0 {
                    5
                } else {
                    4
                },
            )
        }
    } else if f == 'm' {
        padded(c.month as nat, 2)
    } else if f == 'd' {
        padded(c.day as nat, 2)
    } else if f == 'H' {
        padded(c.hour as nat, 2)
    } else if f == 'M' {
        padded(c.minute as nat, 2)
    } else {
        padded(c.second as nat, 2)
    }
}

pub open spec fn is_format_field(f: char) -> bool {
    f == 'Y' || f == 'm' || f == 'd' || f == 'H' || f == 'M' || f == 'S'
}

/// Whether every percent sign of a format stands before one of `YmdHMS`.
pub open spec fn is_plain_format(fmt: Seq<char>) -> bool
    decreases fmt.len(),
{
    if fmt.len() == 0 {
        true
    } else if fmt[0] == '%' {
        fmt.len() >= 2 && is_format_field(fmt[1]) && is_plain_format(fmt.skip(2))
    } else {
        is_plain_format(fmt.skip(1))
    }
}

/// The text of a format: each field replaced, every other character kept.
pub open spec fn formatted(fmt: Seq<char>, c: CivilTime) -> Seq<char>
    decreases fmt.len(),
{
    if fmt.len() == 0 {
        Seq::empty()
    } else if fmt[0] == '%' && fmt.len() >= 2 {
        format_field(fmt[1], c) + formatted(fmt.skip(2), c)
    } else {
        seq![fmt[0]] + formatted(fmt.skip(1), c)
    }
}

/// The date and time of an instant.
pub open spec fn civil_at(secs: int) -> CivilTime {
    choose|c: CivilTime| is_civil(c) && #[trigger] epoch_seconds(c) == secs
}

proof fn lemma_year_length(year: int)
    ensures
        days_before_year(year + 1) == days_before_year(year) + (if is_leap(year) {
            366int
        } else {
            365
        }),
        days_before_month(year, 13) == days_before_year(year + 1) - days_before_year(year),
{
    reveal_with_fuel(days_before_month, 14);
}

proof fn lemma_years_ascend(a: int, b: int)
    requires
        a <= b,
    ensures
        days_before_year(a) <= days_before_year(b),
    decreases b - a,
{
    if a < b {
        lemma_year_length(b - 1);
        lemma_years_ascend(a, b - 1);
    }
}

proof fn lemma_months_ascend(year: int, a: int, b: int)
    requires
        1 <= a <= b,
    ensures
        days_before_month(year, a) <= days_before_month(year, b),
    decreases b - a,
{
    if a < b {
        lemma_months_ascend(year, a, b - 1);
    }
}

proof fn lemma_day_within_year(c: CivilTime)
    requires
        is_civil(c),
    ensures
        0 <= days_before_month(c.year as int, c.month as int) + c.day - 1,
        days_before_year(c.year as int) + days_before_month(c.year as int, c.month as int) + c.day
            - 1 < days_before_year(c.year + 1),
{
    lemma_year_length(c.year as int);
    lemma_months_ascend(c.year as int, 1, c.month as int);
    lemma_months_ascend(c.year as int, c.month + 1, 13);
}

/// Two dates and times that name the same instant are the same: what
/// `civil_at` gives is the only one.
pub proof fn civil_time_is_unique(a: CivilTime, b: CivilTime)
    requires
        is_civil(a),
        is_civil(b),
        epoch_seconds(a) == epoch_seconds(b),
    ensures
        a == b,
{
    let (ya, yb) = (a.year as int, b.year as int);
    lemma_day_within_year(a);
    lemma_day_within_year(b);
    assert(epoch_day(ya, a.month as int, a.day as int) == epoch_day(
        yb,
        b.month as int,
        b.day as int,
    ));
    if ya < yb {
        lemma_years_ascend(ya + 1, yb);
    } else if yb < ya {
        lemma_years_ascend(yb + 1, ya);
    }
    assert(ya == yb);
    if a.month < b.month {
        lemma_months_ascend(ya, a.month + 1, b.month as int);
    } else if b.month < a.month {
        lemma_months_ascend(ya, b.month + 1, a.month as int);
    }
    assert(a.month == b.month);
}

proof fn lemma_year_of(d: int, lo: int, hi: int) -> (y: int)
    requires
        days_before_year(lo) <= d < days_before_year(hi),
        lo <= hi,
    ensures
        lo <= y < hi,
        days_before_year(y) <= d < days_before_year(y + 1),
    decreases hi - lo,
{
    if d >= days_before_year(hi - 1) {
        lemma_years_ascend(lo, hi);
        hi - 1
    } else {
        lemma_years_ascend(lo, hi - 1);
        lemma_year_of(d, lo, hi - 1)
    }
}

proof fn lemma_month_of(year: int, d: int, hi: int) -> (m: int)
    requires
        0 <= d < days_before_month(year, hi),
        1 <= hi,
    ensures
        1 <= m < hi,
        days_before_month(year, m) <= d < days_before_month(year, m + 1),
    decreases hi,
{
    if d >= days_before_month(year, hi - 1) {
        hi - 1
    } else {
        lemma_month_of(year, d, hi - 1)
    }
}

/// Every instant that the calendar covers has a date and time, and no other
/// instant has one.
pub proof fn civil_time_exists(secs: int)
    ensures
        in_calendar(secs) <==> exists|c: CivilTime|
            is_civil(c) && #[trigger] epoch_seconds(c) == secs,
        in_calendar(secs) ==> is_civil(civil_at(secs)) && epoch_seconds(civil_at(secs)) == secs,
{
    if in_calendar(secs) {
        let d = secs / 86400 + days_before_year(1970);
        let year = lemma_year_of(d, -262143, 262143);
        lemma_year_length(year);
        let in_year = d - days_before_year(year);
        let month = lemma_month_of(year, in_year, 13);
        let rest = secs % 86400;
        let c = CivilTime {
            year: year as i32,
            month: month as u32,
            day: (in_year - days_before_month(year, month) + 1) as u32,
            hour: (rest / 3600) as u32,
            minute: (rest % 3600 / 60) as u32,
            second: (rest % 60) as u32,
        };
        assert(rest % 3600 / 60 * 60 + rest % 60 == rest % 3600);
        assert(is_civil(c) && epoch_seconds(c) == secs);
    }
    if exists|c: CivilTime| is_civil(c) && #[trigger] epoch_seconds(c) == secs {
        let c = choose|c: CivilTime| is_civil(c) && #[trigger] epoch_seconds(c) == secs;
        lemma_day_within_year(c);
        lemma_years_ascend(-262143, c.year as int);
        lemma_years_ascend(c.year + 1, 262143);
    }
}

/// What `chrono::DateTime::parse_from_rfc3339` reads: the instant, in whole
/// seconds from the epoch.
pub uninterp spec fn rfc3339_seconds(s: Seq<char>) -> Option<i64>;

/// What `chrono::NaiveDateTime::parse_from_str` reads by a format: year,
/// month, day, hour, minute and second.
pub uninterp spec fn naive_date_time(s: Seq<char>, fmt: Seq<char>) -> Option<
    (i32, u32, u32, u32, u32, u32),
>;

/// What `chrono::NaiveDate::parse_from_str` reads by a format: year, month
/// and day.
pub uninterp spec fn naive_date(s: Seq<char>, fmt: Seq<char>) -> Option<(i32, u32, u32)>;

/// `chrono`'s `Utc.with_ymd_and_hms`, read back with `DateTime::timestamp`:
/// the instant of a date and time in UTC, or nothing where the date or the
/// time does not exist.
#[verifier::external_body]
pub(crate) fn utc_seconds(c: CivilTime) -> (r: Option<i64>)
    ensures
        r == (if is_civil(c) {
            Some(epoch_seconds(c) as i64)
        } else {
            None
        }),
{
    match Utc.with_ymd_and_hms(c.year, c.month, c.day, c.hour, c.minute, c.second) {
        LocalResult::Single(dt) => Some(dt.timestamp()),
        _ => None,
    }
}

/// `chrono`'s `Utc.timestamp_opt`, field by field: the date and time of an
/// instant in UTC. Every instant that the calendar covers has one.
#[verifier::external_body]
pub(crate) fn utc_civil(secs: i64) -> (c: CivilTime)
    requires
        in_calendar(secs as int),
    ensures
        c == civil_at(secs as int),
{
    let dt = Utc.timestamp_opt(secs, 0).unwrap();
    CivilTime {
        year: dt.year(),
        month: dt.month(),
        day: dt.day(),
        hour: dt.hour(),
        minute: dt.minute(),
        second: dt.second(),
    }
}

/// `chrono`'s `DateTime::format` on an instant in UTC, for the formats that
/// use only the fields `%Y %m %d %H %M %S`.
#[verifier::external_body]
pub(crate) fn utc_format(secs: i64, fmt: &str) -> (s: String)
    requires
        in_calendar(secs as int),
        is_plain_format(fmt@),
    ensures
        s@ == formatted(fmt@, civil_at(secs as int)),
{
    Utc.timestamp_opt(secs, 0).unwrap().format(fmt).to_string()
}

/// `chrono::DateTime::from_timestamp_millis`, read back in whole seconds: the
/// second that a millisecond lies in, where the calendar covers it.
#[verifier::external_body]
pub(crate) fn second_of_millis(millis: i64) -> (r: Option<i64>)
    ensures
        r == (if in_calendar(millis as int / 1000) {
            Some((millis as int / 1000) as i64)
        } else {
            None
        }),
{
    DateTime::from_timestamp_millis(millis).map(|dt| dt.timestamp())
}

/// `chrono::DateTime::parse_from_rfc3339`, as whole seconds from the epoch; an
/// instant that it reads is one that the calendar covers, and the text has the
/// hyphens of a date.
#[verifier::external_body]
pub(crate) fn parse_rfc3339(s: &str) -> (r: Option<i64>)
    ensures
        r == rfc3339_seconds(s@),
        r is Some ==> in_calendar(r->0 as int),
        r is Some ==> s@.contains('-'),
{
    DateTime::parse_from_rfc3339(s).ok().map(|dt| dt.timestamp())
}

/// `chrono::NaiveDateTime::parse_from_str`, field by field. A hyphen of a format
/// that uses only the fields `%Y %m %d %H %M %S` is read as itself, so that a text
/// without one is refused.
#[verifier::external_body]
pub(crate) fn parse_naive_date_time(s: &str, fmt: &str) -> (r: Option<
    (i32, u32, u32, u32, u32, u32),
>)
    ensures
        r == naive_date_time(s@, fmt@),
        r is Some && is_plain_format(fmt@) && fmt@.contains('-') ==> s@.contains('-'),
{
    NaiveDateTime::parse_from_str(s, fmt).ok().map(
        |d| (d.year(), d.month(), d.day(), d.hour(), d.minute(), d.second()),
    )
}

/// `chrono::NaiveDate::parse_from_str`, field by field. A hyphen of a format that
/// uses only the fields `%Y %m %d %H %M %S` is read as itself, so that a text
/// without one is refused.
#[verifier::external_body]
pub(crate) fn parse_naive_date(s: &str, fmt: &str) -> (r: Option<(i32, u32, u32)>)
    ensures
        r == naive_date(s@, fmt@),
        r is Some && is_plain_format(fmt@) && fmt@.contains('-') ==> s@.contains('-'),
{
    NaiveDate::parse_from_str(s, fmt).ok().map(|d| (d.year(), d.month(), d.day()))
}

proof fn lemma_formatted_char(x: char, rest: Seq<char>, c: CivilTime)
    requires
        x != '%',
    ensures
        formatted(seq![x] + rest, c) == seq![x] + formatted(rest, c),
{
    assert((seq![x] + rest).skip(1) =~= rest);
}

proof fn lemma_formatted_field(f: char, rest: Seq<char>, c: CivilTime)
    ensures
        formatted(seq!['%', f] + rest, c) == format_field(f, c) + formatted(rest, c),
{
    assert((seq!['%', f] + rest).skip(2) =~= rest);
}

/// A format writes each field where its letter stands, and the text between them as
/// it is.
pub proof fn date_and_time_are_written_in_order(rest: Seq<char>, c: CivilTime)
    requires
        0 <= c.year <= 9999,
        forall|i: int| 0 <= i < rest.len() ==> #[trigger] rest[i] != '%',
    ensures
        formatted("%Y-%m-%d %H:%M"@ + rest, c) == padded(c.year as nat, 4) + seq!['-'] + padded(
            c.month as nat,
            2,
        ) + seq!['-'] + padded(c.day as nat, 2) + seq![' '] + padded(c.hour as nat, 2) + seq![':']
            + padded(c.minute as nat, 2) + rest,
{
    reveal_strlit("%Y-%m-%d %H:%M");
    let f5 = seq!['%', 'M'] + rest;
    let f4 = seq!['%', 'H'] + (seq![':'] + f5);
    let f3 = seq!['%', 'd'] + (seq![' '] + f4);
    let f2 = seq!['%', 'm'] + (seq!['-'] + f3);
    let f1 = seq!['%', 'Y'] + (seq!['-'] + f2);
    assert("%Y-%m-%d %H:%M"@ + rest =~= f1);
    lemma_plain_text(rest, c);
    lemma_formatted_field('M', rest, c);
    lemma_formatted_char(':', f5, c);
    lemma_formatted_field('H', seq![':'] + f5, c);
    lemma_formatted_char(' ', f4, c);
    lemma_formatted_field('d', seq![' '] + f4, c);
    lemma_formatted_char('-', f3, c);
    lemma_formatted_field('m', seq!['-'] + f3, c);
    lemma_formatted_char('-', f2, c);
    lemma_formatted_field('Y', seq!['-'] + f2, c);
    assert(formatted(f1, c) =~= padded(c.year as nat, 4) + seq!['-'] + padded(c.month as nat, 2)
        + seq!['-'] + padded(c.day as nat, 2) + seq![' '] + padded(c.hour as nat, 2) + seq![':']
        + padded(c.minute as nat, 2) + rest);
}

proof fn lemma_plain_text(s: Seq<char>, c: CivilTime)
    requires
        forall|i: int| 0 <= i < s.len() ==> #[trigger] s[i] != '%',
    ensures
        formatted(s, c) == s,
    decreases s.len(),
{
    if s.len() > 0 {
        let rest = s.skip(1);
        assert forall|i: int| 0 <= i < rest.len() implies #[trigger] rest[i] != '%' by {
            assert(rest[i] == s[i + 1]);
        }
        lemma_plain_text(rest, c);
        assert(seq![s[0]] + rest =~= s);
    }
}

/// Each letter of a format stands for its own field: what it writes reads back as
/// that field.
pub proof fn fields_of_a_format_read_back(c: CivilTime)
    requires
        is_date_time(c),
        c.year > i32::MIN,
    ensures
        crate::text::parsed_i32(format_field('Y', c)) == Some(c.year as int),
        crate::text::parsed_u32(format_field('m', c)) == Some(c.month as int),
        crate::text::parsed_u32(format_field('d', c)) == Some(c.day as int),
        crate::text::parsed_u32(format_field('H', c)) == Some(c.hour as int),
        crate::text::parsed_u32(format_field('M', c)) == Some(c.minute as int),
        crate::text::parsed_u32(format_field('S', c)) == Some(c.second as int),
        format_field('m', c).len() == 2 && format_field('d', c).len() == 2,
        format_field('H', c).len() == 2 && format_field('M', c).len() == 2,
        format_field('S', c).len() == 2,
        0 <= c.year <= 9999 ==> format_field('Y', c).len() == 4,
{
    crate::text::lemma_padded_signed_reads_back(
        c.year as int,
        if c.year < 0 {
            5
        } else {
            4
        },
    );
    if c.year > 9999 {
        let body = padded(c.year as nat, 4);
        let s = seq!['+'] + body;
        crate::text::lemma_padded(c.year as nat, 4);
        assert(s.subrange(1, s.len() as int) =~= body);
    }
    if c.year >= 0 {
        crate::text::padding_fills_the_width(c.year as nat);
    }
    crate::text::lemma_padded_reads_back(c.month as nat, 2);
    crate::text::lemma_padded_reads_back(c.day as nat, 2);
    crate::text::lemma_padded_reads_back(c.hour as nat, 2);
    crate::text::lemma_padded_reads_back(c.minute as nat, 2);
    crate::text::lemma_padded_reads_back(c.second as nat, 2);
    crate::text::padding_fills_the_width(c.month as nat);
    crate::text::padding_fills_the_width(c.day as nat);
    crate::text::padding_fills_the_width(c.hour as nat);
    crate::text::padding_fills_the_width(c.minute as nat);
    crate::text::padding_fills_the_width(c.second as nat);
}

/// A year has 365 days, and 366 where four divides it, unless it ends a century
/// that four does not divide; the epoch began with the year 1970.
pub proof fn years_have_their_days(year: int)
    ensures
        epoch_day(1970, 1, 1) == 0,
        epoch_day(year + 1, 1, 1) - epoch_day(year, 1, 1) == (if year % 400 == 0 || (year % 4 == 0
            && year % 100 != 0) {
            366int
        } else {
            365
        }),
        epoch_day(year, 12, 31) + 1 == epoch_day(year + 1, 1, 1),
{
    lemma_year_length(year);
    reveal_with_fuel(days_before_month, 13);
}

/// Every day but a month's last is followed by the next day of that month, the last
/// one by the first of the next month.
pub proof fn days_follow_each_other(year: int, month: int, day: int)
    requires
        1 <= month < 12,
    ensures
        epoch_day(year, month, day + 1) == epoch_day(year, month, day) + 1,
        epoch_day(year, month + 1, 1) == epoch_day(year, month, days_in_month(year, month)) + 1,
        28 <= days_in_month(year, month) <= 31,
{
}

/// A day has 24 hours, an hour 60 minutes, a minute 60 seconds.
pub proof fn time_of_day_adds_up(c: CivilTime)
    ensures
        epoch_seconds(c) == 86_400 * epoch_day(c.year as int, c.month as int, c.day as int) + 60 * (
        60 * c.hour + c.minute) + c.second,
{
}

/// April, June, September and November have thirty days, February twenty-eight and in
/// leap years one more, all other months thirty-one.
pub proof fn months_have_their_days(year: int, month: int)
    requires
        1 <= month <= 12,
    ensures
        month == 4 || month == 6 || month == 9 || month == 11 <==> days_in_month(year, month) == 30,
        month == 2 && year % 4 != 0 ==> days_in_month(year, month) == 28,
        month == 2 && year % 100 == 0 && year % 400 != 0 ==> days_in_month(year, month) == 28,
        month == 2 && year % 4 == 0 && year % 100 != 0 ==> days_in_month(year, month) == 29,
        month == 2 && year % 400 == 0 ==> days_in_month(year, month) == 29,
        month == 1 || month == 3 || month == 5 || month == 7 || month == 8 || month == 10 || month
            == 12 ==> days_in_month(year, month) == 31,
{
    assert(year % 400 == 0 ==> year % 4 == 0 && year % 100 == 0);
}

/// A date exists whose month and day do, at a time of day before midnight.
pub proof fn dates_and_times_exist_within_bounds(c: CivilTime)
    ensures
        is_date_time(c) ==> 1 <= c.month <= 12 && 1 <= c.day <= 31 && c.hour <= 23 && c.minute <= 59
            && c.second <= 59,
        1 <= c.month <= 12 && 1 <= c.day <= days_in_month(c.year as int, c.month as int) && c.hour
            <= 23 && c.minute <= 59 && c.second <= 59 ==> is_date_time(c),
        is_civil(c) <==> is_date_time(c) && -262_143 <= c.year <= 262_142,
{
}

} // verus!
