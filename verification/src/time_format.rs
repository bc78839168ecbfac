//! Clock readouts and ages.

use crate::calendar::{utc_civil, CivilTime};
use crate::colors::{from_rgb, Color32};
use crate::text::{push_decimal, push_padded, push_padded_signed};
use vstd::prelude::*;
use vstd::string::*;

verus! {

/// A date and time to the millisecond.
#[derive(Clone, Copy, Debug, PartialEq, Eq, Structural)]
pub struct ClockTime {
    pub civil: CivilTime,
    pub millis: u32,
}

/// The clock in UTC at an instant, given in milliseconds from the epoch.
pub open spec fn clock_at(ms: int) -> ClockTime {
    ClockTime { civil: crate::calendar::civil_at(ms / 1000), millis: (ms % 1000) as u32 }
}

/// The clock in UTC at an instant, given in milliseconds from the epoch.
pub fn utc_clock(ms: i64) -> (c: ClockTime)
    requires
        crate::calendar::in_calendar(ms as int / 1000),
    ensures
        c == clock_at(ms as int),
{
    let (secs, millis): (i64, i64) = if ms >= 0 {
        (ms / 1000, ms % 1000)
    } else {
        let whole: i64 = ms / 1000;
        let rest: i64 = ms % 1000;
        if rest == 0 {
            (whole, 0)
        } else {
            (whole - 1, rest + 1000)
        }
    };
    assert(secs == ms as int / 1000 && millis == ms as int % 1000);
    ClockTime { civil: utc_civil(secs), millis: millis as u32 }
}

/// Hours, minutes, seconds and milliseconds.
pub open spec fn time_text(c: ClockTime) -> Seq<char> {
    crate::text::padded(c.civil.hour as nat, 2) + ":"@ + crate::text::padded(
        c.civil.minute as nat,
        2,
    ) + ":"@ + crate::text::padded(c.civil.second as nat, 2) + "."@ + crate::text::padded(
        c.millis as nat,
        3,
    )
}

fn push_time(out: &mut String, c: ClockTime)
    ensures
        final(out)@ == old(out)@ + time_text(c),
{
    push_padded(out, c.civil.hour as u64, 2);
    out.append(":");
    push_padded(out, c.civil.minute as u64, 2);
    out.append(":");
    push_padded(out, c.civil.second as u64, 2);
    out.append(".");
    push_padded(out, c.millis as u64, 3);
    assert(out@ =~= old(out)@ + time_text(c));
}

/// A time of day to the millisecond.
pub fn format_time_short(c: ClockTime) -> (s: String)
    ensures
        s@ == time_text(c),
{
    let mut s = String::new();
    push_time(&mut s, c);
    assert(s@ =~= time_text(c));
    s
}

/// A time of day to the millisecond, with its zone.
pub fn format_unix_timestamp(c: ClockTime, use_local: bool) -> (s: String)
    ensures
        s@ == time_text(c) + " "@ + (if use_local {
            "Local"@
        } else {
            "UTC"@
        }),
{
    let mut s = format_time_short(c);
    s.append(" ");
    if use_local {
        s.append("Local");
    } else {
        s.append("UTC");
    }
    s
}

/// A date and time to the millisecond; in UTC it says so.
pub fn format_unix_timestamp_with_date(c: ClockTime, use_local: bool) -> (s: String)
    ensures
        s@ == crate::text::padded_signed(c.civil.year as int, 4) + "-"@ + crate::text::padded(
            c.civil.month as nat,
            2,
        ) + "-"@ + crate::text::padded(c.civil.day as nat, 2) + " "@ + time_text(c) + (
        if use_local {
            ""@
        } else {
            " UTC"@
        }),
{
    let mut s = String::new();
    push_padded_signed(&mut s, c.civil.year as i64, 4);
    s.append("-");
    push_padded(&mut s, c.civil.month as u64, 2);
    s.append("-");
    push_padded(&mut s, c.civil.day as u64, 2);
    s.append(" ");
    push_time(&mut s, c);
    if use_local {
        s.append("");
    } else {
        s.append(" UTC");
    }
    s
}

/// A time of day on a twelve-hour clock, without saying which half.
pub open spec fn hhmm_text(hour: int, minute: int) -> Seq<char> {
    crate::text::decimal(
        if hour % 12 == 0 {
            12
        } else {
            (hour % 12) as nat
        },
    ) + ":"@ + crate::text::padded(minute as nat, 2)
}

/// A time of day on a twelve-hour clock.
pub fn format_hhmm(hour: u32, minute: u32) -> (s: String)
    ensures
        s@ == hhmm_text(hour as int, minute as int),
{
    let mut s = String::new();
    let h: u32 = hour % 12;
    push_decimal(
        &mut s,
        if h == 0 {
            12
        } else {
            h as u64
        },
    );
    s.append(":");
    push_padded(&mut s, minute as u64, 2);
    assert(s@ =~= hhmm_text(hour as int, minute as int));
    s
}

/// A twelve-hour clock never shows an hour outside 1 to 12.
pub proof fn twelve_hour_clock(hour: int, minute: int)
    requires
        0 <= hour,
        0 <= minute,
    ensures
        exists|h: nat|
            1 <= h <= 12 && hhmm_text(hour, minute) == crate::text::decimal(h) + ":"@
                + #[trigger] crate::text::padded(minute as nat, 2) && (h as int) % 12 == hour % 12,
{
    let h: nat = if hour % 12 == 0 {
        12
    } else {
        (hour % 12) as nat
    };
    assert(hhmm_text(hour, minute) == crate::text::decimal(h) + ":"@ + crate::text::padded(
        minute as nat,
        2,
    ));
}

/// Seconds in an average year.
pub const YEAR_SECS: u64 = 31_557_600;

/// An age in the two units that suit it, or the one.
pub open spec fn age_text(secs: int) -> Seq<char> {
    if secs < 60 {
        crate::text::decimal(
            if secs < 0 {
                0
            } else {
                secs as nat
            },
        ) + "s"@
    } else if secs < 3600 {
        crate::text::decimal((secs / 60) as nat) + "m"@ + crate::text::decimal((secs % 60) as nat)
            + "s"@
    } else if secs < 86400 {
        crate::text::decimal((secs / 3600) as nat) + "h"@ + crate::text::decimal(
            (secs % 3600 / 60) as nat,
        ) + "m"@
    } else if secs < 86400 * 365 {
        if secs / 86400 == 1 {
            "1 day "@ + crate::text::decimal((secs % 86400 / 3600) as nat) + "h"@
        } else {
            crate::text::decimal((secs / 86400) as nat) + " days"@
        }
    } else {
        let years = secs / (YEAR_SECS as int);
        if years == 1 {
            "1 year "@ + crate::text::decimal((secs % (YEAR_SECS as int) / 86400) as nat)
                + " days"@
        } else {
            crate::text::decimal(
                if years > u32::MAX {
                    u32::MAX as nat
                } else {
                    years as nat
                },
            ) + " years"@
        }
    }
}

/// An age in the two units that suit it, or the one.
pub fn format_age(secs: i64) -> (s: String)
    ensures
        s@ == age_text(secs as int),
{
    let mut s = String::new();
    let n: u64 = if secs < 0 {
        0
    } else {
        secs as u64
    };
    if n < 60 {
        push_decimal(&mut s, n);
        s.append("s");
    } else if n < 3600 {
        push_decimal(&mut s, n / 60);
        s.append("m");
        push_decimal(&mut s, n % 60);
        s.append("s");
    } else if n < 86400 {
        push_decimal(&mut s, n / 3600);
        s.append("h");
        push_decimal(&mut s, n % 3600 / 60);
        s.append("m");
    } else if n < 86400 * 365 {
        if n / 86400 == 1 {
            s.append("1 day ");
            push_decimal(&mut s, n % 86400 / 3600);
            s.append("h");
        } else {
            push_decimal(&mut s, n / 86400);
            s.append(" days");
        }
    } else {
        let years: u64 = n / YEAR_SECS;
        if years == 1 {
            s.append("1 year ");
            push_decimal(&mut s, n % YEAR_SECS / 86400);
            s.append(" days");
        } else {
            push_decimal(
                &mut s,
                if years > 0xffff_ffff {
                    0xffff_ffff
                } else {
                    years
                },
            );
            s.append(" years");
        }
    }
    assert(s@ =~= age_text(secs as int));
    s
}

/// Ages above this are those of the archive: an hour.
pub const ARCHIVE_AGE_THRESHOLD_MS: i64 = 3_600_000;

/// Ages above this are shown as one, not as a range: five minutes.
pub const AGE_RANGE_COLLAPSE_MS: i64 = 300_000;

/// Colour of an age in milliseconds: green up to a minute, yellow up to five,
/// red up to an hour, orange beyond.
pub open spec fn color_of_age(age_ms: int) -> Color32 {
    if age_ms > ARCHIVE_AGE_THRESHOLD_MS {
        crate::colors::rgb(255, 160, 40)
    } else if age_ms > 300_000 {
        crate::colors::rgb(255, 80, 80)
    } else if age_ms > 60_000 {
        crate::colors::rgb(255, 200, 60)
    } else {
        crate::colors::rgb(80, 220, 100)
    }
}

/// Colour of an age in milliseconds: green up to a minute, yellow up to five,
/// red up to an hour, orange beyond.
pub fn age_color(age_ms: i64) -> (c: Color32)
    ensures
        c == color_of_age(age_ms as int),
{
    if age_ms > ARCHIVE_AGE_THRESHOLD_MS {
        from_rgb(255, 160, 40)
    } else if age_ms > 300_000 {
        from_rgb(255, 80, 80)
    } else if age_ms > 60_000 {
        from_rgb(255, 200, 60)
    } else {
        from_rgb(80, 220, 100)
    }
}

/// An age in brackets: "now" below a second and a half, the age below five
/// minutes, nothing for older times or those to come.
pub open spec fn compact_age(age_ms: int) -> Option<Seq<char>> {
    if 0 <= age_ms < 1500 {
        Some("(now)"@)
    } else if 0 <= age_ms < 300_000 {
        Some("("@ + age_text(age_ms / 1000) + ")"@)
    } else {
        None
    }
}

/// The age of an instant in brackets, where it is recent.
pub fn format_age_compact(now_ms: i64, ts_ms: i64) -> (r: Option<String>)
    requires
        i64::MIN <= now_ms - ts_ms <= i64::MAX,
    ensures
        match compact_age(now_ms - ts_ms) {
            Some(t) => r is Some && r->0@ == t,
            None => r is None,
        },
{
    let age: i64 = now_ms - ts_ms;
    if age >= 0 && age < 1500 {
        Some("(now)".to_owned())
    } else if age >= 0 && age < 300_000 {
        let mut s = "(".to_owned();
        let text = format_age(age / 1000);
        s.append(text.as_str());
        s.append(")");
        Some(s)
    } else {
        None
    }
}

/// The clock tells the very instant, to the millisecond.
pub proof fn the_clock_tells_the_instant(ms: int)
    requires
        crate::calendar::in_calendar(ms / 1000),
    ensures
        crate::calendar::is_civil(clock_at(ms).civil),
        clock_at(ms).millis < 1000,
        1000 * crate::calendar::epoch_seconds(clock_at(ms).civil) + clock_at(ms).millis == ms,
{
    crate::calendar::civil_time_exists(ms / 1000);
}

/// A time is written as hours, minutes, seconds and milliseconds, each in its place:
/// each reads back as itself.
pub proof fn a_written_time_reads_back(c: ClockTime)
    requires
        crate::calendar::is_date_time(c.civil),
        c.millis < 1000,
    ensures
        time_text(c).len() == 12,
        crate::text::digits_value(time_text(c).subrange(0, 2)) == c.civil.hour,
        time_text(c)[2] == ':',
        crate::text::digits_value(time_text(c).subrange(3, 5)) == c.civil.minute,
        time_text(c)[5] == ':',
        crate::text::digits_value(time_text(c).subrange(6, 8)) == c.civil.second,
        time_text(c)[8] == '.',
        crate::text::digits_value(time_text(c).subrange(9, 12)) == c.millis,
{
    let hour = crate::text::padded(c.civil.hour as nat, 2);
    let minute = crate::text::padded(c.civil.minute as nat, 2);
    let second = crate::text::padded(c.civil.second as nat, 2);
    let millis = crate::text::padded(c.millis as nat, 3);
    crate::text::padding_fills_the_width(c.civil.hour as nat);
    crate::text::padding_fills_the_width(c.civil.minute as nat);
    crate::text::padding_fills_the_width(c.civil.second as nat);
    crate::text::padding_fills_the_width(c.millis as nat);
    crate::text::lemma_padded(c.civil.hour as nat, 2);
    crate::text::lemma_padded(c.civil.minute as nat, 2);
    crate::text::lemma_padded(c.civil.second as nat, 2);
    crate::text::lemma_padded(c.millis as nat, 3);
    reveal_strlit(":");
    reveal_strlit(".");
    assert(time_text(c).subrange(0, 2) =~= hour);
    assert(time_text(c).subrange(3, 5) =~= minute);
    assert(time_text(c).subrange(6, 8) =~= second);
    assert(time_text(c).subrange(9, 12) =~= millis);
}

/// Below an hour an age is told to the second: minutes, where there are any, and
/// the seconds over. What lies ahead has no age.
pub proof fn short_ages_are_told_to_the_second(secs: int, minutes: nat, seconds: nat)
    requires
        secs == 60 * minutes + seconds,
        minutes < 60,
        seconds < 60,
    ensures
        minutes == 0 ==> age_text(secs) == crate::text::decimal(seconds) + "s"@,
        minutes > 0 ==> age_text(secs) == crate::text::decimal(minutes) + "m"@
            + crate::text::decimal(seconds) + "s"@,
        age_text(-secs - 1) == crate::text::decimal(0) + "s"@,
{
    assert(secs / 60 == minutes);
    assert(secs % 60 == seconds);
}

/// From an hour to below a day an age is told in hours and in minutes, of which
/// there are less than sixty, and is less than a minute above what is told.
pub proof fn ages_of_hours_are_told_to_the_minute(secs: int, hours: nat, minutes: nat)
    requires
        3600 <= secs < 86_400,
        minutes < 60,
        3600 * hours + 60 * minutes <= secs < 3600 * hours + 60 * minutes + 60,
    ensures
        age_text(secs) == crate::text::decimal(hours) + "h"@ + crate::text::decimal(minutes)
            + "m"@,
{
    assert(secs / 3600 == hours);
    assert(secs % 3600 / 60 == minutes);
}

/// Every age from an hour to below a day has such hours and minutes.
pub proof fn ages_of_hours_have_hours_and_minutes(secs: int)
    requires
        3600 <= secs < 86_400,
    ensures
        exists|h: nat, m: nat|
            age_text(secs) == #[trigger] crate::text::decimal(h) + "h"@
                + #[trigger] crate::text::decimal(m) + "m"@ && 1 <= h < 24 && m < 60 && 3600 * h
                + 60 * m <= secs < 3600 * h + 60 * m + 60,
{
    let h = (secs / 3600) as nat;
    let m = (secs % 3600 / 60) as nat;
    ages_of_hours_are_told_to_the_minute(secs, h, m);
    assert(age_text(secs) == crate::text::decimal(h) + "h"@ + crate::text::decimal(m) + "m"@);
}

/// From a day to below a year of 365 days an age is told in days; that of a single
/// day to the hour.
pub proof fn ages_of_days_are_told_in_days(secs: int, days: nat, hours: nat)
    requires
        1 <= days,
        hours < 24,
        86_400 * days + 3600 * hours <= secs < 86_400 * days + 3600 * hours + 3600,
        secs < 31_536_000,
    ensures
        days == 1 ==> age_text(secs) == "1 day "@ + crate::text::decimal(hours) + "h"@,
        days > 1 ==> age_text(secs) == crate::text::decimal(days) + " days"@,
{
    assert(secs / 86400 == days);
    assert(secs % 86400 / 3600 == hours);
}

/// From there on it is told in years of 365 and a quarter days; that of a single
/// year to the day.
pub proof fn ages_of_years_are_told_in_years(secs: int, years: nat, days: nat)
    requires
        31_536_000 <= secs,
        years <= u32::MAX,
        31_557_600 * years <= secs < 31_557_600 * years + 31_557_600,
        31_557_600 * years + 86_400 * days <= secs < 31_557_600 * years + 86_400 * days + 86_400,
    ensures
        years == 1 ==> age_text(secs) == "1 year "@ + crate::text::decimal(days) + " days"@,
        years != 1 ==> age_text(secs) == crate::text::decimal(years) + " years"@,
{
    assert(secs / 31_557_600 == years);
    assert(secs % 31_557_600 / 86400 == days);
}

/// Up to a minute data is green, up to five minutes yellow, up to an hour red, and
/// older data, which is archived, amber: an age takes the colour of no older band.
pub proof fn ages_are_coloured_by_band(age_ms: int)
    ensures
        age_ms <= 60_000 <==> color_of_age(age_ms) == crate::colors::rgb(80, 220, 100),
        60_000 < age_ms <= 300_000 <==> color_of_age(age_ms) == crate::colors::rgb(255, 200, 60),
        300_000 < age_ms <= 3_600_000 <==> color_of_age(age_ms) == crate::colors::rgb(255, 80, 80),
        3_600_000 < age_ms <==> color_of_age(age_ms) == crate::colors::rgb(255, 160, 40),
{
}

/// A short age stands in brackets: `now` below a second and a half, the whole
/// seconds from there to five minutes, and nothing beyond or ahead.
pub proof fn short_ages_stand_in_brackets(age_ms: int, secs: int)
    requires
        1000 * secs <= age_ms < 1000 * secs + 1000,
    ensures
        compact_age(age_ms) is None <==> age_ms < 0 || age_ms >= 300_000,
        0 <= age_ms < 1500 ==> compact_age(age_ms) == Some("(now)"@),
        1500 <= age_ms < 300_000 ==> compact_age(age_ms) == Some(
            "("@ + age_text(secs) + ")"@,
        ),
{
    assert(age_ms / 1000 == secs);
}

/// A timestamp is the date, year first, and the time, and says where it is universal.
pub proof fn timestamps_are_date_and_time(c: ClockTime, local: String, utc: String)
    requires
        call_ensures(format_unix_timestamp_with_date, (c, true), local),
        call_ensures(format_unix_timestamp_with_date, (c, false), utc),
        crate::calendar::is_date_time(c.civil),
        0 <= c.civil.year < 10000,
    ensures
        utc@ == local@ + " UTC"@,
        local@.skip(11) == time_text(c),
        crate::text::digits_value(local@.subrange(0, 4)) == c.civil.year,
        crate::text::digits_value(local@.subrange(5, 7)) == c.civil.month,
        crate::text::digits_value(local@.subrange(8, 10)) == c.civil.day,
{
    reveal_strlit("");
    reveal_strlit("-");
    reveal_strlit(" ");
    crate::text::padding_fills_the_width(c.civil.year as nat);
    crate::text::padding_fills_the_width(c.civil.month as nat);
    crate::text::padding_fills_the_width(c.civil.day as nat);
    crate::text::lemma_padded(c.civil.year as nat, 4);
    crate::text::lemma_padded(c.civil.month as nat, 2);
    crate::text::lemma_padded(c.civil.day as nat, 2);
    assert(local@.subrange(0, 4) =~= crate::text::padded(c.civil.year as nat, 4));
    assert(local@.subrange(5, 7) =~= crate::text::padded(c.civil.month as nat, 2));
    assert(local@.subrange(8, 10) =~= crate::text::padded(c.civil.day as nat, 2));
    assert(local@.skip(11) =~= time_text(c));
    assert(utc@ =~= local@ + " UTC"@);
}

/// An age in brackets counts from then to now.
pub proof fn bracketed_ages_count_from_then_to_now(now_ms: i64, ts_ms: i64, r: Option<String>)
    requires
        i64::MIN <= now_ms - ts_ms <= i64::MAX,
        call_ensures(format_age_compact, (now_ms, ts_ms), r),
    ensures
        r is Some <==> ts_ms <= now_ms < ts_ms + 300_000,
        ts_ms <= now_ms < ts_ms + 1500 ==> r->0@ == "(now)"@,
{
}

} // verus!
