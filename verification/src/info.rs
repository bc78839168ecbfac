//! The readout in the canvas's corner: the site, and the sweep on display with
//! the one before it.
//!
//! Every time and age shown is one that was measured, never a projected one.

use crate::colors::Color32;
use crate::text::push_decimal;
use crate::time_format::{age_color, format_age, AGE_RANGE_COLLAPSE_MS, ARCHIVE_AGE_THRESHOLD_MS};
use vstd::prelude::*;
use vstd::string::*;

verus! {

/// Site and product.
pub fn header_text(site: &str, product: &str) -> (s: String)
    ensures
        s@ == site@ + " \u{b7} "@ + product@,
{
    let mut s = String::new();
    s.append(site);
    s.append(" \u{b7} ");
    s.append(product);
    assert(s@ =~= site@ + " \u{b7} "@ + product@);
    s
}

/// Whether the data on display counts as archived: whether it is older than an
/// hour.
pub fn is_archive(staleness_ms: Option<i64>) -> (b: bool)
    ensures
        b == (staleness_ms is Some && staleness_ms->0 > ARCHIVE_AGE_THRESHOLD_MS),
{
    match staleness_ms {
        Some(s) => s > ARCHIVE_AGE_THRESHOLD_MS,
        None => false,
    }
}

/// The sweep being received.
#[derive(Clone, Copy, Debug)]
pub struct ActiveSweep {
    pub chunks: u32,
    pub chunks_expected: Option<u32>,
    pub radials_received: u32,
}

/// What is said of the current sweep's source: nothing outside live mode, that
/// it streams while it is short of a full turn, else that it is live.
pub open spec fn mode_tag_of(is_live: bool, active: Option<ActiveSweep>) -> Option<Seq<char>> {
    if !is_live {
        None
    } else if active is Some && active->0.radials_received < 360 {
        Some(
            "streaming"@ + match active->0.chunks_expected {
                Some(e) => " "@ + crate::text::decimal(active->0.chunks as nat) + "/"@
                    + crate::text::decimal(e as nat),
                None => seq![],
            },
        )
    } else {
        Some("live"@)
    }
}

/// What is said of the current sweep's source.
pub fn mode_tag(is_live: bool, active: Option<ActiveSweep>) -> (r: Option<String>)
    ensures
        (match r {
            Some(s) => Some(s@),
            None => None,
        }) == mode_tag_of(is_live, active),
{
    if !is_live {
        return None;
    }
    let mut s = String::new();
    match active {
        Some(a) if a.radials_received < 360 => {
            s.append("streaming");
            if let Some(e) = a.chunks_expected {
                s.append(" ");
                push_decimal(&mut s, a.chunks as u64);
                s.append("/");
                push_decimal(&mut s, e as u64);
            }
            assert(s@ =~= mode_tag_of(is_live, active)->0);
        },
        _ => {
            s.append("live");
            assert(s@ =~= "live"@);
        },
    }
    Some(s)
}

/// A sweep's lines in the readout.
#[derive(Debug)]
pub struct SweepSection {
    pub elevation: String,
    pub time: String,
    pub age: Option<(String, Color32)>,
}

/// The line on a sweep's elevation.
pub open spec fn elevation_line(label: Seq<char>, number: Option<u8>, angle: Seq<char>) -> Seq<
    char,
> {
    match number {
        Some(n) => label + ": Elev "@ + crate::text::decimal(n as nat) + " ("@ + angle + ")"@,
        None => label + ": "@ + angle,
    }
}

/// The line on a sweep's age: from its start to its end while it is younger than
/// five minutes and the start is known, else from its end.
pub open spec fn age_line(end_ms: int, start_ms: Option<i64>, tag: Option<Seq<char>>) -> Seq<char> {
    "  Age: "@ + (if end_ms < AGE_RANGE_COLLAPSE_MS && start_ms is Some {
        crate::time_format::age_text(whole_seconds(start_ms->0 as int)) + " \u{2013} "@
            + crate::time_format::age_text(whole_seconds(end_ms))
    } else {
        crate::time_format::age_text(whole_seconds(end_ms))
    }) + match tag {
        Some(t) => " \u{b7} "@ + t,
        None => seq![],
    }
}

/// Whole seconds in a span, none in one that is negative.
pub open spec fn whole_seconds(ms: int) -> int {
    if ms < 0 {
        0
    } else {
        ms / 1000
    }
}

fn seconds_of(ms: i64) -> (r: i64)
    ensures
        r == whole_seconds(ms as int),
{
    if ms < 0 {
        0
    } else {
        ms / 1000
    }
}

impl SweepSection {
    /// Whether these are the lines of a sweep.
    pub open spec fn says(
        &self,
        label: Seq<char>,
        number: Option<u8>,
        angle: Seq<char>,
        timestamp: Seq<char>,
        end_ms: Option<i64>,
        start_ms: Option<i64>,
        tag: Option<Seq<char>>,
    ) -> bool {
        &&& self.elevation@ == elevation_line(label, number, angle)
        &&& self.time@ == "  Time: "@ + timestamp
        &&& match self.age {
            Some(a) => {
                &&& end_ms is Some
                &&& a.0@ == age_line(end_ms->0 as int, start_ms, tag)
                &&& a.1 == crate::time_format::color_of_age(end_ms->0 as int)
            },
            None => end_ms is None,
        }
    }
}

/// The lines of a sweep: its elevation, the time shown for it, and its age where
/// that is known.
pub fn sweep_section(
    label: &str,
    number: Option<u8>,
    angle: &str,
    timestamp: &str,
    end_ms: Option<i64>,
    start_ms: Option<i64>,
    tag: Option<&str>,
) -> (s: SweepSection)
    ensures
        s.says(
            label@,
            number,
            angle@,
            timestamp@,
            end_ms,
            start_ms,
            match tag {
                Some(t) => Some(t@),
                None => None,
            },
        ),
{
    let mut elevation = String::new();
    elevation.append(label);
    match number {
        Some(n) => {
            elevation.append(": Elev ");
            push_decimal(&mut elevation, n as u64);
            elevation.append(" (");
            elevation.append(angle);
            elevation.append(")");
        },
        None => {
            elevation.append(": ");
            elevation.append(angle);
        },
    }
    assert(elevation@ =~= elevation_line(label@, number, angle@));
    let mut time = String::new();
    time.append("  Time: ");
    time.append(timestamp);
    assert(time@ =~= "  Time: "@ + timestamp@);
    let age: Option<(String, Color32)> = match end_ms {
        Some(end) => {
            let mut line = String::new();
            line.append("  Age: ");
            match start_ms {
                Some(start) if end < AGE_RANGE_COLLAPSE_MS => {
                    line.append(format_age(seconds_of(start)).as_str());
                    line.append(" \u{2013} ");
                },
                _ => {},
            }
            line.append(format_age(seconds_of(end)).as_str());
            if let Some(t) = tag {
                line.append(" \u{b7} ");
                line.append(t);
            }
            assert(line@ =~= age_line(
                end as int,
                start_ms,
                match tag {
                    Some(t) => Some(t@),
                    None => None,
                },
            ));
            Some((line, age_color(end)))
        },
        None => None,
    };
    SweepSection { elevation, time, age }
}

/// A sweep that has left the display.
#[derive(Clone, Copy, Debug)]
pub struct PreviousSweep {
    pub elevation_number: u8,
    /// Thousandths of a degree.
    pub angle: i32,
    pub start_ms: i64,
    pub end_ms: i64,
}

/// A span since an instant, where that is not in the future.
pub open spec fn age_since(now_ms: int, then_ms: int) -> Option<i64> {
    if now_ms - then_ms >= 0 {
        Some((now_ms - then_ms) as i64)
    } else {
        None
    }
}

impl PreviousSweep {
    /// The instant shown for the sweep: the middle of it.
    pub fn shown_at(&self) -> (ms: i64)
        ensures
            ms == (self.start_ms + self.end_ms) / 2,
    {
        let sum: i128 = self.start_ms as i128 + self.end_ms as i128;
        let middle: i128 = if sum >= 0 {
            sum / 2
        } else {
            -((1 - sum) / 2)
        };
        middle as i64
    }

    /// The lines of the sweep, with the text of the instant shown for it.
    pub fn section(&self, timestamp: &str, now_ms: i64) -> (s: SweepSection)
        requires
            i64::MIN <= now_ms - self.start_ms <= i64::MAX,
            i64::MIN <= now_ms - self.end_ms <= i64::MAX,
        ensures
            s.says(
                "Previous"@,
                Some(self.elevation_number),
                crate::sweep::angle_text(Some(self.angle)),
                timestamp@,
                age_since(now_ms as int, self.end_ms as int),
                age_since(now_ms as int, self.start_ms as int),
                None,
            ),
    {
        let mut angle = String::new();
        crate::sweep::push_angle(&mut angle, Some(self.angle));
        assert(angle@ =~= crate::sweep::angle_text(Some(self.angle)));
        let end: i64 = now_ms - self.end_ms;
        let start: i64 = now_ms - self.start_ms;
        sweep_section(
            "Previous",
            Some(self.elevation_number),
            angle.as_str(),
            timestamp,
            if end >= 0 {
                Some(end)
            } else {
                None
            },
            if start >= 0 {
                Some(start)
            } else {
                None
            },
            None,
        )
    }
}

/// Only live data has a tag: `live`, or `streaming` while a sweep is still short of
/// its radials, with the chunks received of those expected where that is known.
pub proof fn the_tag_tells_live_from_streaming(chunks: u32, expected: u32, radials: u32)
    ensures
        ({
            let of = |e: Option<u32>|
                Some(
                    ActiveSweep { chunks, chunks_expected: e, radials_received: radials },
                );
            &&& mode_tag_of(false, of(Some(expected))) is None
            &&& mode_tag_of(false, None) is None
            &&& mode_tag_of(true, None) == Some("live"@)
            &&& radials >= 360 ==> mode_tag_of(true, of(Some(expected))) == Some("live"@)
                && mode_tag_of(true, of(None)) == Some("live"@)
            &&& radials < 360 ==> mode_tag_of(true, of(None)) == Some("streaming"@) && mode_tag_of(
                true,
                of(Some(expected)),
            ) == Some(
                "streaming"@ + (" "@ + crate::text::decimal(chunks as nat) + "/"@
                    + crate::text::decimal(expected as nat)),
            )
        }),
{
    if radials < 360 {
        assert("streaming"@ + Seq::<char>::empty() =~= "streaming"@);
    }
}

/// A sweep is named by its label, then its number where it has one, then its angle.
pub proof fn a_sweep_is_named_by_number_and_angle(label: Seq<char>, n: u8, angle: Seq<char>)
    ensures
        elevation_line(label, Some(n), angle) == label + (": Elev "@ + crate::text::decimal(
            n as nat,
        ) + " ("@ + angle + ")"@),
        elevation_line(label, None, angle) == label + (": "@ + angle),
{
    assert(elevation_line(label, Some(n), angle) =~= label + (": Elev "@ + crate::text::decimal(
        n as nat,
    ) + " ("@ + angle + ")"@));
    assert(elevation_line(label, None, angle) =~= label + (": "@ + angle));
}

/// While a sweep ended less than five minutes ago its age is a range, from the age
/// of its first radial to that of its last; later the age of its last alone is told.
pub proof fn recent_sweeps_have_a_range_of_ages(
    end_ms: int,
    start_ms: i64,
    end_secs: nat,
    start_secs: nat,
    tag: Seq<char>,
)
    requires
        1000 * end_secs <= end_ms < 1000 * end_secs + 1000,
        1000 * start_secs <= start_ms < 1000 * start_secs + 1000,
    ensures
        end_ms < 300_000 ==> age_line(end_ms, Some(start_ms), None) == "  Age: "@ + (
        crate::time_format::age_text(start_secs as int) + " \u{2013} "@
            + crate::time_format::age_text(end_secs as int)),
        end_ms >= 300_000 ==> age_line(end_ms, Some(start_ms), None) == "  Age: "@
            + crate::time_format::age_text(end_secs as int),
        age_line(end_ms, None, None) == "  Age: "@ + crate::time_format::age_text(end_secs as int),
        age_line(end_ms, Some(start_ms), Some(tag)) == age_line(end_ms, Some(start_ms), None) + (
        " \u{b7} "@ + tag),
        age_line(end_ms, None, Some(tag)) == age_line(end_ms, None, None) + (" \u{b7} "@ + tag),
{
    assert(end_ms / 1000 == end_secs);
    assert(start_ms as int / 1000 == start_secs);
    let start = crate::time_format::age_text(start_secs as int);
    let end = crate::time_format::age_text(end_secs as int);
    assert("  Age: "@ + (start + " \u{2013} "@ + end) + Seq::<char>::empty() =~= "  Age: "@ + (start
        + " \u{2013} "@ + end));
    assert("  Age: "@ + end + Seq::<char>::empty() =~= "  Age: "@ + end);
}

/// What lies in the past has the time since then as its age; what lies ahead has
/// none.
pub proof fn ages_count_from_then_to_now(now_ms: i64, then_ms: i64)
    requires
        now_ms - then_ms <= i64::MAX,
    ensures
        then_ms <= now_ms ==> age_since(now_ms as int, then_ms as int) is Some && then_ms
            + age_since(now_ms as int, then_ms as int)->0 == now_ms,
        then_ms > now_ms ==> age_since(now_ms as int, then_ms as int) is None,
{
}

/// Data counts as archived once it is more than an hour old.
pub proof fn data_is_archived_after_an_hour(age_ms: i64, old: bool, unknown: bool)
    requires
        call_ensures(is_archive, (Some(age_ms),), old),
        call_ensures(is_archive, (None::<i64>,), unknown),
    ensures
        old <==> age_ms > 60 * 60 * 1000,
        !unknown,
{
}

/// The sweep before is dated to the middle of its time.
pub proof fn the_previous_sweep_is_dated_to_its_middle(p: &PreviousSweep, ms: i64)
    requires
        p.start_ms <= p.end_ms,
        call_ensures(PreviousSweep::shown_at, (p,), ms),
    ensures
        p.start_ms <= ms <= p.end_ms,
        0 <= (p.end_ms - ms) - (ms - p.start_ms) <= 1,
{
}

/// The section on the sweep before tells its age from its start to its end, as of now.
pub proof fn the_previous_section_tells_both_ages(
    p: &PreviousSweep,
    timestamp: &str,
    now_ms: i64,
    s: SweepSection,
)
    requires
        i64::MIN <= now_ms - p.start_ms <= i64::MAX,
        i64::MIN <= now_ms - p.end_ms <= i64::MAX,
        p.start_ms <= p.end_ms <= now_ms,
        call_ensures(PreviousSweep::section, (p, timestamp, now_ms), s),
    ensures
        match s.age {
            Some((text, color)) => {
                &&& text@ == age_line(
                    now_ms - p.end_ms,
                    Some((now_ms - p.start_ms) as i64),
                    None,
                )
                &&& color == crate::time_format::color_of_age(now_ms - p.end_ms)
            },
            None => false,
        },
        s.time@ == "  Time: "@ + timestamp@,
        s.elevation@ == elevation_line(
            "Previous"@,
            Some(p.elevation_number),
            crate::sweep::angle_text(Some(p.angle)),
        ),
{
}

/// An age below zero counts as none.
pub proof fn ages_below_zero_count_as_none(end_ms: int, tag: Option<Seq<char>>)
    requires
        end_ms < 0,
    ensures
        age_line(end_ms, None, tag) == age_line(0, None, tag),
{
}

} // verus!
