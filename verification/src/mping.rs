//! Crowd-sourced storm reports: which markers are drawn, the popover of the
//! selected one, and the settings modal.
//!
//! Times are in milliseconds from the epoch.

use crate::binary::{divide, double_of, push_double, show_degrees};
use crate::calendar::{second_of_millis, utc_format};
use crate::colors::{from_rgb, Color32};
use crate::event_modal::BrowserTime;
use crate::geo::{GeoBounds, GeoPoint};
use crate::text::{
    push_decimal, push_padded, push_ten_thousandths, round_div, trim,
};
use vstd::prelude::*;
use vstd::string::*;

verus! {

/// What a storm report is about.
#[derive(Clone, Copy, Debug, PartialEq, Eq, Structural)]
pub enum ReportCategory {
    RainSnow,
    Hail,
    WindDamage,
    Tornado,
    Flood,
    ReducedVisibility,
    Other,
}

/// A storm report.
#[derive(Debug)]
pub struct StormReport {
    pub id: i64,
    pub obtime_ms: i64,
    pub category: ReportCategory,
    pub description: String,
    pub at: GeoPoint,
}

impl StormReport {
    /// Whether the report was made by the time that is shown: a report from
    /// later is never drawn.
    #[verifier::allow_in_spec]
    pub fn visible_at(&self, playback_ms: i64) -> bool
        returns
            self.obtime_ms <= playback_ms,
    {
        self.obtime_ms <= playback_ms
    }
}

/// How far outside the view a marker is still drawn: half a degree.
pub const REPORT_PADDING: u32 = 500_000;

/// Whether a report's marker is drawn: made by the time that is shown, within
/// the fetched window where there is one, and in view.
pub open spec fn is_drawn(
    r: StormReport,
    bounds: GeoBounds,
    window: (i64, i64),
    playback_ms: i64,
) -> bool {
    &&& r.obtime_ms <= playback_ms
    &&& window.1 > window.0 ==> window.0 <= r.obtime_ms <= window.1
    &&& bounds.holds(r.at, REPORT_PADDING as int)
}

/// The reports whose markers are drawn, in order.
pub fn drawn_reports(
    reports: &Vec<StormReport>,
    bounds: GeoBounds,
    window: (i64, i64),
    playback_ms: i64,
) -> (r: Vec<usize>)
    ensures
        crate::select::selects(
            r@,
            reports@.len() as int,
            |i: int| is_drawn(reports@[i], bounds, window, playback_ms),
        ),
{
    let ghost keep = |i: int| is_drawn(reports@[i], bounds, window, playback_ms);
    let mut r: Vec<usize> = Vec::new();
    let mut i: usize = 0;
    while i < reports.len()
        invariant
            i <= reports@.len(),
            keep == (|i: int| is_drawn(reports@[i], bounds, window, playback_ms)),
            crate::select::selects(r@, i as int, keep),
        decreases reports@.len() - i,
    {
        proof {
            crate::select::lemma_select_step(r@, i, keep);
        }
        let report = &reports[i];
        let dated = window.1 <= window.0 || (window.0 <= report.obtime_ms && report.obtime_ms
            <= window.1);
        if report.visible_at(playback_ms) && dated && bounds.contains(report.at, REPORT_PADDING) {
            r.push(i);
        }
        i += 1;
    }
    r
}

/// Radius of a marker, in tenths of a pixel; the selected one stands out.
pub fn marker_radius(id: i64, selected: Option<i64>) -> (r: u32)
    ensures
        r == (if selected == Some(id) {
            65u32
        } else {
            45
        }),
{
    match selected {
        Some(s) => if s == id {
            65
        } else {
            45
        },
        None => 45,
    }
}

/// How many of the reports are visible at a time.
pub open spec fn visible_count(reports: Seq<StormReport>, playback_ms: i64) -> int
    decreases reports.len(),
{
    if reports.len() == 0 {
        0
    } else {
        visible_count(reports.drop_last(), playback_ms) + if reports.last().obtime_ms
            <= playback_ms {
            1int
        } else {
            0
        }
    }
}

/// How many of the reports are visible at a time.
pub fn count_visible(reports: &Vec<StormReport>, playback_ms: i64) -> (n: usize)
    ensures
        n == visible_count(reports@, playback_ms),
        n <= reports@.len(),
{
    let mut n: usize = 0;
    let mut i: usize = 0;
    while i < reports.len()
        invariant
            n <= i <= reports@.len(),
            n == visible_count(reports@.take(i as int), playback_ms),
        decreases reports@.len() - i,
    {
        assert(reports@.take(i + 1).drop_last() =~= reports@.take(i as int));
        if reports[i].visible_at(playback_ms) {
            n += 1;
        }
        i += 1;
    }
    assert(reports@.take(i as int) =~= reports@);
    n
}

/// Whether `r` is the first report with the id that is visible at a time.
pub open spec fn is_selected_report(
    reports: Seq<StormReport>,
    selected: Option<i64>,
    playback_ms: i64,
    r: Option<usize>,
) -> bool {
    match r {
        Some(k) => {
            &&& selected is Some
            &&& k < reports.len()
            &&& reports[k as int].id == selected->0
            &&& reports[k as int].obtime_ms <= playback_ms
            &&& forall|j: int|
                0 <= j < k ==> !((#[trigger] reports[j]).id == selected->0
                    && reports[j].obtime_ms <= playback_ms)
        },
        None => selected is None || forall|j: int|
            0 <= j < reports.len() ==> !((#[trigger] reports[j]).id == selected->0
                && reports[j].obtime_ms <= playback_ms),
    }
}

/// The report whose popover is shown. One that lies in the future of the
/// shown time has no popover, as it has no marker.
pub fn selected_report(
    reports: &Vec<StormReport>,
    selected: Option<i64>,
    playback_ms: i64,
) -> (r: Option<usize>)
    ensures
        is_selected_report(reports@, selected, playback_ms, r),
{
    let id: i64 = match selected {
        Some(id) => id,
        None => {
            return None;
        },
    };
    let mut i: usize = 0;
    while i < reports.len()
        invariant
            i <= reports@.len(),
            selected == Some(id),
            forall|j: int|
                0 <= j < i ==> !((#[trigger] reports@[j]).id == id && reports@[j].obtime_ms
                    <= playback_ms),
        decreases reports@.len() - i,
    {
        if reports[i].id == id && reports[i].visible_at(playback_ms) {
            return Some(i);
        }
        i += 1;
    }
    None
}

// ---- the popover -----------------------------------------------------------

/// The sixteen points of the compass, clockwise from north.
pub open spec fn compass_name(i: int) -> Seq<char> {
    if i == 0 {
        "N"@
    } else if i == 1 {
        "NNE"@
    } else if i == 2 {
        "NE"@
    } else if i == 3 {
        "ENE"@
    } else if i == 4 {
        "E"@
    } else if i == 5 {
        "ESE"@
    } else if i == 6 {
        "SE"@
    } else if i == 7 {
        "SSE"@
    } else if i == 8 {
        "S"@
    } else if i == 9 {
        "SSW"@
    } else if i == 10 {
        "SW"@
    } else if i == 11 {
        "WSW"@
    } else if i == 12 {
        "W"@
    } else if i == 13 {
        "WNW"@
    } else if i == 14 {
        "NW"@
    } else {
        "NNW"@
    }
}

/// The compass point nearest to a bearing in thousandths of a degree, the
/// later one halfway between two; a negative bearing counts as north.
pub open spec fn compass_index(bearing: int) -> int {
    if bearing < 0 {
        0
    } else {
        ((2 * (bearing % 360_000) + 22_500) / 45_000) % 16
    }
}

/// The compass point of a bearing in thousandths of a degree.
pub fn compass_dir(bearing: i64) -> (r: &'static str)
    ensures
        r@ == compass_name(compass_index(bearing as int)),
{
    let idx: i64 = if bearing < 0 {
        0
    } else {
        ((2 * (bearing % 360_000) + 22_500) / 45_000) % 16
    };
    match idx {
        0 => "N",
        1 => "NNE",
        2 => "NE",
        3 => "ENE",
        4 => "E",
        5 => "ESE",
        6 => "SE",
        7 => "SSE",
        8 => "S",
        9 => "SSW",
        10 => "SW",
        11 => "WSW",
        12 => "W",
        13 => "WNW",
        14 => "NW",
        _ => "NNW",
    }
}

/// A span of time in the unit that suits it: whole seconds, whole minutes, or
/// hours with one digit behind the point.
pub open spec fn span_text(ms: int) -> Seq<char> {
    if ms < 60_000 {
        crate::text::decimal(crate::text::rounded(ms, 1000) as nat) + "s"@
    } else if ms < 3_600_000 {
        crate::text::decimal(crate::text::rounded(ms, 60_000) as nat) + "m"@
    } else {
        crate::binary::double_text(
            crate::binary::divided(crate::binary::double(ms), 3600),
        ) + "h"@
    }
}

/// Where a moment lies relative to the shown time, `delta` milliseconds off;
/// up to half a second counts as the same time.
pub open spec fn relative_text(delta: int) -> Seq<char> {
    if delta < -500 {
        span_text(-delta) + " before playback"@
    } else if delta > 500 {
        span_text(delta) + " after playback"@
    } else {
        "at playback time"@
    }
}

/// Where a moment lies relative to the shown time.
pub fn format_relative(delta_ms: i64) -> (s: String)
    requires
        delta_ms > i64::MIN,
    ensures
        s@ == relative_text(delta_ms as int),
{
    let abs: u64 = if delta_ms < 0 {
        (-delta_ms) as u64
    } else {
        delta_ms as u64
    };
    let mut s = String::new();
    if delta_ms >= -500 && delta_ms <= 500 {
        s.append("at playback time");
        return s;
    }
    if abs < 60_000 {
        push_decimal(&mut s, round_div(abs, 1000));
        s.append("s");
    } else if abs < 3_600_000 {
        push_decimal(&mut s, round_div(abs, 60_000));
        s.append("m");
    } else {
        push_double(&mut s, divide(double_of(abs), 3600));
        s.append("h");
    }
    assert(s@ =~= span_text(abs as int));
    if delta_ms < 0 {
        s.append(" before playback");
    } else {
        s.append(" after playback");
    }
    s
}

/// When a report was made, in UTC.
pub open spec fn obtime_text(ts_ms: int) -> Seq<char> {
    if crate::calendar::in_calendar(ts_ms / 1000) {
        crate::calendar::formatted(
            "%Y-%m-%d %H:%M UTC"@,
            crate::calendar::civil_at(ts_ms / 1000),
        )
    } else {
        "unknown"@
    }
}

/// When a report was made, in UTC.
pub fn format_obtime(ts_ms: i64) -> (s: String)
    ensures
        s@ == obtime_text(ts_ms as int),
{
    match second_of_millis(ts_ms) {
        Some(secs) => {
            proof {
                reveal_strlit("%Y-%m-%d %H:%M UTC");
                lemma_obtime_format();
            }
            utc_format(secs, "%Y-%m-%d %H:%M UTC")
        },
        None => "unknown".to_owned(),
    }
}

proof fn lemma_obtime_format()
    ensures
        crate::calendar::is_plain_format("%Y-%m-%d %H:%M UTC"@),
{
    reveal_strlit("%Y-%m-%d %H:%M UTC");
    reveal_with_fuel(crate::calendar::is_plain_format, 20);
    let f = "%Y-%m-%d %H:%M UTC"@;
    assert(f.len() == 18);
    assert(f.skip(2).skip(1) =~= f.skip(3));
    assert(f.skip(3).skip(2) =~= f.skip(5));
    assert(f.skip(5).skip(1) =~= f.skip(6));
    assert(f.skip(6).skip(2) =~= f.skip(8));
    assert(f.skip(8).skip(1) =~= f.skip(9));
    assert(f.skip(9).skip(2) =~= f.skip(11));
    assert(f.skip(11).skip(1) =~= f.skip(12));
    assert(f.skip(12).skip(2) =~= f.skip(14));
    assert(f.skip(14).skip(1) =~= f.skip(15));
    assert(f.skip(15).skip(1) =~= f.skip(16));
    assert(f.skip(16).skip(1) =~= f.skip(17));
    assert(f.skip(17).skip(1) =~= f.skip(18));
    assert(f.skip(18) =~= Seq::<char>::empty());
}

/// When a report was made, in the viewer's zone.
pub fn format_obtime_local(t: BrowserTime) -> (s: String)
    requires
        t.month0 < 12,
    ensures
        s@ == crate::text::padded(t.year as nat, 4) + "-"@ + crate::text::padded(
            (t.month0 + 1) as nat,
            2,
        ) + "-"@ + crate::text::padded(t.day as nat, 2) + " "@ + crate::text::padded(
            t.hour as nat,
            2,
        ) + ":"@ + crate::text::padded(t.minute as nat, 2) + " local"@,
{
    let mut s = String::new();
    push_padded(&mut s, t.year as u64, 4);
    s.append("-");
    push_padded(&mut s, t.month0 as u64 + 1, 2);
    s.append("-");
    push_padded(&mut s, t.day as u64, 2);
    s.append(" ");
    push_padded(&mut s, t.hour as u64, 2);
    s.append(":");
    push_padded(&mut s, t.minute as u64, 2);
    s.append(" local");
    s
}

/// A coordinate in degrees to four digits, with the letter of its side.
pub open spec fn coordinate_text(v: int, positive: Seq<char>, negative: Seq<char>) -> Seq<char> {
    let magnitude = if v < 0 {
        -v
    } else {
        v
    };
    crate::text::ten_thousandths(crate::binary::shown_degrees(magnitude) as nat) + "\u{00B0}"@ + if v
        >= 0 {
        positive
    } else {
        negative
    }
}

fn push_coordinate(out: &mut String, v: i64, positive: &str, negative: &str)
    requires
        v > i64::MIN,
    ensures
        final(out)@ == old(out)@ + coordinate_text(v as int, positive@, negative@),
{
    let magnitude: u64 = if v < 0 {
        (-v) as u64
    } else {
        v as u64
    };
    push_ten_thousandths(out, show_degrees(magnitude));
    out.append("\u{00B0}");
    if v >= 0 {
        out.append(positive);
    } else {
        out.append(negative);
    }
    assert(out@ =~= old(out)@ + coordinate_text(v as int, positive@, negative@));
}

/// The lines of a report's popover below its heading: what was seen (the
/// category where the report does not say), when, when relative to the shown
/// time, where from the radar, and where on the map.
pub open spec fn detail_line(
    r: StormReport,
    category: Seq<char>,
    made: Seq<char>,
    playback_ms: int,
    range_m: int,
    bearing: int,
    i: int,
) -> Seq<char> {
    if i == 0 {
        category
    } else if i == 1 {
        if r.description@.len() == 0 {
            category
        } else {
            r.description@
        }
    } else if i == 2 {
        made
    } else if i == 3 {
        relative_text(r.obtime_ms - playback_ms)
    } else if i == 4 {
        crate::binary::double_text(crate::binary::double(range_m)) + " km "@ + compass_name(compass_index(bearing))
            + " of radar"@
    } else {
        coordinate_text(r.at.lat as int, "N"@, "S"@) + " "@ + coordinate_text(
            r.at.lon as int,
            "E"@,
            "W"@,
        )
    }
}

/// The lines of a report's popover; the first one is its heading.
///
/// `made` is when the report was made, `range_m` and `bearing` place it
/// from the radar.
pub fn detail_lines(
    report: &StormReport,
    category: &str,
    made: &str,
    playback_ms: i64,
    range_m: u64,
    bearing: i64,
) -> (lines: Vec<String>)
    requires
        i64::MIN < report.obtime_ms - playback_ms <= i64::MAX,
        report.at.lat > i64::MIN,
        report.at.lon > i64::MIN,
    ensures
        lines@.len() == 6,
        forall|i: int|
            0 <= i < 6 ==> (#[trigger] lines@[i])@ == detail_line(
                *report,
                category@,
                made@,
                playback_ms as int,
                range_m as int,
                bearing as int,
                i,
            ),
{
    let mut lines: Vec<String> = Vec::new();
    lines.push(category.to_owned());
    if report.description.as_str().is_empty() {
        lines.push(category.to_owned());
    } else {
        lines.push(report.description.clone());
    }
    lines.push(made.to_owned());
    lines.push(format_relative(report.obtime_ms - playback_ms));
    let mut place = String::new();
    push_double(&mut place, double_of(range_m));
    place.append(" km ");
    place.append(compass_dir(bearing));
    place.append(" of radar");
    assert(place@ =~= crate::binary::double_text(crate::binary::double(range_m as int)) + " km "@
        + compass_name(compass_index(bearing as int)) + " of radar"@);
    lines.push(place);
    let mut at = String::new();
    push_coordinate(&mut at, report.at.lat, "N", "S");
    at.append(" ");
    push_coordinate(&mut at, report.at.lon, "E", "W");
    assert(at@ =~= coordinate_text(report.at.lat as int, "N"@, "S"@) + " "@ + coordinate_text(
        report.at.lon as int,
        "E"@,
        "W"@,
    ));
    lines.push(at);
    lines
}

/// A rectangle on the screen, in thousandths of a pixel.
#[derive(Clone, Copy, Debug, PartialEq, Eq, Structural)]
pub struct ScreenRect {
    pub left: i64,
    pub top: i64,
    pub right: i64,
    pub bottom: i64,
}

/// Where the popover's left edge lies: right of the marker, left of it where it
/// would leave the canvas, and never left of the canvas.
pub open spec fn popover_left(marker_x: int, width: int, canvas: ScreenRect) -> int {
    let right_side = marker_x + 12_000;
    let chosen = if right_side + width > canvas.right - 4_000 {
        marker_x - width - 12_000
    } else {
        right_side
    };
    if chosen < canvas.left + 4_000 {
        canvas.left + 4_000
    } else {
        chosen
    }
}

/// Where the popover's top edge lies: centred on the marker, moved to stay on
/// the canvas.
pub open spec fn popover_top(marker_y: int, height: int, canvas: ScreenRect) -> int {
    crate::modal_states::clamped(
        marker_y - height / 2,
        canvas.top + 4_000,
        canvas.bottom - height - 4_000,
    )
}

/// Where the popover of a marker lies.
pub fn popover_anchor(
    marker: crate::geo::ScreenPos,
    width: i64,
    height: i64,
    canvas: ScreenRect,
) -> (p: crate::geo::ScreenPos)
    requires
        -0x1000_0000_0000 <= marker.x <= 0x1000_0000_0000,
        -0x1000_0000_0000 <= marker.y <= 0x1000_0000_0000,
        0 <= width <= 0x1000_0000_0000,
        0 <= height <= 0x1000_0000_0000,
        -0x1000_0000_0000 <= canvas.left <= canvas.right <= 0x1000_0000_0000,
        -0x1000_0000_0000 <= canvas.top <= canvas.bottom <= 0x1000_0000_0000,
        canvas.top + 4_000 <= canvas.bottom - height - 4_000,
    ensures
        p.x == popover_left(marker.x as int, width as int, canvas),
        p.y == popover_top(marker.y as int, height as int, canvas),
{
    let right_side: i64 = marker.x + 12_000;
    let mut x: i64 = if right_side + width > canvas.right - 4_000 {
        marker.x - width - 12_000
    } else {
        right_side
    };
    if x < canvas.left + 4_000 {
        x = canvas.left + 4_000;
    }
    let centred: i64 = marker.y - height / 2;
    let y: i64 = if centred < canvas.top + 4_000 {
        canvas.top + 4_000
    } else if centred > canvas.bottom - height - 4_000 {
        canvas.bottom - height - 4_000
    } else {
        centred
    };
    crate::geo::ScreenPos { x, y }
}

/// A popover that fits on the canvas lies on it, four pixels clear of its
/// edges, wherever its marker is on the canvas.
pub proof fn popover_stays_on_canvas(marker: crate::geo::ScreenPos, width: int, height: int, canvas: ScreenRect)
    requires
        0 <= width,
        0 <= height,
        canvas.left <= marker.x <= canvas.right,
        canvas.left + 4_000 + width <= canvas.right - 4_000,
        canvas.top + 4_000 + height <= canvas.bottom - 4_000,
    ensures
        ({
            let x = popover_left(marker.x as int, width, canvas);
            let y = popover_top(marker.y as int, height, canvas);
            &&& canvas.left + 4_000 <= x
            &&& x + width <= canvas.right - 4_000
            &&& canvas.top + 4_000 <= y
            &&& y + height <= canvas.bottom - 4_000
        }),
{
}

// ---- state and settings modal ------------------------------------------------

/// State of the storm-report layer.
#[derive(Debug)]
pub struct MpingState {
    pub api_key: Option<String>,
    pub last_error: Option<String>,
    pub fetch_in_flight: bool,
    /// When the last fetch succeeded; zero before the first.
    pub last_success_ms: i64,
    pub reports: Vec<StormReport>,
    pub total_count: usize,
    pub selected_report_id: Option<i64>,
    pub settings_modal_open: bool,
    /// Set when the fetched reports no longer apply.
    pub invalidate_requested: bool,
}

impl Default for MpingState {
    fn default() -> (s: Self)
        ensures
            s.api_key is None,
            s.last_error is None,
            !s.fetch_in_flight,
            s.last_success_ms == 0,
            s.reports@.len() == 0,
            s.total_count == 0,
            s.selected_report_id is None,
            !s.settings_modal_open,
            !s.invalidate_requested,
    {
        MpingState {
            api_key: None,
            last_error: None,
            fetch_in_flight: false,
            last_success_ms: 0,
            reports: Vec::new(),
            total_count: 0,
            selected_report_id: None,
            settings_modal_open: false,
            invalidate_requested: false,
        }
    }
}

/// A line of the settings modal: its text, and its colour where it is not
/// weak.
#[derive(Debug)]
pub struct StatusLine {
    pub text: String,
    pub color: Option<Color32>,
}

/// What the settings modal says of the layer: the last error first, then a
/// running fetch, then what the last one brought, then whether there is a key.
pub open spec fn status_text(s: MpingState, playback_ms: i64) -> Seq<char> {
    if s.last_error is Some {
        "\u{26A0} "@ + s.last_error->0@
    } else if s.fetch_in_flight {
        "Fetching reports\u{2026}"@
    } else if s.last_success_ms > 0 {
        let n = visible_count(s.reports@, playback_ms);
        "\u{2713} "@ + crate::text::decimal(n as nat) + " report(s) loaded"@ + if s.total_count
            > n {
            " (showing "@ + crate::text::decimal(n as nat) + " of "@ + crate::text::decimal(
                s.total_count as nat,
            ) + ")"@
        } else {
            Seq::empty()
        }
    } else if s.api_key is Some {
        "Layer is enabled but no fetch has run yet."@
    } else {
        "Save a key to enable the layer."@
    }
}

/// Colour of the status line: red for an error, green for reports, none
/// otherwise.
pub open spec fn status_color(s: MpingState) -> Option<Color32> {
    if s.last_error is Some {
        Some(crate::colors::rgb(220, 120, 120))
    } else if !s.fetch_in_flight && s.last_success_ms > 0 {
        Some(crate::colors::rgb(120, 200, 120))
    } else {
        None
    }
}

impl MpingState {
    /// What the settings modal says of the layer.
    pub fn status_line(&self, playback_ms: i64) -> (l: StatusLine)
        ensures
            l.text@ == status_text(*self, playback_ms),
            l.color == status_color(*self),
    {
        let mut text = String::new();
        if let Some(err) = &self.last_error {
            text.append("\u{26A0} ");
            text.append(err.as_str());
            return StatusLine { text, color: Some(from_rgb(220, 120, 120)) };
        }
        if self.fetch_in_flight {
            text.append("Fetching reports\u{2026}");
            assert(text@ =~= status_text(*self, playback_ms));
            return StatusLine { text, color: None };
        }
        if self.last_success_ms > 0 {
            let n: usize = count_visible(&self.reports, playback_ms);
            text.append("\u{2713} ");
            push_decimal(&mut text, n as u64);
            text.append(" report(s) loaded");
            if self.total_count > n {
                text.append(" (showing ");
                push_decimal(&mut text, n as u64);
                text.append(" of ");
                push_decimal(&mut text, self.total_count as u64);
                text.append(")");
            }
            assert(text@ =~= status_text(*self, playback_ms));
            return StatusLine { text, color: Some(from_rgb(120, 200, 120)) };
        }
        if self.api_key.is_some() {
            text.append("Layer is enabled but no fetch has run yet.");
        } else {
            text.append("Save a key to enable the layer.");
        }
        assert(text@ =~= status_text(*self, playback_ms));
        StatusLine { text, color: None }
    }
}

/// Text entry of the settings modal.
#[derive(Debug)]
pub struct MpingModalState {
    pub key_input: String,
    /// Whether the entry was filled for the current opening.
    pub seeded: bool,
}

impl Default for MpingModalState {
    fn default() -> (s: Self)
        ensures
            s.key_input@.len() == 0,
            !s.seeded,
    {
        MpingModalState { key_input: String::new(), seeded: false }
    }
}

/// A button of the settings modal.
#[derive(Clone, Copy, Debug, PartialEq, Eq, Structural)]
pub enum MpingButton {
    Backdrop,
    Cancel,
    Save,
    /// Offered only while a key is saved.
    Clear,
}

/// What a button of the settings modal asks for.
#[derive(Debug)]
pub enum MpingIntent {
    Nothing,
    CloseMpingSettings,
    SaveMpingApiKey(Option<String>),
    ClearMpingKey,
}

impl MpingModalState {
    /// Whether the modal is drawn: while it is open, and once more after it
    /// closed so that the next opening fills the entry anew.
    pub fn visible(&self, open: bool) -> (b: bool)
        ensures
            b == (open || self.seeded),
    {
        open || self.seeded
    }

    /// Starts a frame: fills the entry from the saved key, once for each
    /// opening.
    pub fn begin_frame(&mut self, open: bool, api_key: &Option<String>)
        ensures
            final(self).seeded == open,
            final(self).key_input@ == (if open && !old(self).seeded {
                match *api_key {
                    Some(k) => k@,
                    None => Seq::empty(),
                }
            } else {
                old(self).key_input@
            }),
    {
        if !open {
            self.seeded = false;
        } else if !self.seeded {
            self.key_input = match api_key {
                Some(k) => k.clone(),
                None => String::new(),
            };
            self.seeded = true;
        }
    }

    /// What a button does. Saving trims the entry; an empty one saves no key.
    pub fn press(&mut self, button: MpingButton, has_key: bool) -> (r: MpingIntent)
        ensures
            match button {
                MpingButton::Backdrop | MpingButton::Cancel => {
                    &&& r is CloseMpingSettings
                    &&& !final(self).seeded
                    &&& final(self).key_input@ == old(self).key_input@
                },
                MpingButton::Save => {
                    &&& r matches MpingIntent::SaveMpingApiKey(k) && (match k {
                        Some(key) => key@ == crate::text::trimmed(old(self).key_input@) && key@.len()
                            > 0,
                        None => crate::text::trimmed(old(self).key_input@).len() == 0,
                    })
                    &&& !final(self).seeded
                    &&& final(self).key_input@ == old(self).key_input@
                },
                MpingButton::Clear => if has_key {
                    &&& r is ClearMpingKey
                    &&& final(self).seeded == old(self).seeded
                    &&& final(self).key_input@.len() == 0
                } else {
                    r is Nothing && *final(self) == *old(self)
                },
            },
    {
        match button {
            MpingButton::Backdrop | MpingButton::Cancel => {
                self.seeded = false;
                MpingIntent::CloseMpingSettings
            },
            MpingButton::Save => {
                let key = trim(self.key_input.as_str());
                self.seeded = false;
                if key.as_str().is_empty() {
                    MpingIntent::SaveMpingApiKey(None)
                } else {
                    MpingIntent::SaveMpingApiKey(Some(key))
                }
            },
            MpingButton::Clear => {
                if has_key {
                    self.key_input = String::new();
                    MpingIntent::ClearMpingKey
                } else {
                    MpingIntent::Nothing
                }
            },
        }
    }
}

/// A report more than half a second before the playhead is told as one before
/// playback, one more than half a second after it as one after playback, and any
/// other as one at the time of playback.
pub proof fn reports_are_told_before_or_after_playback(
    r: StormReport,
    category: Seq<char>,
    made: Seq<char>,
    playback_ms: int,
    range_m: int,
    bearing: int,
)
    ensures
        ({
            let line = detail_line(r, category, made, playback_ms, range_m, bearing, 3);
            &&& r.obtime_ms + 500 < playback_ms ==> line == span_text(playback_ms - r.obtime_ms)
                + " before playback"@
            &&& r.obtime_ms > playback_ms + 500 ==> line == span_text(r.obtime_ms - playback_ms)
                + " after playback"@
            &&& playback_ms - 500 <= r.obtime_ms <= playback_ms + 500 ==> line
                == "at playback time"@
        }),
{
}

/// As far before playback as after it, the same span is told.
pub proof fn spans_are_told_alike_on_both_sides(delta: int)
    requires
        delta > 500,
    ensures
        exists|span: Seq<char>|
            relative_text(delta) == #[trigger] (span + " after playback"@) && relative_text(-delta)
                == span + " before playback"@,
{
    let span = span_text(delta);
    assert(relative_text(delta) == span + " after playback"@);
}

/// A span is told in whole seconds below a minute, in whole minutes below an hour
/// and in tenths of hours from there on, each the nearest.
pub proof fn spans_are_told_in_the_nearest_unit(ms: int)
    requires
        0 <= ms < 0x2_0000_0000_0000,
    ensures
        ms < 60_000 ==> exists|n: nat|
            span_text(ms) == #[trigger] crate::text::decimal(n) + "s"@ && ms - 500 <= 1000 * n
                <= ms + 500,
        60_000 <= ms < 3_600_000 ==> exists|n: nat|
            span_text(ms) == #[trigger] crate::text::decimal(n) + "m"@ && ms - 30_000 <= 60_000 * n
                <= ms + 30_000,
        3_600_000 <= ms ==> exists|n: nat|
            span_text(ms) == #[trigger] crate::text::tenths(n) + "h"@ && ms - 180_000 <= 360_000 * n
                <= ms + 180_000,
{
    if ms < 60_000 {
        crate::text::rounding_is_to_the_nearest(ms, 1000);
        assert(span_text(ms) == crate::text::decimal(crate::text::rounded(ms, 1000) as nat)
            + "s"@);
    } else if ms < 3_600_000 {
        crate::text::rounding_is_to_the_nearest(ms, 60_000);
        assert(span_text(ms) == crate::text::decimal(crate::text::rounded(ms, 60_000) as nat)
            + "m"@);
    } else {
        crate::binary::the_nearest_tenth_of_a_share_is_shown(ms, 3600);
        let x = crate::binary::divided(crate::binary::double(ms), 3600);
        let n = choose|n: nat|
            crate::binary::double_text(x) == #[trigger] crate::text::tenths(n) && ms - 50 * 3600
                <= 100 * 3600 * n <= ms + 50 * 3600;
        assert(span_text(ms) == crate::text::tenths(n) + "h"@);
    }
}

/// The popover names the category first, then the description or the category in
/// its place, then when the report was made.
pub proof fn a_report_is_described(
    r: StormReport,
    category: Seq<char>,
    made: Seq<char>,
    playback_ms: int,
    range_m: int,
    bearing: int,
)
    ensures
        detail_line(r, category, made, playback_ms, range_m, bearing, 0) == category,
        r.description@.len() > 0 ==> detail_line(
            r,
            category,
            made,
            playback_ms,
            range_m,
            bearing,
            1,
        ) == r.description@,
        r.description@.len() == 0 ==> detail_line(
            r,
            category,
            made,
            playback_ms,
            range_m,
            bearing,
            1,
        ) == category,
        detail_line(r, category, made, playback_ms, range_m, bearing, 2) == made,
{
}

/// The popover says how far from the radar the report lies, to the nearest tenth of
/// a kilometre, and into which of the sixteen directions.
pub proof fn a_report_is_placed_from_the_radar(
    r: StormReport,
    category: Seq<char>,
    made: Seq<char>,
    playback_ms: int,
    range_m: int,
    bearing: int,
)
    requires
        0 <= range_m < 0x8_0000_0000_0000,
    ensures
        exists|t: nat|
            detail_line(r, category, made, playback_ms, range_m, bearing, 4)
                == #[trigger] crate::text::tenths(t) + " km "@ + compass_name(
                compass_index(bearing),
            ) + " of radar"@ && range_m - 50 <= 100 * t <= range_m + 50,
{
    crate::binary::the_nearest_tenth_is_shown(range_m);
    let t = choose|t: nat|
        crate::binary::double_text(crate::binary::double(range_m))
            == #[trigger] crate::text::tenths(t) && range_m - 50 <= 100 * t <= range_m + 50;
    assert(detail_line(r, category, made, playback_ms, range_m, bearing, 4) == crate::text::tenths(
        t,
    ) + " km "@ + compass_name(compass_index(bearing)) + " of radar"@);
}

/// The popover gives the latitude, north or south, before the longitude, east or
/// west, each to the nearest ten-thousandth of a degree.
pub proof fn a_report_is_placed_on_the_map(
    r: StormReport,
    category: Seq<char>,
    made: Seq<char>,
    playback_ms: int,
    range_m: int,
    bearing: int,
    lat: int,
    lon: int,
)
    requires
        r.at.lat == lat || r.at.lat == -lat,
        r.at.lon == lon || r.at.lon == -lon,
        0 <= lat < 0x4_0000_0000_0000,
        0 <= lon < 0x4_0000_0000_0000,
    ensures
        exists|n: nat, e: nat|
            {
                &&& detail_line(r, category, made, playback_ms, range_m, bearing, 5)
                    == #[trigger] crate::text::ten_thousandths(n) + "\u{00B0}"@ + (if r.at.lat < 0 {
                    "S"@
                } else {
                    "N"@
                }) + " "@ + (#[trigger] crate::text::ten_thousandths(e) + "\u{00B0}"@ + (if r.at.lon
                    < 0 {
                    "W"@
                } else {
                    "E"@
                }))
                &&& lat - 50 <= 100 * n <= lat + 50
                &&& lon - 50 <= 100 * e <= lon + 50
            },
{
    crate::binary::the_nearest_ten_thousandth_is_shown(lat);
    crate::binary::the_nearest_ten_thousandth_is_shown(lon);
    let n = crate::binary::shown_degrees(lat) as nat;
    let e = crate::binary::shown_degrees(lon) as nat;
    assert(detail_line(r, category, made, playback_ms, range_m, bearing, 5)
        == crate::text::ten_thousandths(n) + "\u{00B0}"@ + (if r.at.lat < 0 {
        "S"@
    } else {
        "N"@
    }) + " "@ + (crate::text::ten_thousandths(e) + "\u{00B0}"@ + (if r.at.lon < 0 {
        "W"@
    } else {
        "E"@
    })));
}

/// Each direction takes the bearings within an eighth of a right angle to either
/// side, and a full turn leads back to it.
pub proof fn directions_take_the_bearings_around_them(bearing: int, turns: nat)
    requires
        0 <= bearing < 360_000,
    ensures
        ({
            let i = compass_index(bearing);
            &&& 0 <= i < 16
            &&& 22_500 * i - 11_250 <= bearing < 22_500 * i + 11_250 || (i == 0 && bearing
                >= 348_750)
            &&& compass_index(bearing + 360_000 * turns) == i
        }),
{
    assert((bearing + 360_000 * turns) % 360_000 == bearing);
}

/// A direction between two others is named after both: the main ones are single
/// letters, north and south come first in the diagonals, and the rest put the main
/// one before the diagonal.
pub proof fn directions_are_named_after_their_neighbours()
    ensures
        compass_name(0) == "N"@ && compass_name(4) == "E"@,
        compass_name(8) == "S"@ && compass_name(12) == "W"@,
        compass_name(2) == compass_name(0) + compass_name(4),
        compass_name(6) == compass_name(8) + compass_name(4),
        compass_name(10) == compass_name(8) + compass_name(12),
        compass_name(14) == compass_name(0) + compass_name(12),
        compass_name(1) == compass_name(0) + compass_name(2),
        compass_name(3) == compass_name(4) + compass_name(2),
        compass_name(5) == compass_name(4) + compass_name(6),
        compass_name(7) == compass_name(8) + compass_name(6),
        compass_name(9) == compass_name(8) + compass_name(10),
        compass_name(11) == compass_name(12) + compass_name(10),
        compass_name(13) == compass_name(12) + compass_name(14),
        compass_name(15) == compass_name(0) + compass_name(14),
{
    reveal_strlit("N");
    reveal_strlit("NNE");
    reveal_strlit("NE");
    reveal_strlit("ENE");
    reveal_strlit("E");
    reveal_strlit("ESE");
    reveal_strlit("SE");
    reveal_strlit("SSE");
    reveal_strlit("S");
    reveal_strlit("SSW");
    reveal_strlit("SW");
    reveal_strlit("WSW");
    reveal_strlit("W");
    reveal_strlit("WNW");
    reveal_strlit("NW");
    reveal_strlit("NNW");
}

/// The time of an observation is written in universal time, to the minute in which
/// it was made.
pub proof fn observation_times_are_written_in_utc(ts_ms: int)
    requires
        crate::calendar::in_calendar(ts_ms / 1000),
        0 <= crate::calendar::civil_at(ts_ms / 1000).year <= 9999,
    ensures
        obtime_text(ts_ms) == crate::alerts_modal::absolute_text(
            crate::calendar::civil_at(ts_ms / 1000),
            "UTC"@,
        ),
        ts_ms - 1000 < 1000 * crate::calendar::epoch_seconds(
            crate::calendar::civil_at(ts_ms / 1000),
        ) <= ts_ms,
{
    let c = crate::calendar::civil_at(ts_ms / 1000);
    crate::calendar::civil_time_exists(ts_ms / 1000);
    reveal_strlit("%Y-%m-%d %H:%M");
    reveal_strlit("%Y-%m-%d %H:%M UTC");
    reveal_strlit(" UTC");
    reveal_strlit("UTC");
    reveal_strlit("-");
    reveal_strlit(" ");
    reveal_strlit(":");
    assert("%Y-%m-%d %H:%M UTC"@ =~= "%Y-%m-%d %H:%M"@ + " UTC"@);
    crate::calendar::date_and_time_are_written_in_order(" UTC"@, c);
    assert(obtime_text(ts_ms) =~= crate::alerts_modal::absolute_text(c, "UTC"@));
}

/// No report is drawn before it was made, outside the window of time, or further
/// than half a degree outside the map; every other one is.
pub proof fn reports_are_drawn_where_and_when_they_were_made(
    r: StormReport,
    bounds: GeoBounds,
    window: (i64, i64),
    playback_ms: i64,
)
    ensures
        r.obtime_ms > playback_ms ==> !is_drawn(r, bounds, window, playback_ms),
        window.0 < window.1 && (r.obtime_ms < window.0 || r.obtime_ms > window.1) ==> !is_drawn(
            r,
            bounds,
            window,
            playback_ms,
        ),
        r.at.lat < bounds.min_lat - 500_000 || r.at.lat > bounds.max_lat + 500_000 ==> !is_drawn(
            r,
            bounds,
            window,
            playback_ms,
        ),
        r.at.lon < bounds.min_lon - 500_000 || r.at.lon > bounds.max_lon + 500_000 ==> !is_drawn(
            r,
            bounds,
            window,
            playback_ms,
        ),
        r.obtime_ms <= playback_ms && (window.1 <= window.0 || window.0 <= r.obtime_ms <= window.1)
            && bounds.min_lat - 500_000 <= r.at.lat <= bounds.max_lat + 500_000 && bounds.min_lon
            - 500_000 <= r.at.lon <= bounds.max_lon + 500_000 ==> is_drawn(
            r,
            bounds,
            window,
            playback_ms,
        ),
{
}

/// One more report counts for one where it has been made by then, and for nothing
/// otherwise.
pub proof fn each_report_counts_once(reports: Seq<StormReport>, r: StormReport, playback_ms: i64)
    ensures
        visible_count(Seq::empty(), playback_ms) == 0,
        r.obtime_ms <= playback_ms ==> visible_count(reports.push(r), playback_ms) == visible_count(
            reports,
            playback_ms,
        ) + 1,
        r.obtime_ms > playback_ms ==> visible_count(reports.push(r), playback_ms) == visible_count(
            reports,
            playback_ms,
        ),
{
    assert(reports.push(r).drop_last() =~= reports);
}

/// As the playhead moves on, no fewer reports count, and never more than there are.
pub proof fn reports_only_gather(reports: Seq<StormReport>, earlier: i64, later: i64)
    requires
        earlier <= later,
    ensures
        0 <= visible_count(reports, earlier) <= visible_count(reports, later) <= reports.len(),
    decreases reports.len(),
{
    if reports.len() > 0 {
        reports_only_gather(reports.drop_last(), earlier, later);
    }
}

/// The selected report is one that has been made by then and has the selected id,
/// and it is found whenever there is one.
pub proof fn the_selected_report_is_found(
    reports: Seq<StormReport>,
    id: i64,
    playback_ms: i64,
    r: Option<usize>,
    j: int,
)
    requires
        is_selected_report(reports, Some(id), playback_ms, r),
        0 <= j < reports.len(),
    ensures
        r is Some ==> reports[r->0 as int].id == id && reports[r->0 as int].obtime_ms
            <= playback_ms,
        reports[j].id == id && reports[j].obtime_ms <= playback_ms ==> r is Some && r->0 <= j,
{
}

/// An error is told before anything else, a running fetch before what was loaded,
/// and what was loaded before the hints.
pub proof fn the_status_tells_the_most_pressing(s: MpingState, playback_ms: i64)
    ensures
        s.last_error is Some ==> status_text(s, playback_ms) == "\u{26A0} "@ + s.last_error->0@,
        s.last_error is None && s.fetch_in_flight ==> status_text(s, playback_ms)
            == "Fetching reports\u{2026}"@,
        s.last_error is None && !s.fetch_in_flight && s.last_success_ms <= 0 && s.api_key is Some
            ==> status_text(s, playback_ms) == "Layer is enabled but no fetch has run yet."@,
        s.last_error is None && !s.fetch_in_flight && s.last_success_ms <= 0 && s.api_key is None
            ==> status_text(s, playback_ms) == "Save a key to enable the layer."@,
{
}

/// What was loaded is counted; where more exist than are shown, their number is
/// told too.
pub proof fn the_status_counts_the_reports(s: MpingState, playback_ms: i64, shown: nat)
    requires
        s.last_error is None,
        !s.fetch_in_flight,
        s.last_success_ms > 0,
        shown == visible_count(s.reports@, playback_ms),
    ensures
        s.total_count <= shown ==> status_text(s, playback_ms) == "\u{2713} "@
            + crate::text::decimal(shown) + " report(s) loaded"@,
        s.total_count > shown ==> status_text(s, playback_ms) == "\u{2713} "@
            + crate::text::decimal(shown) + " report(s) loaded"@ + (" (showing "@
            + crate::text::decimal(shown) + " of "@ + crate::text::decimal(s.total_count as nat)
            + ")"@),
{
    if s.total_count <= shown {
        assert(status_text(s, playback_ms) =~= "\u{2713} "@ + crate::text::decimal(shown)
            + " report(s) loaded"@);
    }
}

/// An error is red, a finished fetch green, and everything else has no colour of its
/// own.
pub proof fn the_status_is_coloured_by_outcome(s: MpingState)
    ensures
        status_color(s) == Some(crate::colors::rgb(220, 120, 120)) <==> s.last_error is Some,
        status_color(s) == Some(crate::colors::rgb(120, 200, 120)) <==> s.last_error is None
            && !s.fetch_in_flight && s.last_success_ms > 0,
        status_color(s) is None <==> s.last_error is None && (s.fetch_in_flight || s.last_success_ms
            <= 0),
{
}

/// The popover lies to the right of its marker where there is room, and otherwise
/// to the left; its middle is level with the marker unless the canvas ends before.
pub proof fn the_popover_lies_beside_its_marker(
    marker: crate::geo::ScreenPos,
    width: int,
    height: int,
    canvas: ScreenRect,
)
    requires
        0 <= width,
        0 <= height,
        canvas.left <= marker.x <= canvas.right,
    ensures
        marker.x + 12_000 + width <= canvas.right - 4_000 ==> popover_left(
            marker.x as int,
            width,
            canvas,
        ) == marker.x + 12_000,
        marker.x + 12_000 + width > canvas.right - 4_000 && marker.x - 12_000 - width >= canvas.left
            + 4_000 ==> popover_left(marker.x as int, width, canvas) + width == marker.x - 12_000,
        canvas.top + 4_000 <= marker.y - height / 2 && marker.y - height / 2 <= canvas.bottom
            - height - 4_000 ==> popover_top(marker.y as int, height, canvas) == marker.y - height
            / 2,
{
}

/// The popover of a report made before the playhead says so in its fourth line, that
/// of one made after it too.
pub proof fn the_popover_tells_before_from_after(
    report: &StormReport,
    category: &str,
    made: &str,
    playback_ms: i64,
    range_m: u64,
    bearing: i64,
    lines: Vec<String>,
)
    requires
        call_ensures(
            detail_lines,
            (report, category, made, playback_ms, range_m, bearing),
            lines,
        ),
    ensures
        lines@.len() == 6,
        report.obtime_ms < playback_ms - 500 ==> exists|span: Seq<char>|
            lines@[3]@ == #[trigger] (span + " before playback"@),
        report.obtime_ms > playback_ms + 500 ==> exists|span: Seq<char>|
            lines@[3]@ == #[trigger] (span + " after playback"@),
{
    reports_are_told_before_or_after_playback(
        *report,
        category@,
        made@,
        playback_ms as int,
        range_m as int,
        bearing as int,
    );
    if report.obtime_ms < playback_ms - 500 {
        assert(lines@[3]@ == span_text(playback_ms - report.obtime_ms) + " before playback"@);
    }
    if report.obtime_ms > playback_ms + 500 {
        assert(lines@[3]@ == span_text(report.obtime_ms - playback_ms) + " after playback"@);
    }
}

/// The selected report's marker is larger than the others.
pub proof fn the_selected_marker_is_larger(id: i64, other: i64, r: u32, s: u32, u: u32)
    requires
        id != other,
        call_ensures(marker_radius, (id, Some(id)), r),
        call_ensures(marker_radius, (id, Some(other)), s),
        call_ensures(marker_radius, (id, None), u),
    ensures
        r > s,
        s == u,
{
}

/// Saving hands on the trimmed key, or none where nothing was typed; clearing empties
/// the field where there is a key; leaving changes nothing.
pub proof fn keys_are_saved_cleared_or_left(
    m: &mut MpingModalState,
    button: MpingButton,
    has_key: bool,
    r: MpingIntent,
)
    requires
        call_ensures(MpingModalState::press, (m, button, has_key), r),
    ensures
        button == MpingButton::Save ==> (r matches MpingIntent::SaveMpingApiKey(k) && (k is None
            <==> crate::text::trimmed(old(m).key_input@).len() == 0) && (k is Some ==> k->0@
            == crate::text::trimmed(old(m).key_input@))),
        button == MpingButton::Clear && has_key ==> r is ClearMpingKey && final(m).key_input@.len()
            == 0,
        button == MpingButton::Clear && !has_key ==> r is Nothing && final(m).key_input@ == old(
            m,
        ).key_input@,
        button == MpingButton::Cancel || button == MpingButton::Backdrop ==> r is CloseMpingSettings
            && final(m).key_input@ == old(m).key_input@,
        button != MpingButton::Clear ==> !final(m).seeded,
{
}

/// The field is filled with the key in the frame in which it opens, and kept from then
/// on.
pub proof fn the_key_is_filled_in_once(
    m: &mut MpingModalState,
    open: bool,
    api_key: &Option<String>,
    r: (),
)
    requires
        call_ensures(MpingModalState::begin_frame, (m, open, api_key), r),
    ensures
        final(m).seeded == open,
        open && !old(m).seeded && *api_key is Some ==> final(m).key_input@ == (*api_key)->0@,
        open && !old(m).seeded && *api_key is None ==> final(m).key_input@.len() == 0,
        !open || old(m).seeded ==> final(m).key_input@ == old(m).key_input@,
{
}

/// Of the reports exactly those that are to be drawn are, in their order.
pub proof fn reports_are_drawn_in_order(
    reports: &Vec<StormReport>,
    bounds: GeoBounds,
    window: (i64, i64),
    playback_ms: i64,
    r: Vec<usize>,
    i: usize,
    j: int,
    k: int,
)
    requires
        call_ensures(drawn_reports, (reports, bounds, window, playback_ms), r),
        i < reports@.len(),
    ensures
        r@.contains(i) <==> is_drawn(reports@[i as int], bounds, window, playback_ms),
        0 <= j < k < r@.len() ==> r@[j] < r@[k],
{
    let keep = |x: int| is_drawn(reports@[x], bounds, window, playback_ms);
    assert(keep(i as int) == is_drawn(reports@[i as int], bounds, window, playback_ms));
    if r@.contains(i) {
        let x = choose|x: int| 0 <= x < r@.len() && r@[x] == i;
        assert(keep(r@[x] as int));
    }
}

/// A local time of observation is written as its date and time, with the month counted
/// from one.
pub proof fn local_observation_times_are_marked(t: BrowserTime, s: String)
    requires
        t.month0 < 12,
        call_ensures(format_obtime_local, (t,), s),
    ensures
        s@ == crate::right_panel::local_event_text(t) + " local"@,
{
    assert(s@ =~= crate::right_panel::local_event_text(t) + " local"@);
}

} // verus!
