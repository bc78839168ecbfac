//! The radar sweep on the map: its lines, the ring that shows which part of it
//! is new, and the labels around that ring.
//!
//! Azimuths and arcs are in thousandths of a degree, elevation angles too,
//! times in milliseconds from the epoch.

use crate::colors::{canvas as canvas_colors, from_rgb, from_rgba_unmultiplied, radar, Color32};
use crate::geo::ScreenPos;
use crate::text::push_decimal;
use vstd::prelude::*;
use vstd::string::*;

verus! {

/// A full turn.
pub const TURN: i64 = 360_000;

/// The largest azimuth, either way, that is handled: many turns.
pub const AZIMUTH_LIMIT: i64 = 0x1000_0000_0000;

/// Whether an azimuth is within the handled range.
pub open spec fn in_range(az: i64) -> bool {
    -AZIMUTH_LIMIT <= az <= AZIMUTH_LIMIT
}

/// The arc from one azimuth clockwise to another.
pub open spec fn arc_between(from: int, to: int) -> int {
    (to - from) % (TURN as int)
}

/// The arc from one azimuth clockwise to another.
pub fn arc(from: i64, to: i64) -> (a: i64)
    requires
        in_range(from),
        in_range(to),
    ensures
        a == arc_between(from as int, to as int),
        0 <= a < TURN,
{
    let r: i64 = (to - from) % TURN;
    if r < 0 {
        r + TURN
    } else {
        r
    }
}

// ---- grid and lines -------------------------------------------------------------

/// How many range rings are drawn.
pub const RANGE_RINGS: u32 = 6;

/// How a range ring is drawn: its colour, and its width in tenths of a pixel.
/// Every second ring is a major one.
pub fn ring_style(i: u32, dark: bool) -> (r: (Color32, u32))
    ensures
        i % 2 == 0 && dark ==> r == (crate::colors::rgba(80, 100, 80, 150), 15u32),
        i % 2 == 0 && !dark ==> r == (crate::colors::rgba(80, 100, 80, 130), 15u32),
        i % 2 != 0 && dark ==> r == (crate::colors::rgba(60, 80, 60, 120), 10u32),
        i % 2 != 0 && !dark ==> r == (crate::colors::rgba(100, 120, 100, 100), 10u32),
{
    if i % 2 == 0 {
        (canvas_colors::ring_major(dark), 15)
    } else {
        (canvas_colors::ring(dark), 10)
    }
}

/// What is drawn of a sweep.
#[derive(Clone, Copy, Debug, PartialEq, Eq, Structural)]
pub struct SweepDrawing {
    /// Whether the lines at the sweep's start and edge are drawn, and the
    /// borders between chunks.
    pub lines: bool,
    pub start_color: Color32,
    pub edge_color: Color32,
    /// Width of the edge line, in tenths of a pixel.
    pub edge_width: u32,
    /// Whether the line at the antenna's present place is drawn.
    pub now_line: bool,
    pub donut: Donut,
}

/// The ring around a sweep.
#[derive(Clone, Copy, Debug, PartialEq, Eq, Structural)]
pub enum Donut {
    Absent,
    /// One colour all round: between two sweeps.
    Stale,
    /// New and old data told apart.
    TwoTone,
}

/// What is drawn of a sweep: the lines only while sweeps are animated, the ring
/// also while streaming.
pub open spec fn drawing_of(
    stale: bool,
    is_live: bool,
    animated: bool,
    antenna_known: bool,
) -> SweepDrawing {
    SweepDrawing {
        lines: animated,
        start_color: if stale {
            crate::colors::rgba(100, 100, 120, 100)
        } else {
            crate::colors::rgba(160, 160, 220, 180)
        },
        edge_color: if stale {
            crate::colors::rgba(120, 120, 120, 140)
        } else {
            crate::colors::radar::sweep_line()
        },
        edge_width: if is_live || stale {
            20
        } else {
            30
        },
        now_line: is_live && animated && antenna_known,
        donut: if !(is_live || animated) {
            Donut::Absent
        } else if stale {
            Donut::Stale
        } else {
            Donut::TwoTone
        },
    }
}

/// What is drawn of a sweep.
pub fn drawing(stale: bool, is_live: bool, animated: bool, antenna_known: bool) -> (d: SweepDrawing)
    ensures
        d == drawing_of(stale, is_live, animated, antenna_known),
{
    let (start_color, edge_color, width): (Color32, Color32, u32) = if stale {
        (radar::sweep_start_line_stale(), radar::sweep_line_stale(), 20)
    } else {
        (radar::sweep_start_line(), radar::sweep_line(), 30)
    };
    SweepDrawing {
        lines: animated,
        start_color,
        edge_color,
        edge_width: if is_live {
            20
        } else {
            width
        },
        now_line: is_live && animated && antenna_known,
        donut: if !(is_live || animated) {
            Donut::Absent
        } else if stale {
            Donut::Stale
        } else {
            Donut::TwoTone
        },
    }
}

/// With the animation off, an archived sweep leaves nothing on the map, and a
/// live one leaves its ring.
pub proof fn animation_off_hides_the_lines(stale: bool, is_live: bool, antenna_known: bool)
    ensures
        ({
            let d = drawing_of(stale, is_live, false, antenna_known);
            &&& !d.lines
            &&& !d.now_line
            &&& d.donut != Donut::Absent <==> is_live
        }),
{
}

// ---- the ring -------------------------------------------------------------------

/// How many segments the ring of two colours has.
pub const DONUT_SEGMENTS: u32 = 180;

/// Whether a segment of the ring is part of the new data: whether its middle
/// lies within the swept arc.
pub fn is_current_segment(i: u32, swept: i64) -> (b: bool)
    requires
        i < DONUT_SEGMENTS,
    ensures
        b == (2000 * i + 1000 < swept),
{
    2000 * (i as i64) + 1000 < swept
}

/// Colour of a segment of the ring.
pub fn segment_color(i: u32, swept: i64) -> (c: Color32)
    requires
        i < DONUT_SEGMENTS,
    ensures
        c == (if 2000 * i + 1000 < swept {
            crate::colors::rgba(80, 200, 120, 160)
        } else {
            crate::colors::rgba(120, 120, 180, 120)
        }),
{
    if is_current_segment(i, swept) {
        from_rgba_unmultiplied(80, 200, 120, 160)
    } else {
        from_rgba_unmultiplied(120, 120, 180, 120)
    }
}

/// A label at the ring, seen as its contents.
pub struct LabelView {
    pub azimuth: int,
    pub left: Seq<char>,
    pub right: Option<Seq<char>>,
    pub left_color: Color32,
    pub right_color: Color32,
}

/// A label at the ring: a text, and a second one behind a bar.
#[derive(Debug)]
pub struct DonutLabel {
    pub azimuth: i64,
    pub left: String,
    pub right: Option<String>,
    pub left_color: Color32,
    pub right_color: Color32,
}

impl View for DonutLabel {
    type V = LabelView;

    open spec fn view(&self) -> LabelView {
        LabelView {
            azimuth: self.azimuth as int,
            left: self.left@,
            right: match self.right {
                Some(r) => Some(r@),
                None => None,
            },
            left_color: self.left_color,
            right_color: self.right_color,
        }
    }
}

/// A list of labels, seen as their contents.
pub open spec fn contents(labels: Seq<DonutLabel>) -> Seq<LabelView> {
    Seq::new(labels.len(), |i: int| labels[i]@)
}

/// A label with one text.
pub open spec fn plain_label(azimuth: int, text: Seq<char>, color: Color32) -> LabelView {
    LabelView { azimuth, left: text, right: None, left_color: color, right_color: color }
}

fn push_label(labels: &mut Vec<DonutLabel>, label: DonutLabel)
    ensures
        contents(final(labels)@) == contents(old(labels)@).push(label@),
{
    labels.push(label);
    assert(contents(labels@) =~= contents(old(labels)@).push(label@));
}

fn push_plain(labels: &mut Vec<DonutLabel>, azimuth: i64, text: String, color: Color32)
    ensures
        contents(final(labels)@) == contents(old(labels)@).push(
            plain_label(azimuth as int, text@, color),
        ),
{
    push_label(
        labels,
        DonutLabel { azimuth, left: text, right: None, left_color: color, right_color: color },
    );
}

/// Text colour of the new data.
pub open spec fn current_text() -> Color32 {
    crate::colors::rgb(100, 220, 140)
}

/// Text colour of the old data.
pub open spec fn previous_text() -> Color32 {
    crate::colors::rgb(160, 160, 220)
}

/// What is known of the two sweeps that the ring shows.
#[derive(Debug)]
pub struct DonutTexts {
    /// When the new sweep began.
    pub cur_start: Option<String>,
    /// How far the new sweep has come.
    pub cur_edge: Option<String>,
    /// Which sweep the new one is.
    pub cur_meta: Option<String>,
    /// When the old sweep ended.
    pub prev_edge: Option<String>,
    /// When the old sweep passed the edge of the new one.
    pub prev_at_edge: Option<String>,
    /// Which sweep the old one is.
    pub prev_meta: Option<String>,
}

pub open spec fn text_view(t: Option<String>) -> Option<Seq<char>> {
    match t {
        Some(s) => Some(s@),
        None => None,
    }
}

pub open spec fn or_empty(t: Option<String>) -> Seq<char> {
    match t {
        Some(s) => s@,
        None => Seq::empty(),
    }
}

/// Arcs from which on a sweep counts as complete, so that the labels of its two
/// ends would overlap.
pub const FULL_ARC: i64 = 350_000;

/// Arcs from which on a part of the ring has room for a label.
pub const LABEL_ARC: i64 = 30_000;

/// The label of a complete sweep: its start and its end together.
pub open spec fn full_label(az: int, t: DonutTexts) -> Seq<LabelView> {
    if or_empty(t.cur_start).len() > 0 || t.cur_edge is Some {
        seq![
            LabelView {
                azimuth: az,
                left: or_empty(t.cur_start),
                right: text_view(t.cur_edge),
                left_color: current_text(),
                right_color: current_text(),
            },
        ]
    } else {
        seq![]
    }
}

/// The label where the new sweep began and the old one ended.
pub open spec fn start_label(start: int, t: DonutTexts) -> Seq<LabelView> {
    match (t.cur_start, t.prev_edge) {
        (Some(l), Some(r)) => seq![
            LabelView {
                azimuth: start,
                left: l@,
                right: Some(r@),
                left_color: current_text(),
                right_color: previous_text(),
            },
        ],
        (Some(l), None) => seq![plain_label(start, l@, current_text())],
        (None, Some(r)) => seq![plain_label(start, r@, previous_text())],
        (None, None) => seq![],
    }
}

/// The label at the edge of the new sweep.
pub open spec fn edge_label(az: int, t: DonutTexts) -> Seq<LabelView> {
    if or_empty(t.cur_edge).len() > 0 || t.prev_at_edge is Some {
        seq![
            LabelView {
                azimuth: az,
                left: or_empty(t.cur_edge),
                right: text_view(t.prev_at_edge),
                left_color: current_text(),
                right_color: previous_text(),
            },
        ]
    } else {
        seq![]
    }
}

/// The labels of the ring, the less recent ones first so that the others lie
/// over them.
pub open spec fn donut_labels_of(az: int, start: int, t: DonutTexts) -> Seq<LabelView> {
    let swept = arc_between(start, az);
    let rest = TURN - swept;
    let full = swept >= FULL_ARC;
    let boundaries = if full {
        full_label(az, t)
    } else {
        (if swept >= LABEL_ARC {
            start_label(start, t)
        } else {
            seq![]
        }) + edge_label(az, t)
    };
    let previous = if rest >= LABEL_ARC && !full && t.prev_meta is Some {
        seq![plain_label(az + rest / 2, or_empty(t.prev_meta), previous_text())]
    } else {
        seq![]
    };
    let current = if swept >= LABEL_ARC && t.cur_meta is Some {
        seq![plain_label(start + swept / 2, or_empty(t.cur_meta), current_text())]
    } else {
        seq![]
    };
    boundaries + previous + current
}

fn text_or_empty(t: &Option<String>) -> (s: String)
    ensures
        s@ == or_empty(*t),
{
    match t {
        Some(s) => s.clone(),
        None => String::new(),
    }
}

fn copy_text(t: &Option<String>) -> (r: Option<String>)
    ensures
        text_view(r) == text_view(*t),
{
    match t {
        Some(s) => Some(s.clone()),
        None => None,
    }
}

/// The labels of the ring.
pub fn donut_labels(az: i64, start: i64, t: &DonutTexts) -> (r: Vec<DonutLabel>)
    requires
        in_range(az),
        in_range(start),
    ensures
        contents(r@) == donut_labels_of(az as int, start as int, *t),
{
    let swept: i64 = arc(start, az);
    let rest: i64 = TURN - swept;
    let full = swept >= FULL_ARC;
    let current = from_rgb(100, 220, 140);
    let previous = from_rgb(160, 160, 220);
    let mut r: Vec<DonutLabel> = Vec::new();
    assert(contents(r@) =~= Seq::<LabelView>::empty());
    if full {
        let left = text_or_empty(&t.cur_start);
        if !left.as_str().is_empty() || t.cur_edge.is_some() {
            push_label(
                &mut r,
                DonutLabel {
                    azimuth: az,
                    left,
                    right: copy_text(&t.cur_edge),
                    left_color: current,
                    right_color: current,
                },
            );
        }
        assert(contents(r@) =~= full_label(az as int, *t));
    } else {
        if swept >= LABEL_ARC {
            match (&t.cur_start, &t.prev_edge) {
                (Some(l), Some(e)) => {
                    push_label(
                        &mut r,
                        DonutLabel {
                            azimuth: start,
                            left: l.clone(),
                            right: Some(e.clone()),
                            left_color: current,
                            right_color: previous,
                        },
                    );
                },
                (Some(l), None) => {
                    push_plain(&mut r, start, l.clone(), current);
                },
                (None, Some(e)) => {
                    push_plain(&mut r, start, e.clone(), previous);
                },
                (None, None) => {},
            }
            assert(contents(r@) =~= start_label(start as int, *t));
        }
        let left = text_or_empty(&t.cur_edge);
        if !left.as_str().is_empty() || t.prev_at_edge.is_some() {
            push_label(
                &mut r,
                DonutLabel {
                    azimuth: az,
                    left,
                    right: copy_text(&t.prev_at_edge),
                    left_color: current,
                    right_color: previous,
                },
            );
        }
    }
    let ghost boundaries = contents(r@);
    if rest >= LABEL_ARC && !full {
        if let Some(meta) = &t.prev_meta {
            push_plain(&mut r, az + rest / 2, meta.clone(), previous);
        }
    }
    if swept >= LABEL_ARC {
        if let Some(meta) = &t.cur_meta {
            push_plain(&mut r, start + swept / 2, meta.clone(), current);
        }
    }
    assert(contents(r@) =~= donut_labels_of(az as int, start as int, *t));
    r
}

// ---- what the labels say ----------------------------------------------------------

/// A time and, where it is recent, its age.
pub fn stamp(time: &str, age: Option<String>) -> (s: String)
    ensures
        s@ == (match age {
            Some(a) => time@ + " "@ + a@,
            None => time@,
        }),
{
    let mut s = time.to_owned();
    if let Some(a) = age {
        s.append(" ");
        s.append(a.as_str());
    }
    s
}

/// An elevation angle, given in thousandths of a degree.
pub open spec fn angle_text(angle: Option<i32>) -> Seq<char> {
    match angle {
        Some(a) => crate::radar_operations::angle_text(a as int) + "\u{00B0}"@,
        None => Seq::empty(),
    }
}

/// Which sweep: its number, and its angle where that is known.
pub open spec fn elevation_text(prefix: Seq<char>, number: u8, angle: Option<i32>) -> Seq<char> {
    prefix + crate::text::decimal(number as nat) + " "@ + angle_text(angle)
}

pub(crate) fn push_angle(out: &mut String, angle: Option<i32>)
    ensures
        final(out)@ == old(out)@ + angle_text(angle),
{
    if let Some(a) = angle {
        crate::radar_operations::push_angle(out, a);
        out.append("\u{00B0}");
    }
    assert(out@ =~= old(out)@ + angle_text(angle));
}

/// Which sweep: its number, and its angle where that is known.
pub fn elevation_label(prefix: &str, number: u8, angle: Option<i32>) -> (s: String)
    ensures
        s@ == elevation_text(prefix@, number, angle),
{
    let mut s = prefix.to_owned();
    push_decimal(&mut s, number as u64);
    s.append(" ");
    push_angle(&mut s, angle);
    assert(s@ =~= elevation_text(prefix@, number, angle));
    s
}

/// The angle of an elevation in a scan pattern, whose numbers start at one.
pub open spec fn pattern_angle(angles: Seq<i32>, number: u8) -> Option<i32> {
    let i = if number == 0 {
        0
    } else {
        number - 1
    };
    if i < angles.len() {
        Some(angles[i])
    } else {
        None
    }
}

/// The angle of an elevation in a scan pattern.
pub fn angle_of(angles: &Vec<i32>, number: u8) -> (r: Option<i32>)
    ensures
        r == pattern_angle(angles@, number),
{
    let i: usize = if number == 0 {
        0
    } else {
        (number - 1) as usize
    };
    if i < angles.len() {
        Some(angles[i])
    } else {
        None
    }
}

/// A time within a sweep, after it has turned through an arc.
pub open spec fn time_within(start_ms: int, end_ms: int, swept: int) -> int {
    start_ms + swept * (end_ms - start_ms) / (TURN as int)
}

/// A time within a sweep, after it has turned through an arc. It lies between the
/// sweep's two ends, whichever comes first.
pub fn time_at_arc(start_ms: i64, end_ms: i64, swept: i64) -> (t: i64)
    requires
        0 <= swept <= TURN,
    ensures
        t == time_within(start_ms as int, end_ms as int, swept as int),
        start_ms <= end_ms ==> start_ms <= t <= end_ms,
        end_ms <= start_ms ==> end_ms <= t <= start_ms,
{
    let span: i128 = end_ms as i128 - start_ms as i128;
    let turned: i128 = if span >= 0 {
        span
    } else {
        -span
    };
    proof {
        let (s, p) = (swept as int, turned as int);
        assert(0 <= s * p <= 360_000 * p) by (nonlinear_arith)
            requires
                0 <= s <= 360_000,
                0 <= p,
        ;
        assert(s * (-p) == -(s * p)) by (nonlinear_arith);
    }
    let part: i128 = swept as i128 * turned;
    let moved: i128 = if span >= 0 {
        part / TURN as i128
    } else {
        -((part + (TURN as i128 - 1)) / TURN as i128)
    };
    (start_ms as i128 + moved) as i64
}

/// The sweep that is being shown: its number, its angle and when it began.
#[derive(Debug)]
pub struct ShownSweep {
    pub number: u8,
    pub angle: i32,
    pub start: String,
}

/// The sweep before it: its angle, when it ended, and when it passed the edge of
/// the shown one.
#[derive(Debug)]
pub struct PreviousSweep {
    pub angle: i32,
    pub end: String,
    pub at_edge: String,
}

/// What the ring says while the archive is played.
pub fn playback_texts(
    playhead: String,
    shown: Option<ShownSweep>,
    previous: Option<PreviousSweep>,
    previous_number: Option<u8>,
) -> (t: DonutTexts)
    ensures
        text_view(t.cur_edge) == Some(playhead@),
        text_view(t.cur_start) == (match shown {
            Some(s) => Some(s.start@),
            None => None,
        }),
        text_view(t.cur_meta) == (match shown {
            Some(s) => Some(elevation_text("Elev "@, s.number, Some(s.angle))),
            None => None,
        }),
        text_view(t.prev_edge) == (match previous {
            Some(p) => Some(p.end@),
            None => None,
        }),
        text_view(t.prev_at_edge) == (match previous {
            Some(p) => Some(p.at_edge@),
            None => None,
        }),
        text_view(t.prev_meta) == (match previous_number {
            Some(n) => Some(
                elevation_text(
                    "Elev "@,
                    n,
                    match previous {
                        Some(p) => Some(p.angle),
                        None => None,
                    },
                ),
            ),
            None => None,
        }),
{
    let angle: Option<i32> = match &previous {
        Some(p) => Some(p.angle),
        None => None,
    };
    let prev_meta = match previous_number {
        Some(n) => Some(elevation_label("Elev ", n, angle)),
        None => None,
    };
    let (prev_edge, prev_at_edge) = match previous {
        Some(p) => (Some(p.end), Some(p.at_edge)),
        None => (None, None),
    };
    let (cur_start, cur_meta) = match shown {
        Some(s) => {
            let meta = elevation_label("Elev ", s.number, Some(s.angle));
            (Some(s.start), Some(meta))
        },
        None => (None, None),
    };
    DonutTexts { cur_start, cur_edge: Some(playhead), cur_meta, prev_edge, prev_at_edge, prev_meta }
}

/// A sweep that was received whole.
#[derive(Clone, Copy, Debug, PartialEq, Eq, Structural)]
pub struct CompletedSweep {
    pub number: u8,
    pub start_ms: i64,
    pub end_ms: i64,
}

/// Whether `r` is the first completed sweep of an elevation.
pub open spec fn is_first_completed(
    sweeps: Seq<CompletedSweep>,
    number: u8,
    r: Option<usize>,
) -> bool {
    match r {
        Some(k) => k < sweeps.len() && sweeps[k as int].number == number && forall|j: int|
            0 <= j < k ==> (#[trigger] sweeps[j]).number != number,
        None => forall|j: int| 0 <= j < sweeps.len() ==> (#[trigger] sweeps[j]).number != number,
    }
}

/// The completed sweep of the elevation that was received last.
pub fn previous_completed(received: &Vec<u8>, sweeps: &Vec<CompletedSweep>) -> (r: Option<usize>)
    ensures
        received@.len() == 0 ==> r is None,
        received@.len() > 0 ==> is_first_completed(sweeps@, received@.last(), r),
{
    if received.len() == 0 {
        return None;
    }
    let number: u8 = received[received.len() - 1];
    let mut i: usize = 0;
    while i < sweeps.len()
        invariant
            i <= sweeps@.len(),
            received@.len() > 0,
            number == received@.last(),
            forall|j: int| 0 <= j < i ==> (#[trigger] sweeps@[j]).number != number,
        decreases sweeps@.len() - i,
    {
        if sweeps[i].number == number {
            return Some(i);
        }
        i += 1;
    }
    None
}

/// What the ring says while streaming. `first_chunk` and `last_chunk` are when
/// the received part of the sweep began and ended, `previous` is when the sweep
/// before it ended and when that passed the edge of this one.
pub fn live_texts(
    first_chunk: Option<String>,
    last_chunk: Option<String>,
    active: Option<u8>,
    received: &Vec<u8>,
    previous: Option<(String, String)>,
    angles: &Vec<i32>,
) -> (t: DonutTexts)
    ensures
        text_view(t.cur_start) == text_view(first_chunk),
        text_view(t.cur_edge) == text_view(last_chunk),
        text_view(t.cur_meta) == (match active {
            Some(n) => Some(elevation_text("Elev "@, n, pattern_angle(angles@, n))),
            None => None,
        }),
        text_view(t.prev_edge) == (match previous {
            Some(p) => Some(p.0@),
            None => None,
        }),
        text_view(t.prev_at_edge) == (match previous {
            Some(p) => Some(p.1@),
            None => None,
        }),
        text_view(t.prev_meta) == (if received@.len() > 0 {
            Some(
                elevation_text("Elev "@, received@.last(), pattern_angle(angles@, received@.last())),
            )
        } else {
            None
        }),
{
    let cur_meta = match active {
        Some(n) => Some(elevation_label("Elev ", n, angle_of(angles, n))),
        None => None,
    };
    let prev_meta = if received.len() > 0 {
        let n: u8 = received[received.len() - 1];
        Some(elevation_label("Elev ", n, angle_of(angles, n)))
    } else {
        None
    };
    let (prev_edge, prev_at_edge) = match previous {
        Some((end, at_edge)) => (Some(end), Some(at_edge)),
        None => (None, None),
    };
    DonutTexts {
        cur_start: first_chunk,
        cur_edge: last_chunk,
        cur_meta,
        prev_edge,
        prev_at_edge,
        prev_meta,
    }
}

/// The label at the antenna's present place: the elevation that it is on by
/// the projected timing, else the one being received, else nothing but "NOW".
pub open spec fn now_label_of(
    projected: Option<u8>,
    angle: Option<i32>,
    in_progress: Option<u8>,
) -> Seq<char> {
    match (projected, in_progress) {
        (Some(n), _) => elevation_text("NOW \u{00B7} Elev "@, n, angle),
        (None, Some(n)) => "NOW \u{00B7} Elev "@ + crate::text::decimal(n as nat),
        (None, None) => "NOW"@,
    }
}

/// The label at the antenna's present place.
pub fn now_label(projected: Option<u8>, angle: Option<i32>, in_progress: Option<u8>) -> (s: String)
    ensures
        s@ == now_label_of(projected, angle, in_progress),
{
    match (projected, in_progress) {
        (Some(n), _) => elevation_label("NOW \u{00B7} Elev ", n, angle),
        (None, Some(n)) => {
            let mut s = "NOW \u{00B7} Elev ".to_owned();
            push_decimal(&mut s, n as u64);
            s
        },
        (None, None) => "NOW".to_owned(),
    }
}

/// Where a label lies relative to its point.
#[derive(Clone, Copy, Debug, PartialEq, Eq, Structural)]
pub enum LabelAlign {
    CenterBottom,
    LeftCenter,
    CenterTop,
    RightCenter,
}

/// Where a label lies: outwards from the ring, by the quadrant of its azimuth.
pub fn sweep_label_align(az: i64) -> (a: LabelAlign)
    requires
        in_range(az),
    ensures
        ({
            let z = az as int % (TURN as int);
            a == (if z < 45_000 || z >= 315_000 {
                LabelAlign::CenterBottom
            } else if z < 135_000 {
                LabelAlign::LeftCenter
            } else if z < 225_000 {
                LabelAlign::CenterTop
            } else {
                LabelAlign::RightCenter
            })
        }),
{
    let z: i64 = arc(0, az);
    if z < 45_000 || z >= 315_000 {
        LabelAlign::CenterBottom
    } else if z < 135_000 {
        LabelAlign::LeftCenter
    } else if z < 225_000 {
        LabelAlign::CenterTop
    } else {
        LabelAlign::RightCenter
    }
}

/// The top left corner of a label of a size, from the point that it lies at.
pub open spec fn corner_of(pos: ScreenPos, width: int, height: int, align: LabelAlign) -> (int, int) {
    match align {
        LabelAlign::CenterBottom => (pos.x - width / 2, pos.y - height),
        LabelAlign::LeftCenter => (pos.x as int, pos.y - height / 2),
        LabelAlign::CenterTop => (pos.x - width / 2, pos.y as int),
        LabelAlign::RightCenter => (pos.x - width, pos.y - height / 2),
    }
}

/// The top left corner of a label of a size, from the point that it lies at.
pub fn align_pos(pos: ScreenPos, width: u32, height: u32, align: LabelAlign) -> (c: ScreenPos)
    requires
        pos.x >= i64::MIN + u32::MAX,
        pos.y >= i64::MIN + u32::MAX,
    ensures
        (c.x as int, c.y as int) == corner_of(pos, width as int, height as int, align),
{
    let (w, h): (i64, i64) = (width as i64, height as i64);
    match align {
        LabelAlign::CenterBottom => ScreenPos { x: pos.x - w / 2, y: pos.y - h },
        LabelAlign::LeftCenter => ScreenPos { x: pos.x, y: pos.y - h / 2 },
        LabelAlign::CenterTop => ScreenPos { x: pos.x - w / 2, y: pos.y },
        LabelAlign::RightCenter => ScreenPos { x: pos.x - w, y: pos.y - h / 2 },
    }
}

// ---- the ring by chunks -------------------------------------------------------------

/// A received part of a sweep.
#[derive(Clone, Copy, Debug, PartialEq, Eq, Structural)]
pub struct Chunk {
    pub first_az: i64,
    pub last_az: i64,
    pub radials: u32,
}

/// Whether the azimuths of all chunks are within the handled range.
pub open spec fn chunks_in_range(chunks: Seq<Chunk>) -> bool {
    forall|i: int|
        0 <= i < chunks.len() ==> in_range((#[trigger] chunks[i]).first_az) && in_range(
            chunks[i].last_az,
        )
}

/// Whether a chunk reaches over an azimuth.
pub open spec fn covers(c: Chunk, az: int) -> bool {
    arc_between(c.first_az as int, az) <= arc_between(c.first_az as int, c.last_az as int)
}

/// How many segments the ring of chunks has, one for each degree.
pub const CHUNK_SEGMENTS: u32 = 360;

/// The azimuth of the middle of a segment.
pub open spec fn segment_middle(start: int, i: int) -> int {
    start + 1000 * i + 500
}

/// Whether `r` is the first chunk that reaches over an azimuth.
pub open spec fn is_first_covering(chunks: Seq<Chunk>, az: int, r: Option<usize>) -> bool {
    match r {
        Some(k) => k < chunks.len() && covers(chunks[k as int], az) && forall|j: int|
            0 <= j < k ==> !covers(#[trigger] chunks[j], az),
        None => forall|j: int| 0 <= j < chunks.len() ==> !covers(#[trigger] chunks[j], az),
    }
}

/// The chunk that a segment of the ring belongs to; none for the part that is
/// still of the sweep before. It goes by what was received, not by where the
/// antenna is thought to be.
pub fn segment_chunk(chunks: &Vec<Chunk>, start: i64, i: u32) -> (r: Option<usize>)
    requires
        -AZIMUTH_LIMIT <= start <= AZIMUTH_LIMIT - TURN,
        i < CHUNK_SEGMENTS,
        chunks_in_range(chunks@),
    ensures
        is_first_covering(chunks@, segment_middle(start as int, i as int), r),
{
    let az: i64 = start + 1000 * (i as i64) + 500;
    let mut k: usize = 0;
    while k < chunks.len()
        invariant
            k <= chunks@.len(),
            in_range(az),
            az == segment_middle(start as int, i as int),
            chunks_in_range(chunks@),
            forall|j: int| 0 <= j < k ==> !covers(#[trigger] chunks@[j], az as int),
        decreases chunks@.len() - k,
    {
        let c = chunks[k];
        if arc(c.first_az, az) <= arc(c.first_az, c.last_az) {
            return Some(k);
        }
        k += 1;
    }
    None
}

/// Colour of a chunk; eight colours take turns.
pub open spec fn chunk_color_of(i: int) -> Color32 {
    let k = i % 8;
    if k == 0 {
        crate::colors::rgba(70, 200, 110, 160)
    } else if k == 1 {
        crate::colors::rgba(80, 180, 220, 160)
    } else if k == 2 {
        crate::colors::rgba(220, 180, 70, 160)
    } else if k == 3 {
        crate::colors::rgba(180, 100, 220, 160)
    } else if k == 4 {
        crate::colors::rgba(220, 110, 80, 160)
    } else if k == 5 {
        crate::colors::rgba(100, 220, 180, 160)
    } else if k == 6 {
        crate::colors::rgba(220, 140, 180, 160)
    } else {
        crate::colors::rgba(160, 220, 80, 160)
    }
}

/// Colour of a segment of the ring, by the chunk that it belongs to.
pub fn chunk_color(chunk: Option<usize>) -> (c: Color32)
    ensures
        c == (match chunk {
            Some(i) => chunk_color_of(i as int),
            None => crate::colors::rgba(120, 120, 180, 120),
        }),
{
    match chunk {
        None => from_rgba_unmultiplied(120, 120, 180, 120),
        Some(i) => match i % 8 {
            0 => from_rgba_unmultiplied(70, 200, 110, 160),
            1 => from_rgba_unmultiplied(80, 180, 220, 160),
            2 => from_rgba_unmultiplied(220, 180, 70, 160),
            3 => from_rgba_unmultiplied(180, 100, 220, 160),
            4 => from_rgba_unmultiplied(220, 110, 80, 160),
            5 => from_rgba_unmultiplied(100, 220, 180, 160),
            6 => from_rgba_unmultiplied(220, 140, 180, 160),
            _ => from_rgba_unmultiplied(160, 220, 80, 160),
        },
    }
}

/// How many borders between chunks are drawn: one behind each chunk but the
/// last.
pub fn chunk_borders(chunks: usize) -> (n: usize)
    ensures
        n == (if chunks == 0 {
            0
        } else {
            chunks - 1
        }),
{
    if chunks == 0 {
        0
    } else {
        chunks - 1
    }
}

/// How far the received data reaches from the sweep's start.
pub open spec fn data_arc_of(chunks: Seq<Chunk>, start: int) -> int
    decreases chunks.len(),
{
    if chunks.len() == 0 {
        0
    } else {
        let before = data_arc_of(chunks.drop_last(), start);
        let this = arc_between(start, chunks.last().last_az as int);
        if this > before {
            this
        } else {
            before
        }
    }
}

/// How far the received data reaches from the sweep's start.
pub fn data_arc(chunks: &Vec<Chunk>, start: i64) -> (a: i64)
    requires
        in_range(start),
        chunks_in_range(chunks@),
    ensures
        a == data_arc_of(chunks@, start as int),
        0 <= a < TURN,
{
    let mut a: i64 = 0;
    let mut i: usize = 0;
    while i < chunks.len()
        invariant
            i <= chunks@.len(),
            in_range(start),
            chunks_in_range(chunks@),
            0 <= a < TURN,
            a == data_arc_of(chunks@.take(i as int), start as int),
        decreases chunks@.len() - i,
    {
        assert(chunks@.take(i + 1).drop_last() =~= chunks@.take(i as int));
        let this: i64 = arc(start, chunks[i].last_az);
        if this > a {
            a = this;
        }
        i += 1;
    }
    assert(chunks@.take(i as int) =~= chunks@);
    a
}

/// Chunks narrower than this get no label.
pub const CHUNK_LABEL_ARC: i64 = 15_000;

/// The label of a chunk, where it is wide enough.
pub open spec fn chunk_label_of(c: Chunk, i: int) -> Seq<LabelView> {
    let width = arc_between(c.first_az as int, c.last_az as int);
    if width < CHUNK_LABEL_ARC {
        seq![]
    } else {
        seq![
            plain_label(
                c.first_az + width / 2,
                "C"@ + crate::text::decimal((i + 1) as nat) + " \u{00B7} "@ + crate::text::decimal(
                    c.radials as nat,
                ) + "r"@,
                current_text(),
            ),
        ]
    }
}

/// The labels of the first `n` chunks.
pub open spec fn chunk_labels_of(chunks: Seq<Chunk>, n: int) -> Seq<LabelView>
    decreases n,
{
    if n <= 0 {
        seq![]
    } else {
        chunk_labels_of(chunks, n - 1) + chunk_label_of(chunks[n - 1], n - 1)
    }
}

/// How the stream stands.
#[derive(Debug)]
pub struct LiveSweep {
    /// The elevation being received.
    pub in_progress: Option<u8>,
    pub radials: u32,
    /// The elevations received whole.
    pub received: Vec<u8>,
    pub expected_count: Option<u32>,
    /// Angles of the scan pattern.
    pub angles: Vec<i32>,
}

/// The label at the edge of the received data.
pub open spec fn progress_text(l: LiveSweep) -> Seq<char> {
    let number = match l.in_progress {
        Some(n) => crate::text::decimal(n as nat),
        None => "?"@,
    };
    let angle = match l.in_progress {
        Some(n) => angle_text(pattern_angle(l.angles@, n)),
        None => Seq::empty(),
    };
    let expected = match l.expected_count {
        Some(n) => "/"@ + crate::text::decimal(n as nat),
        None => Seq::empty(),
    };
    "Sweep "@ + number + " "@ + angle + " \u{00B7} "@ + crate::text::decimal(l.radials as nat)
        + "r \u{00B7} "@ + crate::text::decimal(l.received@.len()) + expected + " elev"@
}

/// The labels of the ring of chunks: those of the chunks where there are
/// several, then the progress at the edge, then the sweep before where it has
/// room.
pub open spec fn live_labels_of(
    chunks: Seq<Chunk>,
    az: int,
    start: int,
    l: LiveSweep,
) -> Seq<LabelView> {
    let data = data_arc_of(chunks, start);
    let rest = TURN - data;
    let parts = if chunks.len() > 1 {
        chunk_labels_of(chunks, chunks.len() as int)
    } else {
        seq![]
    };
    let previous = if rest > LABEL_ARC && l.received@.len() > 0 {
        let n = l.received@.last();
        seq![
            plain_label(
                start + data + rest / 2,
                elevation_text("Prev sweep "@, n, pattern_angle(l.angles@, n)),
                previous_text(),
            ),
        ]
    } else {
        seq![]
    };
    parts + seq![plain_label(az, progress_text(l), current_text())] + previous
}

fn progress_label(l: &LiveSweep) -> (s: String)
    ensures
        s@ == progress_text(*l),
{
    let mut s = "Sweep ".to_owned();
    match l.in_progress {
        Some(n) => {
            push_decimal(&mut s, n as u64);
            s.append(" ");
            push_angle(&mut s, angle_of(&l.angles, n));
        },
        None => {
            s.append("?");
            s.append(" ");
        },
    }
    s.append(" \u{00B7} ");
    push_decimal(&mut s, l.radials as u64);
    s.append("r \u{00B7} ");
    push_decimal(&mut s, l.received.len() as u64);
    if let Some(n) = l.expected_count {
        s.append("/");
        push_decimal(&mut s, n as u64);
    }
    s.append(" elev");
    assert(s@ =~= progress_text(*l));
    s
}

/// The labels of the ring of chunks.
pub fn live_labels(chunks: &Vec<Chunk>, az: i64, start: i64, l: &LiveSweep) -> (r: Vec<DonutLabel>)
    requires
        in_range(az),
        in_range(start),
        chunks_in_range(chunks@),
    ensures
        contents(r@) == live_labels_of(chunks@, az as int, start as int, *l),
{
    let current = from_rgb(100, 220, 140);
    let previous = from_rgb(160, 160, 220);
    let mut r: Vec<DonutLabel> = Vec::new();
    assert(contents(r@) =~= Seq::<LabelView>::empty());
    if chunks.len() > 1 {
        let mut i: usize = 0;
        while i < chunks.len()
            invariant
                i <= chunks@.len(),
                chunks_in_range(chunks@),
                current == current_text(),
                contents(r@) == chunk_labels_of(chunks@, i as int),
            decreases chunks@.len() - i,
        {
            let c = chunks[i];
            let width: i64 = arc(c.first_az, c.last_az);
            if width >= CHUNK_LABEL_ARC {
                let mut text = "C".to_owned();
                push_decimal(&mut text, i as u64 + 1);
                text.append(" \u{00B7} ");
                push_decimal(&mut text, c.radials as u64);
                text.append("r");
                push_plain(&mut r, c.first_az + width / 2, text, current);
            }
            assert(contents(r@) =~= chunk_labels_of(chunks@, i + 1));
            i += 1;
        }
    }
    push_plain(&mut r, az, progress_label(l), current);
    let data: i64 = data_arc(chunks, start);
    let rest: i64 = TURN - data;
    if rest > LABEL_ARC && l.received.len() > 0 {
        let n: u8 = l.received[l.received.len() - 1];
        let text = elevation_label("Prev sweep ", n, angle_of(&l.angles, n));
        push_plain(&mut r, start + data + rest / 2, text, previous);
    }
    assert(contents(r@) =~= live_labels_of(chunks@, az as int, start as int, *l));
    r
}

// ---- what holds of the ring ---------------------------------------------------------

/// An arc is less than a turn, and leads from where it begins to where it ends; the
/// two arcs between different directions make up a turn.
pub proof fn arcs_lead_from_one_to_the_other(from: int, to: int)
    ensures
        0 <= arc_between(from, to) < 360_000,
        (from + arc_between(from, to) - to) % 360_000 == 0,
        arc_between(from, from) == 0,
        arc_between(from, to) > 0 ==> arc_between(from, to) + arc_between(to, from) == 360_000,
{
}

/// A direction that lies an arc further on is that arc away, however often the
/// antenna has turned meanwhile.
pub proof fn an_arc_further_on_is_that_arc_away(from: int, arc: int, turns: int)
    requires
        0 <= arc < 360_000,
    ensures
        arc_between(from, from + arc + 360_000 * turns) == arc,
{
    assert((arc + 360_000 * turns) % 360_000 == arc);
}

/// The ring is shown beside live data or an animated sweep, in grey where it is
/// stale; the line of the present only where live data is animated and the antenna
/// is known.
pub proof fn the_ring_accompanies_live_and_animated_data(
    stale: bool,
    is_live: bool,
    animated: bool,
    antenna_known: bool,
)
    ensures
        ({
            let d = drawing_of(stale, is_live, animated, antenna_known);
            &&& d.lines <==> animated
            &&& d.donut == Donut::Absent <==> !is_live && !animated
            &&& d.donut == Donut::Stale <==> stale && (is_live || animated)
            &&& d.donut == Donut::TwoTone <==> !stale && (is_live || animated)
            &&& d.now_line <==> is_live && animated && antenna_known
            &&& d.edge_width == 20 <==> is_live || stale
            &&& d.edge_width == 30 <==> !is_live && !stale
            &&& stale ==> d.start_color == crate::colors::rgba(100, 100, 120, 100) && d.edge_color
                == crate::colors::rgba(120, 120, 120, 140)
            &&& !stale ==> d.start_color == crate::colors::rgba(160, 160, 220, 180) && d.edge_color
                == crate::colors::radar::sweep_line()
        }),
{
}

/// Once the sweep has gone round, the ring names its first and its last time where
/// its edge stands, and the sweep before it nowhere.
pub proof fn a_full_ring_names_only_the_current_sweep(az: int, start: int, t: DonutTexts, i: int)
    requires
        arc_between(start, az) >= 350_000,
        0 <= i < donut_labels_of(az, start, t).len(),
    ensures
        ({
            let labels = donut_labels_of(az, start, t);
            &&& labels[i].left_color == current_text() && labels[i].right_color == current_text()
            &&& t.cur_edge is Some ==> labels[0].azimuth == az && labels[0].left == or_empty(
                t.cur_start,
            ) && labels[0].right == Some(t.cur_edge->0@)
            &&& t.cur_meta is None ==> labels.len() <= 1
        }),
{
}

/// While the sweep is under way, its start is labelled with its own first time and,
/// beside it, the time at which the sweep before it ended.
pub proof fn the_start_names_both_sweeps(az: int, start: int, t: DonutTexts)
    requires
        30_000 <= arc_between(start, az) < 350_000,
    ensures
        ({
            let labels = donut_labels_of(az, start, t);
            &&& t.cur_start is Some && t.prev_edge is Some ==> labels.len() > 0 && labels[0] == (
            LabelView {
                azimuth: start,
                left: t.cur_start->0@,
                right: Some(t.prev_edge->0@),
                left_color: current_text(),
                right_color: previous_text(),
            })
            &&& t.cur_start is Some && t.prev_edge is None ==> labels.len() > 0 && labels[0]
                == plain_label(start, t.cur_start->0@, current_text())
            &&& t.cur_start is None && t.prev_edge is Some ==> labels.len() > 0 && labels[0]
                == plain_label(start, t.prev_edge->0@, previous_text())
        }),
{
}

/// While the sweep is under way, its edge is labelled with its own latest time and,
/// beside it, the time at which the sweep before it passed there.
pub proof fn the_edge_names_both_sweeps(az: int, start: int, t: DonutTexts)
    requires
        arc_between(start, az) < 350_000,
        t.prev_at_edge is Some,
    ensures
        donut_labels_of(az, start, t).contains(
            LabelView {
                azimuth: az,
                left: or_empty(t.cur_edge),
                right: Some(t.prev_at_edge->0@),
                left_color: current_text(),
                right_color: previous_text(),
            },
        ),
{
    let labels = donut_labels_of(az, start, t);
    let swept = arc_between(start, az);
    let k = if swept >= 30_000 {
        start_label(start, t).len() as int
    } else {
        0
    };
    assert(labels[k] == edge_label(az, t)[0]);
}

/// What is new is named in the middle of its part of the ring, once that is an arc
/// of thirty degrees, and what is left of the sweep before in the middle of its own.
pub proof fn each_part_is_named_in_its_middle(az: int, start: int, t: DonutTexts)
    ensures
        ({
            let labels = donut_labels_of(az, start, t);
            let swept = arc_between(start, az);
            &&& swept >= 30_000 && t.cur_meta is Some ==> labels.len() > 0 && labels.last().left
                == t.cur_meta->0@ && labels.last().left_color == current_text() && swept - 1 <= 2 * (
            labels.last().azimuth - start) <= swept
            &&& swept < 350_000 && 360_000 - swept >= 30_000 && t.prev_meta is Some ==> exists|
                i: int,
            |
                {
                    &&& 0 <= i < labels.len()
                    &&& (#[trigger] labels[i]).left == t.prev_meta->0@
                    &&& labels[i].left_color == previous_text()
                    &&& 360_000 - swept - 1 <= 2 * (labels[i].azimuth - az) <= 360_000 - swept
                }
        }),
{
    let labels = donut_labels_of(az, start, t);
    let swept = arc_between(start, az);
    let rest = 360_000 - swept;
    if swept < 350_000 && rest >= 30_000 && t.prev_meta is Some {
        let boundaries = (if swept >= 30_000 {
            start_label(start, t)
        } else {
            seq![]
        }) + edge_label(az, t);
        let k = boundaries.len() as int;
        assert(labels[k] == plain_label(az + rest / 2, or_empty(t.prev_meta), previous_text()));
    }
}

/// A sweep is named by a prefix, its number and its angle, in this order.
pub proof fn elevations_are_named_by_number_and_angle(prefix: Seq<char>, number: u8, angle: i32)
    ensures
        elevation_text(prefix, number, Some(angle)) == prefix + (crate::text::decimal(
            number as nat,
        ) + " "@ + crate::radar_operations::angle_text(angle as int) + "\u{00B0}"@),
        elevation_text(prefix, number, None) == prefix + (crate::text::decimal(number as nat)
            + " "@),
{
    assert(elevation_text(prefix, number, Some(angle)) =~= prefix + (crate::text::decimal(
        number as nat,
    ) + " "@ + crate::radar_operations::angle_text(angle as int) + "\u{00B0}"@));
    assert(elevation_text(prefix, number, None) =~= prefix + (crate::text::decimal(number as nat)
        + " "@));
}

/// Elevations are counted from one: each has the angle at its place in the pattern,
/// and one behind the pattern's end has none.
pub proof fn elevations_are_counted_from_one(angles: Seq<i32>, number: u8)
    requires
        number >= 1,
    ensures
        number <= angles.len() ==> pattern_angle(angles, number) == Some(angles[number - 1]),
        number > angles.len() ==> pattern_angle(angles, number) is None,
        angles.len() > 0 ==> pattern_angle(angles, 0) == Some(angles[0]),
{
}

/// The time at an arc is the share of the sweep's time that the arc is of a turn:
/// its start at none, its end at a whole one, and never earlier for a larger arc.
pub proof fn time_goes_with_the_arc(start_ms: int, end_ms: int, near: int, far: int)
    requires
        start_ms <= end_ms,
        0 <= near <= far <= 360_000,
    ensures
        time_within(start_ms, end_ms, 0) == start_ms,
        time_within(start_ms, end_ms, 360_000) == end_ms,
        time_within(start_ms, end_ms, near) <= time_within(start_ms, end_ms, far),
        360_000 * (time_within(start_ms, end_ms, near) - start_ms) <= near * (end_ms - start_ms)
            < 360_000 * (time_within(start_ms, end_ms, near) - start_ms + 1),
{
    let d = end_ms - start_ms;
    assert(near * d <= far * d) by (nonlinear_arith)
        requires
            near <= far,
            d >= 0,
    ;
    assert(0 * d == 0);
    assert(360_000 * d / 360_000 == d);
}

/// The first completed sweep of an elevation is found, whenever one has its number.
pub proof fn the_first_completed_sweep_is_found(
    sweeps: Seq<CompletedSweep>,
    number: u8,
    r: Option<usize>,
    j: int,
)
    requires
        is_first_completed(sweeps, number, r),
        0 <= j < sweeps.len(),
        sweeps[j].number == number,
    ensures
        r is Some,
        r->0 <= j,
        sweeps[r->0 as int].number == number,
{
}

/// The line of the present names the projected elevation with its angle, else the
/// one in progress, else nothing more.
pub proof fn the_present_names_what_is_projected(n: u8, m: u8, angle: Option<i32>)
    ensures
        now_label_of(Some(n), angle, Some(m)) == elevation_text("NOW \u{00B7} Elev "@, n, angle),
        now_label_of(Some(n), angle, None) == elevation_text("NOW \u{00B7} Elev "@, n, angle),
        now_label_of(None, angle, Some(m)) == "NOW \u{00B7} Elev "@ + crate::text::decimal(
            m as nat,
        ),
        now_label_of(None, angle, None) == "NOW"@,
{
}

/// A label touches its point with the middle of the side it is aligned by: with its
/// lower edge above the point, its left edge right of it, its upper edge below it,
/// its right edge left of it.
pub proof fn labels_touch_their_point(pos: ScreenPos, width: int, height: int)
    requires
        0 <= width,
        0 <= height,
    ensures
        ({
            let above = corner_of(pos, width, height, LabelAlign::CenterBottom);
            let right = corner_of(pos, width, height, LabelAlign::LeftCenter);
            let below = corner_of(pos, width, height, LabelAlign::CenterTop);
            let left = corner_of(pos, width, height, LabelAlign::RightCenter);
            &&& above.1 + height == pos.y && below.1 == pos.y
            &&& right.0 == pos.x && left.0 + width == pos.x
            &&& above.0 == below.0 && width - 1 <= 2 * (pos.x - above.0) <= width
            &&& right.1 == left.1 && height - 1 <= 2 * (pos.y - right.1) <= height
        }),
{
}

/// A chunk covers the directions from its first radial on to its last, and no
/// others.
pub proof fn a_chunk_covers_from_first_to_last(c: Chunk, further: int)
    requires
        0 <= further < 360_000,
    ensures
        covers(c, c.first_az + further) <==> further <= arc_between(
            c.first_az as int,
            c.last_az as int,
        ),
        covers(c, c.first_az as int),
        covers(c, c.last_az as int),
{
    an_arc_further_on_is_that_arc_away(c.first_az as int, further, 0);
}

/// The first chunk that covers a direction is found, whenever one does.
pub proof fn the_first_covering_chunk_is_found(
    chunks: Seq<Chunk>,
    az: int,
    r: Option<usize>,
    j: int,
)
    requires
        is_first_covering(chunks, az, r),
        0 <= j < chunks.len(),
        covers(chunks[j], az),
    ensures
        r is Some,
        r->0 <= j,
        covers(chunks[r->0 as int], az),
{
}

/// The segments of the ring are a degree wide and follow each other from the start.
pub proof fn segments_are_a_degree_wide(start: int, i: int)
    requires
        0 <= i < 360,
    ensures
        start + 1000 * i < segment_middle(start, i) < start + 1000 * (i + 1),
        segment_middle(start, i) - (start + 1000 * i) == start + 1000 * (i + 1) - segment_middle(
            start,
            i,
        ),
{
}

/// Eight colours take turns: chunks that follow each other never share one.
pub proof fn neighbouring_chunks_differ(a: int, b: int)
    requires
        0 <= a < b < a + 8,
    ensures
        chunk_color_of(a) != chunk_color_of(b),
        chunk_color_of(a + 8) == chunk_color_of(a),
{
    assert((a + 8) % 8 == a % 8);
    assert(a % 8 != b % 8);
}

/// The data reaches as far round as the chunk that ends furthest from the start.
pub proof fn data_reaches_to_the_furthest_chunk(chunks: Seq<Chunk>, start: int, i: int)
    requires
        0 <= i < chunks.len(),
    ensures
        arc_between(start, chunks[i].last_az as int) <= data_arc_of(chunks, start) < 360_000,
        exists|k: int|
            0 <= k < chunks.len() && arc_between(start, (#[trigger] chunks[k]).last_az as int)
                == data_arc_of(chunks, start),
    decreases chunks.len(),
{
    let n = chunks.len() as int;
    let rest = chunks.drop_last();
    if rest.len() > 0 {
        data_reaches_to_the_furthest_chunk(
            rest,
            start,
            if i < n - 1 {
                i
            } else {
                0
            },
        );
        if i < n - 1 {
            assert(rest[i] == chunks[i]);
        }
        let k = choose|k: int|
            0 <= k < rest.len() && arc_between(start, (#[trigger] rest[k]).last_az as int)
                == data_arc_of(rest, start);
        assert(rest[k] == chunks[k]);
    } else {
        assert(data_arc_of(rest, start) == 0);
    }
    assert(chunks[n - 1] == chunks.last());
}

/// A chunk of at least fifteen degrees is labelled in its middle, with its number,
/// counted from one, and its radials; a smaller one is not.
pub proof fn wide_chunks_are_labelled(c: Chunk, i: int)
    requires
        0 <= i,
    ensures
        ({
            let width = arc_between(c.first_az as int, c.last_az as int);
            let labels = chunk_label_of(c, i);
            &&& labels.len() == 1 <==> width >= 15_000
            &&& labels.len() == 0 <==> width < 15_000
            &&& width >= 15_000 ==> {
                &&& labels[0].left == "C"@ + crate::text::decimal((i + 1) as nat) + " \u{00B7} "@
                    + crate::text::decimal(c.radials as nat) + "r"@
                &&& labels[0].right is None
                &&& width - 1 <= 2 * (labels[0].azimuth - c.first_az) <= width
            }
        }),
{
}

/// Every chunk that is wide enough has its label among those of the ring.
pub proof fn every_wide_chunk_has_its_label(chunks: Seq<Chunk>, n: int, i: int)
    requires
        0 <= i < n <= chunks.len(),
        chunk_label_of(chunks[i], i).len() == 1,
    ensures
        chunk_labels_of(chunks, n).contains(chunk_label_of(chunks[i], i)[0]),
    decreases n,
{
    let before = chunk_labels_of(chunks, n - 1);
    let this = chunk_label_of(chunks[n - 1], n - 1);
    let label = chunk_label_of(chunks[i], i)[0];
    if i == n - 1 {
        assert((before + this)[before.len() as int] == label);
    } else {
        every_wide_chunk_has_its_label(chunks, n - 1, i);
        let k = choose|k: int| 0 <= k < before.len() && before[k] == label;
        assert((before + this)[k] == label);
    }
}

/// The progress tells the sweep's number and angle, the radials received, and how
/// many elevations are in of how many.
pub proof fn the_progress_counts_radials_and_elevations(l: LiveSweep, n: u8, expected: u32)
    requires
        l.in_progress == Some(n),
        l.expected_count == Some(expected),
    ensures
        progress_text(l) == "Sweep "@ + crate::text::decimal(n as nat) + " "@ + angle_text(
            pattern_angle(l.angles@, n),
        ) + " \u{00B7} "@ + crate::text::decimal(l.radials as nat) + "r \u{00B7} "@
            + crate::text::decimal(l.received@.len()) + ("/"@ + crate::text::decimal(
            expected as nat,
        )) + " elev"@,
{
}

/// A live ring has its progress where its edge stands, the labels of its chunks
/// where there are several, and in the middle of the rest the sweep received last.
pub proof fn a_live_ring_names_progress_and_the_sweep_before(
    chunks: Seq<Chunk>,
    az: int,
    start: int,
    l: LiveSweep,
)
    ensures
        ({
            let labels = live_labels_of(chunks, az, start, l);
            let rest = 360_000 - data_arc_of(chunks, start);
            let n = l.received@.last();
            &&& labels.contains(plain_label(az, progress_text(l), current_text()))
            &&& chunks.len() <= 1 ==> labels[0] == plain_label(
                az,
                progress_text(l),
                current_text(),
            )
            &&& chunks.len() > 1 ==> labels.take(
                chunk_labels_of(chunks, chunks.len() as int).len() as int,
            ) == chunk_labels_of(chunks, chunks.len() as int)
            &&& rest > 30_000 && l.received@.len() > 0 ==> {
                &&& labels.last().left == elevation_text(
                    "Prev sweep "@,
                    n,
                    pattern_angle(l.angles@, n),
                )
                &&& labels.last().left_color == previous_text()
                &&& rest - 1 <= 2 * (labels.last().azimuth - start - (360_000 - rest)) <= rest
            }
            &&& rest <= 30_000 || l.received@.len() == 0 ==> labels.last() == plain_label(
                az,
                progress_text(l),
                current_text(),
            )
        }),
{
    let labels = live_labels_of(chunks, az, start, l);
    let all = chunk_labels_of(chunks, chunks.len() as int);
    let k = if chunks.len() > 1 {
        all.len() as int
    } else {
        0
    };
    assert(labels[k] == plain_label(az, progress_text(l), current_text()));
    if chunks.len() > 1 {
        assert(labels.take(all.len() as int) =~= all);
    }
}

/// Each of the 180 segments of the ring is two degrees wide, and is new where its
/// middle lies within the swept arc.
pub proof fn segments_are_new_within_the_swept_arc(i: u32, swept: i64, is_new: bool, color: Color32)
    requires
        i < 180,
        call_ensures(is_current_segment, (i, swept), is_new),
        call_ensures(segment_color, (i, swept), color),
    ensures
        swept >= 2000 * (i + 1) ==> is_new,
        swept <= 2000 * i ==> !is_new,
        is_new ==> color == crate::colors::rgba(80, 200, 120, 160),
        !is_new ==> color == crate::colors::rgba(120, 120, 180, 120),
{
}

/// A label stands outwards of the ring: above it in the north, to its right in the
/// east, below it in the south, to its left in the west.
pub proof fn labels_stand_outside_the_ring(az: i64, a: LabelAlign)
    requires
        0 <= az < 360_000,
        call_ensures(sweep_label_align, (az,), a),
    ensures
        az < 45_000 || 315_000 <= az ==> a == LabelAlign::CenterBottom,
        45_000 <= az < 135_000 ==> a == LabelAlign::LeftCenter,
        135_000 <= az < 225_000 ==> a == LabelAlign::CenterTop,
        225_000 <= az < 315_000 ==> a == LabelAlign::RightCenter,
{
}

/// During playback the edge of the ring tells the playhead's time and its start the
/// shown sweep's; what is left of the ring tells of the sweep before, each with its
/// own number and angle.
pub proof fn playback_tells_of_both_sweeps(
    playhead: String,
    shown: ShownSweep,
    previous: PreviousSweep,
    number: u8,
    t: DonutTexts,
)
    requires
        call_ensures(
            playback_texts,
            (playhead, Some(shown), Some(previous), Some(number)),
            t,
        ),
    ensures
        text_view(t.cur_edge) == Some(playhead@),
        text_view(t.cur_start) == Some(shown.start@),
        text_view(t.cur_meta) == Some(elevation_text("Elev "@, shown.number, Some(shown.angle))),
        text_view(t.prev_edge) == Some(previous.end@),
        text_view(t.prev_at_edge) == Some(previous.at_edge@),
        text_view(t.prev_meta) == Some(elevation_text("Elev "@, number, Some(previous.angle))),
{
}

/// While streaming the start tells the first chunk's time and the edge the last one's,
/// and the rest of the ring tells of the elevation received last.
pub proof fn streaming_tells_of_the_chunks(
    first: String,
    last: String,
    active: u8,
    received: &Vec<u8>,
    previous: (String, String),
    angles: &Vec<i32>,
    t: DonutTexts,
)
    requires
        received@.len() > 0,
        call_ensures(
            live_texts,
            (Some(first), Some(last), Some(active), received, Some(previous), angles),
            t,
        ),
    ensures
        text_view(t.cur_start) == Some(first@),
        text_view(t.cur_edge) == Some(last@),
        text_view(t.cur_meta) == Some(
            elevation_text("Elev "@, active, pattern_angle(angles@, active)),
        ),
        text_view(t.prev_edge) == Some(previous.0@),
        text_view(t.prev_at_edge) == Some(previous.1@),
        text_view(t.prev_meta) == Some(
            elevation_text(
                "Elev "@,
                received@[received@.len() - 1],
                pattern_angle(angles@, received@[received@.len() - 1]),
            ),
        ),
{
}

/// The sweep before the current one is the first completed of the elevation received
/// last.
pub proof fn the_previous_sweep_is_the_one_received_last(
    received: &Vec<u8>,
    sweeps: &Vec<CompletedSweep>,
    r: Option<usize>,
)
    requires
        call_ensures(previous_completed, (received, sweeps), r),
    ensures
        received@.len() == 0 ==> r is None,
        r is Some ==> r->0 < sweeps@.len() && sweeps@[r->0 as int].number
            == received@[received@.len() - 1],
{
}

/// Every other ring of range is stronger, and both kinds differ by theme.
pub proof fn every_other_ring_is_stronger(
    i: u32,
    strong: (Color32, u32),
    weak: (Color32, u32),
    dark: bool,
)
    requires
        i % 2 == 0,
        i < u32::MAX,
        call_ensures(ring_style, (i, dark), strong),
        call_ensures(ring_style, ((i + 1) as u32, dark), weak),
    ensures
        strong.1 == 15 && weak.1 == 10,
        strong.0.a > weak.0.a,
{
}

/// A stamp is the time, with its age behind it where there is one.
pub proof fn stamps_tell_time_and_age(time: &str, age: String, with: String, without: String)
    requires
        call_ensures(stamp, (time, Some(age)), with),
        call_ensures(stamp, (time, None::<String>), without),
    ensures
        without@ == time@,
        with@ == time@ + " "@ + age@,
{
}

/// Between chunks there is one border less than there are chunks.
pub proof fn borders_lie_between_chunks(chunks: usize, n: usize)
    requires
        call_ensures(chunk_borders, (chunks,), n),
    ensures
        chunks > 0 ==> n + 1 == chunks,
        chunks == 0 ==> n == 0,
{
}

/// What is current is told in green and what is previous in blue.
pub proof fn current_and_previous_have_their_colours()
    ensures
        current_text() == crate::colors::rgb(100, 220, 140),
        previous_text() == crate::colors::rgb(160, 160, 220),
{
}

/// A text that is missing counts as empty where it stands beside another.
pub proof fn missing_texts_are_empty(s: String)
    ensures
        or_empty(Some(s)) == s@,
        or_empty(None) == Seq::<char>::empty(),
        text_view(Some(s)) == Some(s@),
        text_view(None) is None,
{
}

/// The eight colours of the chunks, in their order.
pub proof fn chunks_have_eight_colours(turn: int)
    requires
        0 <= turn,
    ensures
        chunk_color_of(8 * turn) == crate::colors::rgba(70, 200, 110, 160),
        chunk_color_of(8 * turn + 1) == crate::colors::rgba(80, 180, 220, 160),
        chunk_color_of(8 * turn + 2) == crate::colors::rgba(220, 180, 70, 160),
        chunk_color_of(8 * turn + 3) == crate::colors::rgba(180, 100, 220, 160),
        chunk_color_of(8 * turn + 4) == crate::colors::rgba(220, 110, 80, 160),
        chunk_color_of(8 * turn + 5) == crate::colors::rgba(100, 220, 180, 160),
        chunk_color_of(8 * turn + 6) == crate::colors::rgba(220, 140, 180, 160),
        chunk_color_of(8 * turn + 7) == crate::colors::rgba(160, 220, 80, 160),
{
}

/// What no chunk covers has the colour of the sweep before.
pub proof fn uncovered_parts_have_the_previous_colour(i: usize, covered: Color32, rest: Color32)
    requires
        call_ensures(chunk_color, (Some(i),), covered),
        call_ensures(chunk_color, (None::<usize>,), rest),
    ensures
        covered == chunk_color_of(i as int),
        rest == crate::colors::rgba(120, 120, 180, 120),
{
}

} // verus!
