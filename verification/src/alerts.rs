//! Weather alerts on the map: which are painted, in what order and how.

use crate::colors::{from_rgba_unmultiplied, Color32};
use crate::geo::{GeoBounds, GeoPoint, ScreenPos};
use vstd::prelude::*;

verus! {

// ---- painting ------------------------------------------------------------------

/// What the map needs to know of an alert.
#[derive(Clone, Copy, Debug)]
pub struct AlertMark {
    pub is_warning: bool,
    /// Larger for graver alerts.
    pub severity_rank: u8,
    pub color: (u8, u8, u8),
    /// Whether its bounding box meets the visible area.
    pub in_view: bool,
}

/// Which pass around the radar image is painted.
#[derive(Clone, Copy, Debug, PartialEq, Eq, Structural)]
pub enum AlertRenderPhase {
    /// Before the radar: fills of warnings only.
    UnderRadar,
    /// After the radar: fills of the others and all outlines.
    OverRadar,
}

/// Whether an alert is shown: in view, and of a class that is switched on.
pub open spec fn is_shown(a: AlertMark, show_warnings: bool, show_other: bool) -> bool {
    a.in_view && if a.is_warning {
        show_warnings
    } else {
        show_other
    }
}

/// Whether an alert's class and severity put it below another's.
pub open spec fn paints_below(a: AlertMark, b: AlertMark) -> bool {
    (!a.is_warning && b.is_warning) || (a.is_warning == b.is_warning && a.severity_rank
        < b.severity_rank)
}

/// Whether the alert at one index is painted before that at another: the lower
/// one first, and of two that rank alike the one listed first.
pub open spec fn paints_before(alerts: Seq<AlertMark>, i: usize, j: usize) -> bool {
    let (a, b) = (alerts[i as int], alerts[j as int]);
    paints_below(a, b) || (!paints_below(b, a) && i < j)
}

/// Whether `r` lists exactly the shown alerts, in the order in which they are
/// painted.
pub open spec fn is_paint_order(
    alerts: Seq<AlertMark>,
    show_warnings: bool,
    show_other: bool,
    r: Seq<usize>,
) -> bool {
    &&& forall|k: int|
        0 <= k < r.len() ==> (#[trigger] r[k]) < alerts.len() && is_shown(
            alerts[r[k] as int],
            show_warnings,
            show_other,
        )
    &&& forall|i: int|
        0 <= i < alerts.len() && is_shown(#[trigger] alerts[i], show_warnings, show_other)
            ==> r.contains(i as usize)
    &&& forall|j: int, k: int|
        0 <= j < k < r.len() ==> paints_before(alerts, #[trigger] r[j], #[trigger] r[k])
}

fn below(a: AlertMark, b: AlertMark) -> (r: bool)
    ensures
        r == paints_below(a, b),
{
    (!a.is_warning && b.is_warning) || (a.is_warning == b.is_warning && a.severity_rank
        < b.severity_rank)
}

/// The shown alerts in the order in which they are painted: warnings on top of
/// the others, within a class the graver ones on top.
pub fn paint_order(alerts: &Vec<AlertMark>, show_warnings: bool, show_other: bool) -> (r: Vec<usize>)
    ensures
        is_paint_order(alerts@, show_warnings, show_other, r@),
{
    let mut r: Vec<usize> = Vec::new();
    let mut i: usize = 0;
    while i < alerts.len()
        invariant
            i <= alerts@.len(),
            r@.len() <= i,
            forall|k: int|
                0 <= k < r@.len() ==> (#[trigger] r@[k]) < i && is_shown(
                    alerts@[r@[k] as int],
                    show_warnings,
                    show_other,
                ),
            forall|j: int|
                0 <= j < i && is_shown(#[trigger] alerts@[j], show_warnings, show_other)
                    ==> r@.contains(j as usize),
            forall|j: int, k: int|
                0 <= j < k < r@.len() ==> paints_before(alerts@, #[trigger] r@[j], #[trigger] r@[k]),
        decreases alerts@.len() - i,
    {
        let a = alerts[i];
        let shown = a.in_view && if a.is_warning {
            show_warnings
        } else {
            show_other
        };
        if shown {
            let ghost before = r@;
            let mut p: usize = r.len();
            while p > 0 && below(a, alerts[r[p - 1]])
                invariant
                    i < alerts@.len(),
                    a == alerts@[i as int],
                    r@ == before,
                    p <= r@.len(),
                    forall|k: int| 0 <= k < r@.len() ==> (#[trigger] r@[k]) < i,
                    forall|k: int| p <= k < r@.len() ==> paints_below(a, alerts@[#[trigger] r@[k] as int]),
                decreases p,
            {
                p -= 1;
            }
            r.insert(p, i);
            proof {
                let after = r@;
                assert(after[p as int] == i);
                assert forall|j: int|
                    0 <= j < i + 1 && is_shown(
                        #[trigger] alerts@[j],
                        show_warnings,
                        show_other,
                    ) implies after.contains(j as usize) by {
                    if j < i {
                        let k = choose|k: int| 0 <= k < before.len() && before[k] == j as usize;
                        if k < p {
                            assert(after[k] == j as usize);
                        } else {
                            assert(after[k + 1] == j as usize);
                        }
                    }
                }
                assert forall|j: int, k: int| 0 <= j < k < after.len() implies paints_before(
                    alerts@,
                    #[trigger] after[j],
                    #[trigger] after[k],
                ) by {
                    if j == p {
                        assert(after[k] == before[k - 1]);
                    } else if k == p {
                        assert(after[j] == before[j]);
                        let last = before[p - 1];
                        assert(!paints_below(a, alerts@[last as int]));
                        if j < p - 1 {
                            assert(paints_before(alerts@, before[j], before[p - 1]));
                        }
                    } else {
                        let u = if j < p {
                            j
                        } else {
                            j - 1
                        };
                        let v = if k < p {
                            k
                        } else {
                            k - 1
                        };
                        assert(after[j] == before[u] && after[k] == before[v]);
                        assert(paints_before(alerts@, before[u], before[v]));
                    }
                }
            }
        }
        i += 1;
    }
    r
}

/// Opacity of a warning's fill, which lies under the radar.
pub const WARNING_FILL_ALPHA: u8 = 70;

/// Opacity of the other fills, which lie over the radar.
pub const WATCH_FILL_ALPHA: u8 = 45;

/// An outline: its width in tenths of a pixel, its colour, and whether a black
/// halo lies under it.
#[derive(Clone, Copy, Debug, PartialEq, Eq, Structural)]
pub struct Outline {
    pub width_tenths: u32,
    pub color: Color32,
    pub halo: bool,
}

/// What a pass paints of an alert: the fill first.
#[derive(Clone, Copy, Debug, PartialEq, Eq, Structural)]
pub struct AlertPaint {
    pub fill: Option<Color32>,
    pub outline: Option<Outline>,
}

/// What a pass paints of an alert.
pub open spec fn paint_of(a: AlertMark, phase: AlertRenderPhase) -> AlertPaint {
    let (r, g, b) = a.color;
    match phase {
        AlertRenderPhase::UnderRadar => AlertPaint {
            fill: if a.is_warning {
                Some(crate::colors::rgba(r, g, b, WARNING_FILL_ALPHA))
            } else {
                None
            },
            outline: None,
        },
        AlertRenderPhase::OverRadar => AlertPaint {
            fill: if a.is_warning {
                None
            } else {
                Some(crate::colors::rgba(r, g, b, WATCH_FILL_ALPHA))
            },
            outline: Some(
                if a.is_warning {
                    Outline {
                        width_tenths: 25,
                        color: crate::colors::rgba(r, g, b, 220),
                        halo: true,
                    }
                } else {
                    Outline {
                        width_tenths: 20,
                        color: crate::colors::rgba(r, g, b, 190),
                        halo: false,
                    }
                },
            ),
        },
    }
}

/// What a pass paints of an alert.
pub fn paint(a: AlertMark, phase: AlertRenderPhase) -> (p: AlertPaint)
    ensures
        p == paint_of(a, phase),
{
    let (r, g, b) = a.color;
    match phase {
        AlertRenderPhase::UnderRadar => {
            if a.is_warning {
                AlertPaint {
                    fill: Some(from_rgba_unmultiplied(r, g, b, WARNING_FILL_ALPHA)),
                    outline: None,
                }
            } else {
                AlertPaint { fill: None, outline: None }
            }
        },
        AlertRenderPhase::OverRadar => {
            if a.is_warning {
                AlertPaint {
                    fill: None,
                    outline: Some(
                        Outline {
                            width_tenths: 25,
                            color: from_rgba_unmultiplied(r, g, b, 220),
                            halo: true,
                        },
                    ),
                }
            } else {
                AlertPaint {
                    fill: Some(from_rgba_unmultiplied(r, g, b, WATCH_FILL_ALPHA)),
                    outline: Some(
                        Outline {
                            width_tenths: 20,
                            color: from_rgba_unmultiplied(r, g, b, 190),
                            halo: false,
                        },
                    ),
                }
            }
        },
    }
}

/// The two passes fill and outline every alert once: a warning is filled under
/// the radar, any other alert over it, and every outline lies over it.
pub proof fn passes_paint_each_alert_once(a: AlertMark)
    ensures
        paint_of(a, AlertRenderPhase::UnderRadar).fill is Some <==> a.is_warning,
        paint_of(a, AlertRenderPhase::OverRadar).fill is Some <==> !a.is_warning,
        paint_of(a, AlertRenderPhase::UnderRadar).outline is None,
        paint_of(a, AlertRenderPhase::OverRadar).outline is Some,
{
}

/// Warnings are painted on top: behind a warning in the painting order stand
/// only warnings, and none that is less grave.
pub proof fn warnings_paint_on_top(
    alerts: Seq<AlertMark>,
    show_warnings: bool,
    show_other: bool,
    r: Seq<usize>,
    j: int,
    k: int,
)
    requires
        is_paint_order(alerts, show_warnings, show_other, r),
        0 <= j < k < r.len(),
        alerts[r[j] as int].is_warning,
    ensures
        alerts[r[k] as int].is_warning,
        alerts[r[j] as int].severity_rank <= alerts[r[k] as int].severity_rank,
{
    assert(paints_before(alerts, r[j], r[k]));
}

/// Outline segments shorter than this, squared, are left out: half a square
/// pixel.
pub const MIN_SEGMENT_SQ: i128 = 500_000;

/// The end of the segment that starts at a point of a ring: the next point, and
/// the first one behind the last.
pub open spec fn next_on_ring(i: int, n: int) -> int {
    if i + 1 < n {
        i + 1
    } else {
        0
    }
}

/// Whether the segment that starts at a point of a ring is drawn.
pub open spec fn is_segment(points: Seq<ScreenPos>, i: int) -> bool {
    points.len() >= 2 && crate::geo::dist_sq(
        points[next_on_ring(i, points.len() as int)],
        points[i],
    ) >= MIN_SEGMENT_SQ
}

/// The points of a ring at which a drawn segment starts, in order. The ring is
/// drawn segment by segment, closing it behind the last point.
pub fn ring_segments(points: &Vec<ScreenPos>) -> (r: Vec<usize>)
    requires
        forall|i: int|
            0 <= i < points@.len() ==> -0x4000_0000_0000_0000 <= (#[trigger] points@[i]).x
                <= 0x3fff_ffff_ffff_ffff && -0x4000_0000_0000_0000 <= points@[i].y
                <= 0x3fff_ffff_ffff_ffff,
    ensures
        crate::select::selects(r@, points@.len() as int, |i: int| is_segment(points@, i)),
{
    let ghost keep = |i: int| is_segment(points@, i);
    let mut r: Vec<usize> = Vec::new();
    let n: usize = points.len();
    let mut i: usize = 0;
    while i < n
        invariant
            i <= n == points@.len(),
            forall|i: int|
                0 <= i < points@.len() ==> -0x4000_0000_0000_0000 <= (#[trigger] points@[i]).x
                    <= 0x3fff_ffff_ffff_ffff && -0x4000_0000_0000_0000 <= points@[i].y
                    <= 0x3fff_ffff_ffff_ffff,
            keep == (|i: int| is_segment(points@, i)),
            crate::select::selects(r@, i as int, keep),
        decreases n - i,
    {
        proof {
            crate::select::lemma_select_step(r@, i, keep);
        }
        let next: usize = if i + 1 < n {
            i + 1
        } else {
            0
        };
        let (p1, p2) = (points[i], points[next]);
        let dx: i128 = p2.x as i128 - p1.x as i128;
        let dy: i128 = p2.y as i128 - p1.y as i128;
        proof {
            lemma_square_bound(dx as int);
            lemma_square_bound(dy as int);
        }
        if n >= 2 && dx * dx + dy * dy >= MIN_SEGMENT_SQ {
            r.push(i);
        }
        i += 1;
    }
    r
}

proof fn lemma_square_bound(d: int)
    requires
        -0x7fff_ffff_ffff_ffff <= d <= 0x7fff_ffff_ffff_ffff,
    ensures
        0 <= d * d <= 0x3fff_ffff_ffff_ffff_ffff_ffff_ffff_ffff,
{
    assert(0 <= d * d <= 0x7fff_ffff_ffff_ffff * 0x7fff_ffff_ffff_ffff) by (nonlinear_arith)
        requires
            -0x7fff_ffff_ffff_ffff <= d <= 0x7fff_ffff_ffff_ffff,
    ;
}

/// A triangle of a fill.
#[derive(Clone, Copy, Debug, PartialEq, Eq, Structural)]
pub struct Triangle {
    pub a: GeoPoint,
    pub b: GeoPoint,
    pub c: GeoPoint,
}

/// Whether a triangle lies wholly off one edge of the view.
pub open spec fn is_off_view(t: Triangle, v: GeoBounds) -> bool {
    ||| t.a.lon < v.min_lon && t.b.lon < v.min_lon && t.c.lon < v.min_lon
    ||| t.a.lon > v.max_lon && t.b.lon > v.max_lon && t.c.lon > v.max_lon
    ||| t.a.lat < v.min_lat && t.b.lat < v.min_lat && t.c.lat < v.min_lat
    ||| t.a.lat > v.max_lat && t.b.lat > v.max_lat && t.c.lat > v.max_lat
}

/// The triangles of a fill that may be in view, in order. The one at place `k`
/// takes the vertices `3k`, `3k + 1` and `3k + 2` of the mesh.
pub fn visible_triangles(triangles: &Vec<Triangle>, view: GeoBounds) -> (r: Vec<usize>)
    ensures
        crate::select::selects(
            r@,
            triangles@.len() as int,
            |i: int| !is_off_view(triangles@[i], view),
        ),
{
    let ghost keep = |i: int| !is_off_view(triangles@[i], view);
    let mut r: Vec<usize> = Vec::new();
    let mut i: usize = 0;
    while i < triangles.len()
        invariant
            i <= triangles@.len(),
            keep == (|i: int| !is_off_view(triangles@[i], view)),
            crate::select::selects(r@, i as int, keep),
        decreases triangles@.len() - i,
    {
        proof {
            crate::select::lemma_select_step(r@, i, keep);
        }
        let t = triangles[i];
        let off = (t.a.lon < view.min_lon && t.b.lon < view.min_lon && t.c.lon < view.min_lon) || (
        t.a.lon > view.max_lon && t.b.lon > view.max_lon && t.c.lon > view.max_lon) || (t.a.lat
            < view.min_lat && t.b.lat < view.min_lat && t.c.lat < view.min_lat) || (t.a.lat
            > view.max_lat && t.b.lat > view.max_lat && t.c.lat > view.max_lat);
        if !off {
            r.push(i);
        }
        i += 1;
    }
    r
}

/// An alert is shown where it is in view and its own layer is on.
pub proof fn alerts_show_with_their_layer(a: AlertMark, show_warnings: bool, show_other: bool)
    ensures
        !a.in_view ==> !is_shown(a, show_warnings, show_other),
        a.in_view && a.is_warning ==> is_shown(a, show_warnings, show_other) == show_warnings,
        a.in_view && !a.is_warning ==> is_shown(a, show_warnings, show_other) == show_other,
{
}

/// Every shown alert is painted once, and no other is.
pub proof fn shown_alerts_are_painted_once(
    alerts: Seq<AlertMark>,
    show_warnings: bool,
    show_other: bool,
    r: Seq<usize>,
    i: usize,
    j: int,
    k: int,
)
    requires
        is_paint_order(alerts, show_warnings, show_other, r),
        i < alerts.len(),
    ensures
        is_shown(alerts[i as int], show_warnings, show_other) <==> r.contains(i),
        0 <= j < k < r.len() ==> r[j] != r[k],
{
    if is_shown(alerts[i as int], show_warnings, show_other) {
        assert(r.contains(i as int as usize));
    }
    if 0 <= j < k < r.len() {
        assert(paints_before(alerts, r[j], r[k]));
    }
}

/// Of alerts that are alike in kind and severity, the earlier listed lies below.
pub proof fn equal_alerts_keep_their_order(
    alerts: Seq<AlertMark>,
    show_warnings: bool,
    show_other: bool,
    r: Seq<usize>,
    j: int,
    k: int,
)
    requires
        is_paint_order(alerts, show_warnings, show_other, r),
        0 <= j < k < r.len(),
        alerts[r[j] as int].is_warning == alerts[r[k] as int].is_warning,
        alerts[r[j] as int].severity_rank == alerts[r[k] as int].severity_rank,
    ensures
        r[j] < r[k],
{
    assert(paints_before(alerts, r[j], r[k]));
}

/// Alerts are painted in their own colour: warnings filled more strongly and
/// outlined more widely than the rest, and with a halo.
pub proof fn warnings_stand_out(a: AlertMark, b: AlertMark)
    requires
        a.is_warning,
        !b.is_warning,
        a.color == b.color,
    ensures
        ({
            let (r, g, bl) = a.color;
            let under = paint_of(a, AlertRenderPhase::UnderRadar).fill;
            let over = paint_of(b, AlertRenderPhase::OverRadar).fill;
            let wide = paint_of(a, AlertRenderPhase::OverRadar).outline;
            let thin = paint_of(b, AlertRenderPhase::OverRadar).outline;
            &&& under == Some(crate::colors::rgba(r, g, bl, 70))
            &&& over == Some(crate::colors::rgba(r, g, bl, 45))
            &&& wide is Some && thin is Some
            &&& wide->0.width_tenths == 25 && thin->0.width_tenths == 20
            &&& wide->0.color == crate::colors::rgba(r, g, bl, 220)
            &&& thin->0.color == crate::colors::rgba(r, g, bl, 190)
            &&& wide->0.halo && !thin->0.halo
        }),
{
}

/// A ring goes from each point to the next and from the last to the first.
pub proof fn a_ring_closes(i: int, n: int)
    requires
        0 <= i < n,
    ensures
        0 <= next_on_ring(i, n) < n,
        i < n - 1 ==> next_on_ring(i, n) == i + 1,
        next_on_ring(n - 1, n) == 0,
{
}

/// Parts of a ring that are shorter than seven tenths of a pixel are left out, as is
/// a ring of a single point.
pub proof fn short_parts_of_a_ring_are_left_out(points: Seq<ScreenPos>, i: int)
    requires
        0 <= i < points.len(),
    ensures
        points.len() < 2 ==> !is_segment(points, i),
        points.len() >= 2 && i + 1 < points.len() ==> is_segment(points, i) == (
        crate::geo::dist_sq(points[i], points[i + 1]) >= 500_000),
        points.len() >= 2 && i + 1 == points.len() ==> is_segment(points, i) == (
        crate::geo::dist_sq(points[i], points[0]) >= 500_000),
{
    let n = next_on_ring(i, points.len() as int);
    crate::geo::distance_is_mutual(points[n], points[i]);
}

/// A triangle with a corner in view is never left out; one is left out where all its
/// corners lie beyond the same side.
pub proof fn triangles_in_view_are_kept(t: Triangle, v: GeoBounds)
    ensures
        v.min_lon <= t.a.lon <= v.max_lon && v.min_lat <= t.a.lat <= v.max_lat ==> !is_off_view(
            t,
            v,
        ),
        v.min_lon <= t.b.lon <= v.max_lon && v.min_lat <= t.b.lat <= v.max_lat ==> !is_off_view(
            t,
            v,
        ),
        v.min_lon <= t.c.lon <= v.max_lon && v.min_lat <= t.c.lat <= v.max_lat ==> !is_off_view(
            t,
            v,
        ),
        t.a.lon < v.min_lon && t.b.lon < v.min_lon && t.c.lon < v.min_lon ==> is_off_view(t, v),
        t.a.lon > v.max_lon && t.b.lon > v.max_lon && t.c.lon > v.max_lon ==> is_off_view(t, v),
        t.a.lat < v.min_lat && t.b.lat < v.min_lat && t.c.lat < v.min_lat ==> is_off_view(t, v),
        t.a.lat > v.max_lat && t.b.lat > v.max_lat && t.c.lat > v.max_lat ==> is_off_view(t, v),
        is_off_view(t, v) ==> (t.a.lon < v.min_lon && t.b.lon < v.min_lon && t.c.lon < v.min_lon)
            || (t.a.lon > v.max_lon && t.b.lon > v.max_lon && t.c.lon > v.max_lon) || (t.a.lat
            < v.min_lat && t.b.lat < v.min_lat && t.c.lat < v.min_lat) || (t.a.lat > v.max_lat
            && t.b.lat > v.max_lat && t.c.lat > v.max_lat),
{
}

/// Of the triangles exactly those that are not off the view are kept, in their order.
pub proof fn triangles_are_kept_in_order(
    triangles: &Vec<Triangle>,
    view: GeoBounds,
    r: Vec<usize>,
    i: usize,
    j: int,
    k: int,
)
    requires
        call_ensures(visible_triangles, (triangles, view), r),
        i < triangles@.len(),
    ensures
        r@.contains(i) <==> !is_off_view(triangles@[i as int], view),
        0 <= j < k < r@.len() ==> r@[j] < r@[k],
{
    let keep = |x: int| !is_off_view(triangles@[x], view);
    assert(keep(i as int) == !is_off_view(triangles@[i as int], view));
    if r@.contains(i) {
        let x = choose|x: int| 0 <= x < r@.len() && r@[x] == i;
        assert(keep(r@[x] as int));
    }
}

/// Of the parts of a ring exactly those that are long enough are drawn, in their order.
pub proof fn long_parts_of_a_ring_are_drawn(points: &Vec<ScreenPos>, r: Vec<usize>, i: usize)
    requires
        call_ensures(ring_segments, (points,), r),
        i < points@.len(),
    ensures
        r@.contains(i) <==> is_segment(points@, i as int),
{
    let keep = |x: int| is_segment(points@, x);
    assert(keep(i as int) == is_segment(points@, i as int));
    if r@.contains(i) {
        let x = choose|x: int| 0 <= x < r@.len() && r@[x] == i;
        assert(keep(r@[x] as int));
    }
}

} // verus!
