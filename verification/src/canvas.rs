//! The map: which passes draw it and in what order, which sweep is revealed,
//! and how often it is drawn.

use crate::geo::GeoBounds;
use crate::overlays::ViewMode;
use crate::time_format::format_hhmm;
use vstd::prelude::*;
use vstd::string::*;

verus! {

/// The part of the flat map that is in view, to be remembered for what is asked
/// for by place; on the globe none is.
pub fn remembered_bounds(view: ViewMode, flat: GeoBounds) -> (r: Option<GeoBounds>)
    ensures
        r == (if view == ViewMode::Globe3D {
            None
        } else {
            Some(flat)
        }),
{
    match view {
        ViewMode::Globe3D => None,
        ViewMode::Flat2D => Some(flat),
    }
}

/// A pass over the flat map.
#[derive(Clone, Copy, Debug, PartialEq, Eq, Structural)]
pub enum CanvasPass {
    Background,
    NationalMosaic,
    GeoLines,
    SiteMarkers,
    AlertsUnderRadar,
    Radar,
    RadarRing,
    AlertsOverRadar,
    MpingReports,
    GeoLabels,
    SiteLabels,
    StormCells,
    GpsLocation,
    RadarSweep,
    Distance,
    DataProbe,
    MpingDetail,
    ChromeOverlays,
    Caption,
    /// Not a drawing: the pointer acts on the map.
    Interaction,
}

/// What decides which passes are made.
#[derive(Clone, Copy, Debug, PartialEq, Eq, Structural)]
pub struct CanvasFrame {
    pub data_is_live: bool,
    pub mosaic_layer: bool,
    pub has_geo_layers: bool,
    pub warnings_layer: bool,
    pub other_alerts_layer: bool,
    pub has_alerts: bool,
    pub has_radar: bool,
    /// Whether the radar holds data, whose range is then ringed.
    pub has_radar_data: bool,
    pub mping_layer: bool,
    pub has_reports: bool,
    pub report_selected: bool,
    pub storm_cells_visible: bool,
    pub has_storm_cells: bool,
    pub gps_layer: bool,
    pub has_gps: bool,
    pub distance_tool_active: bool,
    pub distance_started: bool,
    pub data_probe_enabled: bool,
    pub pointer_over_map: bool,
    /// Whether this frame's tap brought the phone layout's controls back.
    pub revealed_this_frame: bool,
}

/// A pass's place in the drawing.
pub open spec fn pass_rank(p: CanvasPass) -> int {
    match p {
        CanvasPass::Background => 0,
        CanvasPass::NationalMosaic => 1,
        CanvasPass::GeoLines => 2,
        CanvasPass::SiteMarkers => 3,
        CanvasPass::AlertsUnderRadar => 4,
        CanvasPass::Radar => 5,
        CanvasPass::RadarRing => 6,
        CanvasPass::AlertsOverRadar => 7,
        CanvasPass::MpingReports => 8,
        CanvasPass::GeoLabels => 9,
        CanvasPass::SiteLabels => 10,
        CanvasPass::StormCells => 11,
        CanvasPass::GpsLocation => 12,
        CanvasPass::RadarSweep => 13,
        CanvasPass::Distance => 14,
        CanvasPass::DataProbe => 15,
        CanvasPass::MpingDetail => 16,
        CanvasPass::ChromeOverlays => 17,
        CanvasPass::Caption => 18,
        CanvasPass::Interaction => 19,
    }
}

/// Whether a pass is made.
pub open spec fn is_made(p: CanvasPass, f: CanvasFrame) -> bool {
    let alerts_active = f.data_is_live && f.has_alerts;
    match p {
        CanvasPass::NationalMosaic => f.mosaic_layer && f.data_is_live,
        CanvasPass::GeoLines => f.has_geo_layers,
        CanvasPass::AlertsUnderRadar => f.warnings_layer && alerts_active,
        CanvasPass::Radar => f.has_radar,
        CanvasPass::RadarRing => f.has_radar && f.has_radar_data,
        CanvasPass::AlertsOverRadar => (f.warnings_layer || f.other_alerts_layer) && alerts_active,
        CanvasPass::MpingReports => f.mping_layer && f.has_reports,
        CanvasPass::GeoLabels => f.has_geo_layers,
        CanvasPass::StormCells => f.storm_cells_visible && f.has_storm_cells,
        CanvasPass::GpsLocation => f.gps_layer && f.has_gps,
        CanvasPass::Distance => f.distance_tool_active || f.distance_started,
        CanvasPass::DataProbe => f.data_probe_enabled && f.pointer_over_map,
        CanvasPass::MpingDetail => f.mping_layer && f.report_selected,
        CanvasPass::Interaction => !f.revealed_this_frame,
        _ => true,
    }
}

/// Whether `r` holds exactly the passes that are made, each once, in their
/// order.
pub open spec fn is_drawing(r: Seq<CanvasPass>, f: CanvasFrame) -> bool {
    &&& forall|p: CanvasPass| #[trigger] r.contains(p) <==> is_made(p, f)
    &&& forall|i: int, j: int|
        0 <= i < j < r.len() ==> pass_rank(#[trigger] r[i]) < pass_rank(#[trigger] r[j])
}

/// Whether `r` holds exactly the passes below a rank that are made, in order.
spec fn is_drawing_below(r: Seq<CanvasPass>, f: CanvasFrame, rank: int) -> bool {
    &&& forall|p: CanvasPass| #[trigger] r.contains(p) <==> pass_rank(p) < rank && is_made(p, f)
    &&& forall|i: int, j: int|
        0 <= i < j < r.len() ==> pass_rank(#[trigger] r[i]) < pass_rank(#[trigger] r[j])
}

fn add_pass(r: &mut Vec<CanvasPass>, p: CanvasPass, made: bool, Ghost(f): Ghost<CanvasFrame>)
    requires
        is_drawing_below(old(r)@, f, pass_rank(p)),
        made == is_made(p, f),
    ensures
        is_drawing_below(final(r)@, f, pass_rank(p) + 1),
{
    let ghost before = r@;
    if made {
        r.push(p);
        assert(r@[before.len() as int] == p);
    }
    proof {
        assert forall|q: CanvasPass| #[trigger] r@.contains(q) <==> pass_rank(q) < pass_rank(p) + 1
            && is_made(q, f) by {
            if r@.contains(q) {
                let k = choose|k: int| 0 <= k < r@.len() && r@[k] == q;
                if k < before.len() {
                    assert(before[k] == q);
                    assert(before.contains(q));
                }
            }
            if before.contains(q) {
                let k = choose|k: int| 0 <= k < before.len() && before[k] == q;
                assert(r@[k] == q);
            }
            if pass_rank(q) == pass_rank(p) {
                assert(q == p);
            }
        }
        assert forall|i: int, j: int| 0 <= i < j < r@.len() implies pass_rank(#[trigger] r@[i])
            < pass_rank(#[trigger] r@[j]) by {
            if j == before.len() {
                assert(before[i] == r@[i]);
                assert(before.contains(r@[i]));
            } else {
                assert(before[i] == r@[i] && before[j] == r@[j]);
            }
        }
    }
}

/// The passes over the flat map, in the order in which they are made.
pub fn flat_passes(f: CanvasFrame) -> (r: Vec<CanvasPass>)
    ensures
        is_drawing(r@, f),
{
    let alerts_active = f.data_is_live && f.has_alerts;
    let any_alerts = f.warnings_layer || f.other_alerts_layer;
    let mut r: Vec<CanvasPass> = Vec::new();
    assert(forall|p: CanvasPass| !(#[trigger] r@.contains(p)));
    add_pass(&mut r, CanvasPass::Background, true, Ghost(f));
    add_pass(&mut r, CanvasPass::NationalMosaic, f.mosaic_layer && f.data_is_live, Ghost(f));
    add_pass(&mut r, CanvasPass::GeoLines, f.has_geo_layers, Ghost(f));
    add_pass(&mut r, CanvasPass::SiteMarkers, true, Ghost(f));
    add_pass(&mut r, CanvasPass::AlertsUnderRadar, f.warnings_layer && alerts_active, Ghost(f));
    add_pass(&mut r, CanvasPass::Radar, f.has_radar, Ghost(f));
    add_pass(&mut r, CanvasPass::RadarRing, f.has_radar && f.has_radar_data, Ghost(f));
    add_pass(&mut r, CanvasPass::AlertsOverRadar, any_alerts && alerts_active, Ghost(f));
    add_pass(&mut r, CanvasPass::MpingReports, f.mping_layer && f.has_reports, Ghost(f));
    add_pass(&mut r, CanvasPass::GeoLabels, f.has_geo_layers, Ghost(f));
    add_pass(&mut r, CanvasPass::SiteLabels, true, Ghost(f));
    add_pass(
        &mut r,
        CanvasPass::StormCells,
        f.storm_cells_visible && f.has_storm_cells,
        Ghost(f),
    );
    add_pass(&mut r, CanvasPass::GpsLocation, f.gps_layer && f.has_gps, Ghost(f));
    add_pass(&mut r, CanvasPass::RadarSweep, true, Ghost(f));
    add_pass(
        &mut r,
        CanvasPass::Distance,
        f.distance_tool_active || f.distance_started,
        Ghost(f),
    );
    add_pass(
        &mut r,
        CanvasPass::DataProbe,
        f.data_probe_enabled && f.pointer_over_map,
        Ghost(f),
    );
    add_pass(&mut r, CanvasPass::MpingDetail, f.mping_layer && f.report_selected, Ghost(f));
    add_pass(&mut r, CanvasPass::ChromeOverlays, true, Ghost(f));
    add_pass(&mut r, CanvasPass::Caption, true, Ghost(f));
    add_pass(&mut r, CanvasPass::Interaction, !f.revealed_this_frame, Ghost(f));
    r
}

/// Labels, reports and outlines lie over the radar, fills of warnings under it.
pub proof fn radar_lies_between(r: Seq<CanvasPass>, f: CanvasFrame, i: int, j: int)
    requires
        is_drawing(r, f),
        0 <= i < r.len(),
        0 <= j < r.len(),
        r[i] == CanvasPass::Radar,
    ensures
        r[j] == CanvasPass::AlertsUnderRadar || r[j] == CanvasPass::NationalMosaic ==> j < i,
        r[j] == CanvasPass::AlertsOverRadar || r[j] == CanvasPass::GeoLabels || r[j]
            == CanvasPass::SiteLabels || r[j] == CanvasPass::MpingReports ==> i < j,
{
    if i < j {
        assert(pass_rank(r[i]) < pass_rank(r[j]));
    } else if j < i {
        assert(pass_rank(r[j]) < pass_rank(r[i]));
    }
}

/// When the map is to be drawn again, in milliseconds: soon while data is being
/// revealed, less soon while only the antenna's line moves, and on no account of
/// its own otherwise.
pub fn repaint_after(
    has_radar: bool,
    sweep_revealed: bool,
    between_sweeps: bool,
    live_sweep_active: bool,
    live_line_moving: bool,
) -> (r: Option<u32>)
    ensures
        r == (if !has_radar {
            None
        } else if sweep_revealed || between_sweeps || live_sweep_active {
            Some(33u32)
        } else if live_line_moving {
            Some(100u32)
        } else {
            None
        }),
{
    if !has_radar {
        None
    } else if sweep_revealed || between_sweeps || live_sweep_active {
        Some(33)
    } else if live_line_moving {
        Some(100)
    } else {
        None
    }
}

/// The edge and the start of a revealed sweep, in thousandths of a degree.
#[derive(Clone, Copy, Debug, PartialEq, Eq, Structural)]
pub struct SweepLine {
    pub azimuth: i32,
    pub start: i32,
}

/// The sweep line that is drawn, and whether it is stale.
#[derive(Clone, Copy, Debug, PartialEq, Eq, Structural)]
pub struct SweepLineShown {
    pub line: Option<SweepLine>,
    pub stale: bool,
}

/// The sweep line that is drawn: that of the received data while streaming; else
/// that of the revealed sweep, and between two sweeps the last one, marked as
/// stale.
pub open spec fn sweep_line_of(
    live_active: bool,
    revealed: Option<SweepLine>,
    between_sweeps: bool,
    last: Option<SweepLine>,
) -> SweepLineShown {
    if live_active {
        SweepLineShown { line: revealed, stale: false }
    } else if revealed matches Some(l) && (l.azimuth != 0 || l.start != 0) {
        SweepLineShown { line: revealed, stale: false }
    } else if between_sweeps {
        SweepLineShown { line: last, stale: true }
    } else {
        SweepLineShown { line: None, stale: false }
    }
}

/// The sweep line that is drawn.
pub fn sweep_line(
    live_active: bool,
    revealed: Option<SweepLine>,
    between_sweeps: bool,
    last: Option<SweepLine>,
) -> (s: SweepLineShown)
    ensures
        s == sweep_line_of(live_active, revealed, between_sweeps, last),
{
    if live_active {
        return SweepLineShown { line: revealed, stale: false };
    }
    if let Some(l) = revealed {
        if l.azimuth != 0 || l.start != 0 {
            return SweepLineShown { line: revealed, stale: false };
        }
    }
    if between_sweeps {
        SweepLineShown { line: last, stale: true }
    } else {
        SweepLineShown { line: None, stale: false }
    }
}

/// A sweep of a scan. Times are in milliseconds from the epoch.
#[derive(Clone, Copy, Debug, PartialEq, Eq, Structural)]
pub struct SweepSpan {
    pub elevation_number: u8,
    pub start_ms: i64,
    pub end_ms: i64,
}

/// Whether a sweep is of the displayed elevation.
pub open spec fn is_displayed(s: SweepSpan, displayed: Option<u8>) -> bool {
    displayed == Some(s.elevation_number)
}

/// Whether `r` is the sweep that is revealed at a time: the last one of the
/// displayed elevation that has begun, else the first of that elevation.
pub open spec fn is_revealed_sweep(
    sweeps: Seq<SweepSpan>,
    displayed: Option<u8>,
    ts: i64,
    r: Option<usize>,
) -> bool {
    match r {
        None => forall|j: int| 0 <= j < sweeps.len() ==> !is_displayed(#[trigger] sweeps[j], displayed),
        Some(k) => {
            &&& k < sweeps.len()
            &&& is_displayed(sweeps[k as int], displayed)
            &&& if sweeps[k as int].start_ms <= ts {
                forall|j: int|
                    k < j < sweeps.len() && is_displayed(#[trigger] sweeps[j], displayed)
                        ==> sweeps[j].start_ms > ts
            } else {
                forall|j: int|
                    0 <= j < sweeps.len() && is_displayed(#[trigger] sweeps[j], displayed)
                        ==> sweeps[j].start_ms > ts && k <= j
            }
        },
    }
}

fn same_elevation(s: SweepSpan, displayed: Option<u8>) -> (b: bool)
    ensures
        b == is_displayed(s, displayed),
{
    match displayed {
        Some(n) => n == s.elevation_number,
        None => false,
    }
}

/// The sweep of a scan that is revealed at a time.
pub fn revealed_sweep(sweeps: &Vec<SweepSpan>, displayed: Option<u8>, ts: i64) -> (r: Option<usize>)
    ensures
        is_revealed_sweep(sweeps@, displayed, ts, r),
{
    let mut first: Option<usize> = None;
    let mut begun: Option<usize> = None;
    let mut i: usize = 0;
    while i < sweeps.len()
        invariant
            i <= sweeps@.len(),
            first is None ==> forall|j: int|
                0 <= j < i ==> !is_displayed(#[trigger] sweeps@[j], displayed),
            first matches Some(k) ==> k < i && is_displayed(sweeps@[k as int], displayed)
                && forall|j: int| 0 <= j < k ==> !is_displayed(#[trigger] sweeps@[j], displayed),
            begun is None ==> forall|j: int|
                0 <= j < i && is_displayed(#[trigger] sweeps@[j], displayed) ==> sweeps@[j].start_ms
                    > ts,
            begun matches Some(k) ==> k < i && is_displayed(sweeps@[k as int], displayed)
                && sweeps@[k as int].start_ms <= ts && forall|j: int|
                k < j < i && is_displayed(#[trigger] sweeps@[j], displayed) ==> sweeps@[j].start_ms
                    > ts,
        decreases sweeps@.len() - i,
    {
        if same_elevation(sweeps[i], displayed) {
            if first.is_none() {
                first = Some(i);
            }
            if sweeps[i].start_ms <= ts {
                begun = Some(i);
            }
        }
        i += 1;
    }
    if begun.is_some() {
        begun
    } else {
        first
    }
}

/// The fastest playback at which the sweep line follows: thirty seconds of data
/// in a second.
pub const MAX_SWEEP_SPEED_MS: i64 = 30_000;

/// Whether playback is slow enough for the sweep line to follow.
pub fn sweep_line_follows(speed_ms_per_sec: i64) -> (b: bool)
    ensures
        b == (speed_ms_per_sec <= MAX_SWEEP_SPEED_MS),
{
    speed_ms_per_sec <= MAX_SWEEP_SPEED_MS
}

/// An hour and a minute.
#[derive(Clone, Copy, Debug, PartialEq, Eq, Structural)]
pub struct HourMinute {
    pub hour: u32,
    pub minute: u32,
}

/// What the map says of the data that it shows.
#[derive(Clone, Copy, Debug, PartialEq, Eq, Structural)]
pub enum CanvasCaption {
    Silent,
    /// Nothing is shown yet.
    Acquiring,
    /// What is shown is not of the playhead's time.
    Discrepancy { showing: HourMinute, target: HourMinute, fetching: bool },
}

/// The caption's text, where it says anything.
pub open spec fn caption_of(c: CanvasCaption) -> Option<Seq<char>> {
    match c {
        CanvasCaption::Silent => None,
        CanvasCaption::Acquiring => Some("Acquiring data\u{2026}"@),
        CanvasCaption::Discrepancy { showing, target, fetching } => {
            let shown = crate::time_format::hhmm_text(showing.hour as int, showing.minute as int);
            let wanted = crate::time_format::hhmm_text(target.hour as int, target.minute as int);
            Some(
                if fetching {
                    "showing "@ + shown + " \u{00b7} fetching "@ + wanted + "\u{2026}"@
                } else {
                    "showing "@ + shown + " \u{00b7} no data at "@ + wanted
                },
            )
        },
    }
}

/// The caption's text, where it says anything.
pub fn caption_text(c: CanvasCaption) -> (r: Option<String>)
    ensures
        match caption_of(c) {
            Some(t) => r is Some && r->0@ == t,
            None => r is None,
        },
{
    match c {
        CanvasCaption::Silent => None,
        CanvasCaption::Acquiring => Some("Acquiring data\u{2026}".to_owned()),
        CanvasCaption::Discrepancy { showing, target, fetching } => {
            let mut s = "showing ".to_owned();
            let shown = format_hhmm(showing.hour, showing.minute);
            let wanted = format_hhmm(target.hour, target.minute);
            s.append(shown.as_str());
            if fetching {
                s.append(" \u{00b7} fetching ");
                s.append(wanted.as_str());
                s.append("\u{2026}");
            } else {
                s.append(" \u{00b7} no data at ");
                s.append(wanted.as_str());
            }
            assert(s@ =~= caption_of(c)->0);
            Some(s)
        },
    }
}

/// A layer is drawn when it is switched on and has something to draw: alerts and
/// the mosaic only beside live data, alerts over the radar for either of their
/// layers, those under it for warnings alone.
pub proof fn layers_are_drawn_when_switched_on(r: Seq<CanvasPass>, f: CanvasFrame)
    requires
        is_drawing(r, f),
    ensures
        f.data_is_live && f.has_alerts && f.other_alerts_layer ==> r.contains(
            CanvasPass::AlertsOverRadar,
        ),
        f.data_is_live && f.has_alerts && f.warnings_layer ==> r.contains(
            CanvasPass::AlertsOverRadar,
        ) && r.contains(CanvasPass::AlertsUnderRadar),
        f.data_is_live && f.mosaic_layer ==> r.contains(CanvasPass::NationalMosaic),
        f.has_geo_layers ==> r.contains(CanvasPass::GeoLines) && r.contains(CanvasPass::GeoLabels),
        f.has_radar ==> r.contains(CanvasPass::Radar),
        f.has_radar && f.has_radar_data ==> r.contains(CanvasPass::RadarRing),
        f.mping_layer && f.has_reports ==> r.contains(CanvasPass::MpingReports),
        f.mping_layer && f.report_selected ==> r.contains(CanvasPass::MpingDetail),
        f.storm_cells_visible && f.has_storm_cells ==> r.contains(CanvasPass::StormCells),
        f.gps_layer && f.has_gps ==> r.contains(CanvasPass::GpsLocation),
        f.distance_tool_active ==> r.contains(CanvasPass::Distance),
        f.distance_started ==> r.contains(CanvasPass::Distance),
        f.data_probe_enabled && f.pointer_over_map ==> r.contains(CanvasPass::DataProbe),
        !f.revealed_this_frame ==> r.contains(CanvasPass::Interaction),
{
}

/// No layer is drawn that is switched off or has nothing to draw.
pub proof fn nothing_is_drawn_that_is_switched_off(r: Seq<CanvasPass>, f: CanvasFrame)
    requires
        is_drawing(r, f),
    ensures
        !f.data_is_live ==> !r.contains(CanvasPass::AlertsOverRadar) && !r.contains(
            CanvasPass::AlertsUnderRadar,
        ) && !r.contains(CanvasPass::NationalMosaic),
        !f.has_alerts ==> !r.contains(CanvasPass::AlertsOverRadar) && !r.contains(
            CanvasPass::AlertsUnderRadar,
        ),
        !f.warnings_layer ==> !r.contains(CanvasPass::AlertsUnderRadar),
        !f.warnings_layer && !f.other_alerts_layer ==> !r.contains(CanvasPass::AlertsOverRadar),
        !f.mosaic_layer ==> !r.contains(CanvasPass::NationalMosaic),
        !f.has_geo_layers ==> !r.contains(CanvasPass::GeoLines) && !r.contains(
            CanvasPass::GeoLabels,
        ),
        !f.has_radar ==> !r.contains(CanvasPass::Radar) && !r.contains(CanvasPass::RadarRing),
        !f.has_radar_data ==> !r.contains(CanvasPass::RadarRing),
        !f.mping_layer ==> !r.contains(CanvasPass::MpingReports) && !r.contains(
            CanvasPass::MpingDetail,
        ),
        !f.has_reports ==> !r.contains(CanvasPass::MpingReports),
        !f.report_selected ==> !r.contains(CanvasPass::MpingDetail),
        !f.storm_cells_visible || !f.has_storm_cells ==> !r.contains(CanvasPass::StormCells),
        !f.gps_layer || !f.has_gps ==> !r.contains(CanvasPass::GpsLocation),
        !f.distance_tool_active && !f.distance_started ==> !r.contains(CanvasPass::Distance),
        !f.data_probe_enabled || !f.pointer_over_map ==> !r.contains(CanvasPass::DataProbe),
        f.revealed_this_frame ==> !r.contains(CanvasPass::Interaction),
{
}

/// Background, sites, the sweep, the corner overlays and the caption are part of
/// every frame.
pub proof fn the_frame_of_the_map_is_always_drawn(r: Seq<CanvasPass>, f: CanvasFrame)
    requires
        is_drawing(r, f),
    ensures
        r.contains(CanvasPass::Background),
        r.contains(CanvasPass::SiteMarkers),
        r.contains(CanvasPass::SiteLabels),
        r.contains(CanvasPass::RadarSweep),
        r.contains(CanvasPass::ChromeOverlays),
        r.contains(CanvasPass::Caption),
{
}

/// The passes lie on top of each other in one order, whichever of them are made.
pub proof fn passes_lie_in_one_order(r: Seq<CanvasPass>, f: CanvasFrame, i: int, j: int)
    requires
        is_drawing(r, f),
        0 <= i < r.len(),
        0 <= j < r.len(),
    ensures
        r[i] == CanvasPass::Background && i != j ==> i < j,
        r[i] == CanvasPass::NationalMosaic && r[j] == CanvasPass::GeoLines ==> i < j,
        r[i] == CanvasPass::GeoLines && r[j] == CanvasPass::SiteMarkers ==> i < j,
        r[i] == CanvasPass::SiteMarkers && r[j] == CanvasPass::AlertsUnderRadar ==> i < j,
        r[i] == CanvasPass::SiteMarkers && r[j] == CanvasPass::Radar ==> i < j,
        r[i] == CanvasPass::AlertsUnderRadar && r[j] == CanvasPass::Radar ==> i < j,
        r[i] == CanvasPass::Radar && r[j] == CanvasPass::RadarRing ==> i < j,
        r[i] == CanvasPass::RadarRing && r[j] == CanvasPass::AlertsOverRadar ==> i < j,
        r[i] == CanvasPass::AlertsOverRadar && r[j] == CanvasPass::MpingReports ==> i < j,
        r[i] == CanvasPass::MpingReports && r[j] == CanvasPass::GeoLabels ==> i < j,
        r[i] == CanvasPass::GeoLabels && r[j] == CanvasPass::SiteLabels ==> i < j,
        r[i] == CanvasPass::SiteLabels && r[j] == CanvasPass::StormCells ==> i < j,
        r[i] == CanvasPass::StormCells && r[j] == CanvasPass::GpsLocation ==> i < j,
        r[i] == CanvasPass::GpsLocation && r[j] == CanvasPass::RadarSweep ==> i < j,
        r[i] == CanvasPass::RadarSweep && r[j] == CanvasPass::Distance ==> i < j,
        r[i] == CanvasPass::Distance && r[j] == CanvasPass::DataProbe ==> i < j,
        r[i] == CanvasPass::DataProbe && r[j] == CanvasPass::MpingDetail ==> i < j,
        r[i] == CanvasPass::MpingDetail && r[j] == CanvasPass::ChromeOverlays ==> i < j,
        r[i] == CanvasPass::ChromeOverlays && r[j] == CanvasPass::Caption ==> i < j,
        r[i] == CanvasPass::Interaction && i != j ==> j < i,
{
}

/// No pass is made twice.
pub proof fn no_pass_is_made_twice(r: Seq<CanvasPass>, f: CanvasFrame, i: int, j: int)
    requires
        is_drawing(r, f),
        0 <= i < j < r.len(),
    ensures
        r[i] != r[j],
{
}

/// A live stream shows the line it reveals; otherwise a line that stands at zero
/// counts as none. Only between sweeps does the last line stay, and only that one
/// is stale.
pub proof fn only_the_last_line_is_stale(
    live_active: bool,
    revealed: Option<SweepLine>,
    between_sweeps: bool,
    last: Option<SweepLine>,
)
    ensures
        ({
            let s = sweep_line_of(live_active, revealed, between_sweeps, last);
            let moving = revealed is Some && !(revealed->0.azimuth == 0 && revealed->0.start == 0);
            &&& s.stale <==> between_sweeps && !live_active && !moving
            &&& s.stale ==> s.line == last
            &&& live_active || moving ==> s.line == revealed
            &&& !live_active && !moving && !between_sweeps ==> s.line is None
        }),
{
}

/// The revealed sweep is one of the displayed elevation: the last that has begun,
/// or the first of all where none has.
pub proof fn the_latest_begun_sweep_is_revealed(
    sweeps: Seq<SweepSpan>,
    number: u8,
    ts: i64,
    r: Option<usize>,
    j: int,
)
    requires
        is_revealed_sweep(sweeps, Some(number), ts, r),
        0 <= j < sweeps.len(),
        sweeps[j].elevation_number == number,
    ensures
        r is Some,
        sweeps[r->0 as int].elevation_number == number,
        sweeps[j].start_ms <= ts ==> sweeps[r->0 as int].start_ms <= ts && j <= r->0,
        sweeps[r->0 as int].start_ms > ts ==> r->0 <= j,
{
}

/// No sweep is revealed of an elevation that no sweep has, nor where none is
/// displayed.
pub proof fn only_the_displayed_elevation_is_revealed(
    sweeps: Seq<SweepSpan>,
    displayed: Option<u8>,
    ts: i64,
    r: Option<usize>,
)
    requires
        is_revealed_sweep(sweeps, displayed, ts, r),
    ensures
        r is Some ==> r->0 < sweeps.len() && displayed == Some(
            sweeps[r->0 as int].elevation_number,
        ),
        displayed is None ==> r is None,
{
}

/// The caption names the time on display first and the time that was asked for
/// last, and says whether that one is being fetched.
pub proof fn the_caption_names_both_times(showing: HourMinute, target: HourMinute)
    ensures
        ({
            let shown = crate::time_format::hhmm_text(showing.hour as int, showing.minute as int);
            let wanted = crate::time_format::hhmm_text(target.hour as int, target.minute as int);
            let fetching = caption_of(
                CanvasCaption::Discrepancy { showing, target, fetching: true },
            );
            let missing = caption_of(
                CanvasCaption::Discrepancy { showing, target, fetching: false },
            );
            &&& fetching is Some && missing is Some
            &&& exists|rest: Seq<char>|
                fetching->0 == "showing "@ + shown + #[trigger] (" \u{00b7} fetching "@ + rest)
                    && rest == wanted + "\u{2026}"@
            &&& exists|rest: Seq<char>|
                missing->0 == "showing "@ + shown + #[trigger] (" \u{00b7} no data at "@ + rest)
                    && rest == wanted
        }),
        caption_of(CanvasCaption::Silent) is None,
        caption_of(CanvasCaption::Acquiring) is Some,
{
    let shown = crate::time_format::hhmm_text(showing.hour as int, showing.minute as int);
    let wanted = crate::time_format::hhmm_text(target.hour as int, target.minute as int);
    let fetching = caption_of(CanvasCaption::Discrepancy { showing, target, fetching: true });
    let missing = caption_of(CanvasCaption::Discrepancy { showing, target, fetching: false });
    let ending = wanted + "\u{2026}"@;
    assert(fetching->0 =~= "showing "@ + shown + (" \u{00b7} fetching "@ + ending));
    assert(missing->0 =~= "showing "@ + shown + (" \u{00b7} no data at "@ + wanted));
}

/// Whatever moves is drawn again soon: thirty times a second while a sweep is
/// revealed, between sweeps or in a live sweep, ten times for the line of a stream
/// alone, and not at all where nothing moves or no radar is shown.
pub proof fn what_moves_is_drawn_again(
    sweep_revealed: bool,
    between_sweeps: bool,
    live_sweep_active: bool,
    live_line_moving: bool,
    shown: Option<u32>,
    hidden: Option<u32>,
)
    requires
        call_ensures(
            repaint_after,
            (true, sweep_revealed, between_sweeps, live_sweep_active, live_line_moving),
            shown,
        ),
        call_ensures(
            repaint_after,
            (false, sweep_revealed, between_sweeps, live_sweep_active, live_line_moving),
            hidden,
        ),
    ensures
        hidden is None,
        sweep_revealed ==> shown == Some(33u32),
        between_sweeps ==> shown == Some(33u32),
        live_sweep_active ==> shown == Some(33u32),
        !sweep_revealed && !between_sweeps && !live_sweep_active && live_line_moving ==> shown
            == Some(100u32),
        !sweep_revealed && !between_sweeps && !live_sweep_active && !live_line_moving ==> shown
            is None,
{
}

/// The flat map leaves its bounds behind, the globe none.
pub proof fn the_flat_map_leaves_its_bounds(flat: GeoBounds, r: Option<GeoBounds>, g: Option<GeoBounds>)
    requires
        call_ensures(remembered_bounds, (ViewMode::Flat2D, flat), r),
        call_ensures(remembered_bounds, (ViewMode::Globe3D, flat), g),
    ensures
        r == Some(flat),
        g is None,
{
}

/// The line follows the sweep up to thirty seconds of data in a second.
pub proof fn the_line_follows_up_to_thirty_seconds(speed_ms_per_sec: i64, b: bool)
    requires
        call_ensures(sweep_line_follows, (speed_ms_per_sec,), b),
    ensures
        b <==> speed_ms_per_sec <= 30 * 1000,
{
}

} // verus!
