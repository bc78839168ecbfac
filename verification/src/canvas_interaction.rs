//! What a click or a drag on the map does.

use crate::geo::{nearest_hit, GeoBounds, GeoPoint, Marker, ScreenPos};
use crate::mping::{StormReport, REPORT_PADDING};
use vstd::prelude::*;

verus! {

/// How far from a site's marker a click still hits it: ten pixels.
pub const SITE_HIT_RADIUS: u32 = 10_000;

/// How far from a report's marker a click still hits it: nine pixels.
pub const MPING_HIT_RADIUS: u32 = 9_000;

/// How far outside the view a site still takes part: two degrees.
pub const SITE_PADDING: u32 = 2_000_000;

/// A radar site: its place on the map and on the screen.
#[derive(Debug)]
pub struct SiteMarker {
    pub id: String,
    pub at: GeoPoint,
    pub pos: ScreenPos,
}

/// What `str::to_uppercase` makes of a text.
pub uninterp spec fn uppercase(s: Seq<char>) -> Seq<char>;

/// `str::to_uppercase` of the standard library: the text with each character
/// in upper case, by Unicode's mapping.
#[verifier::external_body]
fn to_uppercase(s: &str) -> (r: String)
    ensures
        r@ == uppercase(s@),
{
    s.to_uppercase()
}

/// The markers that a click can hit: sites near the view, but for the one that
/// is shown already.
pub open spec fn site_targets(
    sites: Seq<SiteMarker>,
    bounds: GeoBounds,
    current: Seq<char>,
) -> Seq<Marker> {
    Seq::new(
        sites.len(),
        |i: int|
            Marker {
                eligible: sites[i].id@ != current && bounds.holds(
                    sites[i].at,
                    SITE_PADDING as int,
                ),
                pos: sites[i].pos,
            },
    )
}

/// The site nearest to a click, within reach. `current` is the id of the shown
/// site in upper case, which is never hit.
pub fn pick_other_site(
    click: ScreenPos,
    bounds: GeoBounds,
    sites: &Vec<SiteMarker>,
    current: &String,
) -> (r: Option<usize>)
    ensures
        crate::geo::is_nearest_hit(
            site_targets(sites@, bounds, current@),
            click,
            SITE_HIT_RADIUS,
            r,
        ),
{
    let mut markers: Vec<Marker> = Vec::new();
    let mut i: usize = 0;
    while i < sites.len()
        invariant
            i <= sites@.len(),
            markers@ == site_targets(sites@, bounds, current@).take(i as int),
        decreases sites@.len() - i,
    {
        let eligible = sites[i].id != *current && bounds.contains(sites[i].at, SITE_PADDING);
        markers.push(Marker { eligible, pos: sites[i].pos });
        assert(markers@ =~= site_targets(sites@, bounds, current@).take(i + 1));
        i += 1;
    }
    assert(markers@ =~= site_targets(sites@, bounds, current@));
    nearest_hit(&markers, click, SITE_HIT_RADIUS)
}

/// The site nearest to a click, within reach. The shown site, however its id is
/// capitalised, is never hit.
pub fn pick_site_at(
    click: ScreenPos,
    bounds: GeoBounds,
    sites: &Vec<SiteMarker>,
    current_site_id: &str,
) -> (r: Option<usize>)
    ensures
        crate::geo::is_nearest_hit(
            site_targets(sites@, bounds, uppercase(current_site_id@)),
            click,
            SITE_HIT_RADIUS,
            r,
        ),
{
    pick_other_site(click, bounds, sites, &to_uppercase(current_site_id))
}

/// The markers that a click can hit: reports near the view that are visible at
/// the shown time.
pub open spec fn report_targets(
    reports: Seq<StormReport>,
    positions: Seq<ScreenPos>,
    bounds: GeoBounds,
    playback_ms: i64,
) -> Seq<Marker> {
    Seq::new(
        reports.len(),
        |i: int|
            Marker {
                eligible: reports[i].obtime_ms <= playback_ms && bounds.holds(
                    reports[i].at,
                    REPORT_PADDING as int,
                ),
                pos: positions[i],
            },
    )
}

/// The report nearest to a click, within reach. Reports that are not drawn yet
/// are not hit.
pub fn pick_mping_report_at(
    click: ScreenPos,
    bounds: GeoBounds,
    reports: &Vec<StormReport>,
    positions: &Vec<ScreenPos>,
    playback_ms: i64,
) -> (r: Option<usize>)
    requires
        positions@.len() == reports@.len(),
    ensures
        crate::geo::is_nearest_hit(
            report_targets(reports@, positions@, bounds, playback_ms),
            click,
            MPING_HIT_RADIUS,
            r,
        ),
{
    let mut markers: Vec<Marker> = Vec::new();
    let mut i: usize = 0;
    while i < reports.len()
        invariant
            i <= reports@.len() == positions@.len(),
            markers@ == report_targets(reports@, positions@, bounds, playback_ms).take(i as int),
        decreases reports@.len() - i,
    {
        let eligible = reports[i].visible_at(playback_ms) && bounds.contains(
            reports[i].at,
            REPORT_PADDING,
        );
        markers.push(Marker { eligible, pos: positions[i] });
        assert(markers@ =~= report_targets(reports@, positions@, bounds, playback_ms).take(i + 1));
        i += 1;
    }
    assert(markers@ =~= report_targets(reports@, positions@, bounds, playback_ms));
    nearest_hit(&markers, click, MPING_HIT_RADIUS)
}

/// What lies under a click: the hits on each kind of overlay, and which overlays
/// take clicks.
#[derive(Clone, Copy, Debug, PartialEq, Eq, Structural)]
pub struct ClickContext {
    pub distance_tool_active: bool,
    pub site: Option<usize>,
    pub mping_shown: bool,
    pub report: Option<usize>,
    pub warnings_shown: bool,
    pub other_alerts_shown: bool,
    pub data_is_live: bool,
    pub alert: Option<usize>,
}

/// What a click does.
#[derive(Clone, Copy, Debug, PartialEq, Eq, Structural)]
pub enum ClickAction {
    PlaceDistancePoint,
    SelectSite(usize),
    SelectMpingReport(usize),
    SelectAlert(usize),
    ClearMpingSelection,
}

/// What a click does: it places a point while distances are measured; else it
/// goes to a site, then to a report, then to an alert, and one that hits nothing
/// closes the report's popover.
pub open spec fn click_action(c: ClickContext) -> ClickAction {
    if c.distance_tool_active {
        ClickAction::PlaceDistancePoint
    } else if c.site is Some {
        ClickAction::SelectSite(c.site->0)
    } else if c.mping_shown && c.report is Some {
        ClickAction::SelectMpingReport(c.report->0)
    } else if (c.warnings_shown || c.other_alerts_shown) && c.data_is_live && c.alert is Some {
        ClickAction::SelectAlert(c.alert->0)
    } else {
        ClickAction::ClearMpingSelection
    }
}

/// What a click does.
pub fn dispatch_click(c: ClickContext) -> (a: ClickAction)
    ensures
        a == click_action(c),
{
    if c.distance_tool_active {
        return ClickAction::PlaceDistancePoint;
    }
    if let Some(i) = c.site {
        return ClickAction::SelectSite(i);
    }
    if c.mping_shown {
        if let Some(i) = c.report {
            return ClickAction::SelectMpingReport(i);
        }
    }
    if (c.warnings_shown || c.other_alerts_shown) && c.data_is_live {
        if let Some(i) = c.alert {
            return ClickAction::SelectAlert(i);
        }
    }
    ClickAction::ClearMpingSelection
}

/// How the globe follows a drag.
#[derive(Clone, Copy, Debug, PartialEq, Eq, Structural)]
pub enum GlobeDrag {
    /// Turns and tilts the view.
    TiltHeading,
    /// Keeps the grabbed point of the surface under the pointer.
    Grab,
    /// Moves by the drag's length.
    Pan,
}

/// How the globe follows a drag: the right or middle button, or the control
/// key, turn and tilt it; else the grabbed point sticks to the pointer where
/// there is one.
pub fn globe_drag(
    secondary: bool,
    middle: bool,
    ctrl: bool,
    point_grabbed: bool,
) -> (d: GlobeDrag)
    ensures
        d == (if secondary || middle || ctrl {
            GlobeDrag::TiltHeading
        } else if point_grabbed {
            GlobeDrag::Grab
        } else {
            GlobeDrag::Pan
        }),
{
    if secondary || middle || ctrl {
        GlobeDrag::TiltHeading
    } else if point_grabbed {
        GlobeDrag::Grab
    } else {
        GlobeDrag::Pan
    }
}

/// What a double click on the globe does.
#[derive(Clone, Copy, Debug, PartialEq, Eq, Structural)]
pub enum GlobeDoubleClick {
    /// Turns about the clicked point of the surface.
    MovePivot(GeoPoint),
    /// Turns about the radar site again.
    FocusSite,
}

/// What a double click on the globe does, by the surface point that it hits.
pub fn globe_double_click(hit: Option<GeoPoint>) -> (d: GlobeDoubleClick)
    ensures
        d == match hit {
            Some(p) => GlobeDoubleClick::MovePivot(p),
            None => GlobeDoubleClick::FocusSite,
        },
{
    match hit {
        Some(p) => GlobeDoubleClick::MovePivot(p),
        None => GlobeDoubleClick::FocusSite,
    }
}

/// What moves the map in a frame.
#[derive(Clone, Copy, Debug)]
pub struct MapInput {
    /// Whether two fingers are down, with their middle on the map.
    pub pinch_on_map: bool,
    pub pinch_zooms: bool,
    pub dragged: bool,
    pub hovered: bool,
    pub scrolled: bool,
    pub double_clicked: bool,
}

/// How the map moves in a frame.
#[derive(Clone, Copy, Debug, PartialEq, Eq)]
pub struct MapMotion {
    pub pinch_zoom: bool,
    pub pinch_pan: bool,
    pub drag_pan: bool,
    pub scroll_zoom: bool,
    /// Back to the first view, after everything else.
    pub reset: bool,
}

/// How the map moves in a frame. Two fingers go before the pointer, so that one
/// motion is never applied twice.
pub fn map_motion(input: MapInput) -> (m: MapMotion)
    ensures
        m == (MapMotion {
            pinch_zoom: input.pinch_on_map && input.pinch_zooms,
            pinch_pan: input.pinch_on_map,
            drag_pan: !input.pinch_on_map && input.dragged,
            scroll_zoom: !input.pinch_on_map && input.hovered && input.scrolled,
            reset: input.double_clicked,
        }),
        !(m.pinch_zoom && m.scroll_zoom),
        !(m.pinch_pan && m.drag_pan),
{
    MapMotion {
        pinch_zoom: input.pinch_on_map && input.pinch_zooms,
        pinch_pan: input.pinch_on_map,
        drag_pan: !input.pinch_on_map && input.dragged,
        scroll_zoom: !input.pinch_on_map && input.hovered && input.scrolled,
        reset: input.double_clicked,
    }
}

/// Whether a site other than the shown one is drawn: where the layer is on, and
/// near the view where the view has bounds.
pub open spec fn is_site_drawn(
    site: SiteMarker,
    layer_on: bool,
    bounds: Option<GeoBounds>,
    current: Seq<char>,
) -> bool {
    &&& layer_on
    &&& site.id@ != current
    &&& bounds matches Some(b) ==> b.holds(site.at, SITE_PADDING as int)
}

/// The sites other than the shown one that are drawn, in order. `current` is
/// the id of the shown site in upper case.
pub fn other_sites_drawn(
    sites: &Vec<SiteMarker>,
    layer_on: bool,
    bounds: Option<GeoBounds>,
    current: &String,
) -> (r: Vec<usize>)
    ensures
        crate::select::selects(
            r@,
            sites@.len() as int,
            |i: int| is_site_drawn(sites@[i], layer_on, bounds, current@),
        ),
{
    let ghost keep = |i: int| is_site_drawn(sites@[i], layer_on, bounds, current@);
    let mut r: Vec<usize> = Vec::new();
    let mut i: usize = 0;
    while i < sites.len()
        invariant
            i <= sites@.len(),
            keep == (|i: int| is_site_drawn(sites@[i], layer_on, bounds, current@)),
            crate::select::selects(r@, i as int, keep),
        decreases sites@.len() - i,
    {
        proof {
            crate::select::lemma_select_step(r@, i, keep);
        }
        let near = match bounds {
            Some(b) => b.contains(sites[i].at, SITE_PADDING),
            None => true,
        };
        if layer_on && sites[i].id != *current && near {
            r.push(i);
        }
        i += 1;
    }
    r
}

/// The sites other than the shown one that are drawn, in order.
pub fn drawn_sites(
    sites: &Vec<SiteMarker>,
    layer_on: bool,
    bounds: Option<GeoBounds>,
    current_site_id: &str,
) -> (r: Vec<usize>)
    ensures
        crate::select::selects(
            r@,
            sites@.len() as int,
            |i: int| is_site_drawn(sites@[i], layer_on, bounds, uppercase(current_site_id@)),
        ),
{
    other_sites_drawn(sites, layer_on, bounds, &to_uppercase(current_site_id))
}

/// A site can be picked where it is not the current one and lies within two degrees
/// of the map.
pub proof fn other_sites_near_the_map_can_be_picked(
    sites: Seq<SiteMarker>,
    bounds: GeoBounds,
    current: Seq<char>,
    i: int,
)
    requires
        0 <= i < sites.len(),
    ensures
        ({
            let m = site_targets(sites, bounds, current)[i];
            &&& m.pos == sites[i].pos
            &&& sites[i].id@ == current ==> !m.eligible
            &&& sites[i].id@ != current ==> m.eligible == (bounds.min_lat - 2_000_000
                <= sites[i].at.lat <= bounds.max_lat + 2_000_000 && bounds.min_lon - 2_000_000
                <= sites[i].at.lon <= bounds.max_lon + 2_000_000)
            &&& site_targets(sites, bounds, current).len() == sites.len()
        }),
{
}

/// A report can be picked once it was made, within half a degree of the map.
pub proof fn reports_made_by_then_can_be_picked(
    reports: Seq<StormReport>,
    positions: Seq<ScreenPos>,
    bounds: GeoBounds,
    playback_ms: i64,
    i: int,
)
    requires
        0 <= i < reports.len(),
    ensures
        ({
            let m = report_targets(reports, positions, bounds, playback_ms)[i];
            &&& m.pos == positions[i]
            &&& reports[i].obtime_ms > playback_ms ==> !m.eligible
            &&& reports[i].obtime_ms <= playback_ms ==> m.eligible == (bounds.min_lat - 500_000
                <= reports[i].at.lat <= bounds.max_lat + 500_000 && bounds.min_lon - 500_000
                <= reports[i].at.lon <= bounds.max_lon + 500_000)
        }),
{
}

/// A click places a point of the ruler before all else; then it takes a site, a
/// report where they are shown, an alert where they are shown beside live data, in
/// this order; a click on nothing lets the selected report go.
pub proof fn clicks_go_to_the_foremost_thing(c: ClickContext)
    ensures
        c.distance_tool_active <==> click_action(c) == ClickAction::PlaceDistancePoint,
        !c.distance_tool_active && c.site is Some ==> click_action(c) == ClickAction::SelectSite(
            c.site->0,
        ),
        !c.distance_tool_active && c.site is None && c.mping_shown && c.report is Some
            ==> click_action(c) == ClickAction::SelectMpingReport(c.report->0),
        !c.distance_tool_active && c.site is None && (!c.mping_shown || c.report is None)
            && c.alert is Some && c.data_is_live && c.warnings_shown ==> click_action(c)
            == ClickAction::SelectAlert(c.alert->0),
        !c.distance_tool_active && c.site is None && (!c.mping_shown || c.report is None)
            && c.alert is Some && c.data_is_live && c.other_alerts_shown ==> click_action(c)
            == ClickAction::SelectAlert(c.alert->0),
        click_action(c) is SelectAlert ==> c.data_is_live && (c.warnings_shown
            || c.other_alerts_shown) && c.alert is Some,
        click_action(c) is SelectMpingReport ==> c.mping_shown && c.report is Some,
        !c.distance_tool_active && c.site is None && c.report is None && c.alert is None
            ==> click_action(c) == ClickAction::ClearMpingSelection,
        !c.distance_tool_active && c.site is None && !c.mping_shown && !c.data_is_live
            ==> click_action(c) == ClickAction::ClearMpingSelection,
{
}

/// Other sites are drawn where their layer is on, within two degrees of the map where
/// its bounds are known.
pub proof fn other_sites_are_drawn_near_the_map(
    site: SiteMarker,
    bounds: GeoBounds,
    current: Seq<char>,
)
    ensures
        !is_site_drawn(site, false, Some(bounds), current),
        !is_site_drawn(site, false, None, current),
        site.id@ == current ==> !is_site_drawn(site, true, Some(bounds), current)
            && !is_site_drawn(site, true, None, current),
        site.id@ != current ==> is_site_drawn(site, true, None, current),
        site.id@ != current ==> is_site_drawn(site, true, Some(bounds), current) == (bounds.min_lat
            - 2_000_000 <= site.at.lat <= bounds.max_lat + 2_000_000 && bounds.min_lon - 2_000_000
            <= site.at.lon <= bounds.max_lon + 2_000_000),
{
}

/// On the globe the other buttons, and the control key, tilt and turn; the main one
/// drags the grabbed point, and pans where none is grabbed.
pub proof fn the_globe_is_tilted_grabbed_or_panned(
    secondary: bool,
    middle: bool,
    ctrl: bool,
    held: GlobeDrag,
    free: GlobeDrag,
)
    requires
        call_ensures(globe_drag, (secondary, middle, ctrl, true), held),
        call_ensures(globe_drag, (secondary, middle, ctrl, false), free),
    ensures
        secondary ==> held == GlobeDrag::TiltHeading && free == GlobeDrag::TiltHeading,
        middle ==> held == GlobeDrag::TiltHeading && free == GlobeDrag::TiltHeading,
        ctrl ==> held == GlobeDrag::TiltHeading && free == GlobeDrag::TiltHeading,
        !secondary && !middle && !ctrl ==> held == GlobeDrag::Grab && free == GlobeDrag::Pan,
{
}

/// A pinch on the map moves it, and zooms where it spreads; only without one do drag
/// and wheel count. A double click resets the map in any case.
pub proof fn a_pinch_takes_the_place_of_drag_and_wheel(input: MapInput, m: MapMotion)
    requires
        call_ensures(map_motion, (input,), m),
    ensures
        input.pinch_on_map ==> m.pinch_pan && m.pinch_zoom == input.pinch_zooms && !m.drag_pan
            && !m.scroll_zoom,
        !input.pinch_on_map ==> !m.pinch_pan && !m.pinch_zoom && m.drag_pan == input.dragged
            && m.scroll_zoom == (input.hovered && input.scrolled),
        m.reset == input.double_clicked,
{
}

/// A click picks another site within ten pixels of it, the nearest.
pub proof fn a_click_picks_a_site_within_ten_pixels(
    click: ScreenPos,
    bounds: GeoBounds,
    sites: &Vec<SiteMarker>,
    current: &String,
    r: Option<usize>,
    i: int,
)
    requires
        call_ensures(pick_other_site, (click, bounds, sites, current), r),
        0 <= i < sites@.len(),
    ensures
        r is Some ==> r->0 < sites@.len() && sites@[r->0 as int].id@ != current@
            && crate::geo::dist_sq(sites@[r->0 as int].pos, click) <= 10_000 * 10_000,
        sites@[i].id@ != current@ && bounds.holds(sites@[i].at, 0) && crate::geo::dist_sq(
            sites@[i].pos,
            click,
        ) <= 10_000 * 10_000 ==> r is Some && crate::geo::dist_sq(sites@[r->0 as int].pos, click)
            <= crate::geo::dist_sq(sites@[i].pos, click),
{
    let markers = site_targets(sites@, bounds, current@);
    if sites@[i].id@ != current@ && bounds.holds(sites@[i].at, 0) && crate::geo::dist_sq(
        sites@[i].pos,
        click,
    ) <= 10_000 * 10_000 {
        assert(crate::geo::is_hit(markers[i], click, SITE_HIT_RADIUS));
    }
}

/// A click picks a report within nine pixels of it that was made by then, the nearest.
pub proof fn a_click_picks_a_report_within_nine_pixels(
    click: ScreenPos,
    bounds: GeoBounds,
    reports: &Vec<StormReport>,
    positions: &Vec<ScreenPos>,
    playback_ms: i64,
    r: Option<usize>,
    i: int,
)
    requires
        positions@.len() == reports@.len(),
        call_ensures(pick_mping_report_at, (click, bounds, reports, positions, playback_ms), r),
        0 <= i < reports@.len(),
    ensures
        r is Some ==> r->0 < reports@.len() && reports@[r->0 as int].obtime_ms <= playback_ms
            && crate::geo::dist_sq(positions@[r->0 as int], click) <= 9_000 * 9_000,
        reports@[i].obtime_ms <= playback_ms && bounds.holds(reports@[i].at, 0)
            && crate::geo::dist_sq(positions@[i], click) <= 9_000 * 9_000 ==> r is Some
            && crate::geo::dist_sq(positions@[r->0 as int], click) <= crate::geo::dist_sq(
            positions@[i],
            click,
        ),
{
    let markers = report_targets(reports@, positions@, bounds, playback_ms);
    if reports@[i].obtime_ms <= playback_ms && bounds.holds(reports@[i].at, 0)
        && crate::geo::dist_sq(positions@[i], click) <= 9_000 * 9_000 {
        assert(crate::geo::is_hit(markers[i], click, MPING_HIT_RADIUS));
    }
}

/// A double click on the globe moves the pivot to the point it hits, and goes back to
/// the site where it hits none.
pub proof fn a_double_click_moves_the_pivot(p: GeoPoint, hit: GlobeDoubleClick, miss: GlobeDoubleClick)
    requires
        call_ensures(globe_double_click, (Some(p),), hit),
        call_ensures(globe_double_click, (None::<GeoPoint>,), miss),
    ensures
        hit == GlobeDoubleClick::MovePivot(p),
        miss == GlobeDoubleClick::FocusSite,
{
}

} // verus!
