//! Reports on the world that do not sit on the playback path: alerts, storm
//! reports, the viewer's location and the network.

use crate::alerts_modal::AlertsState;
use crate::geo::GeoPoint;
use crate::mping::MpingState;
use vstd::prelude::*;

verus! {

/// The viewer's location, once it is known.
#[derive(Clone, Copy, Debug, PartialEq, Eq, Structural)]
pub struct GpsState {
    pub coords: Option<GeoPoint>,
}

impl Default for GpsState {
    fn default() -> (s: Self)
        ensures
            s.coords is None,
    {
        GpsState { coords: None }
    }
}

/// What a tick of the diagnostics depends on. Times are in milliseconds from
/// the epoch.
#[derive(Clone, Copy, Debug, PartialEq, Eq)]
pub struct DiagnosticsInputs<'a> {
    /// Whether the shown data is recent, which the alerts require.
    pub is_live: bool,
    pub mping_layer_visible: bool,
    /// Whether the playhead follows the live edge.
    pub mping_pinned_to_now: bool,
    /// The active radar site.
    pub site_id: &'a str,
    pub playback_ms: i64,
}

/// What the storm-report polling is told in a tick.
#[derive(Clone, Copy, Debug, PartialEq, Eq)]
pub struct MpingTick<'a> {
    /// Whether what was fetched before is dropped first.
    pub invalidate: bool,
    pub layer_visible: bool,
    pub pinned_to_now: bool,
    /// The site whose reports are asked for.
    pub site_id: &'a str,
    pub playback_ms: i64,
}

/// What a tick does: the alert polling first, then that of the storm reports.
#[derive(Clone, Copy, Debug, PartialEq, Eq)]
pub struct TickPlan<'a> {
    pub alerts_live: bool,
    pub mping: MpingTick<'a>,
}

/// Owner of the state that is reported on.
#[derive(Debug)]
pub struct Diagnostics {
    pub alerts: AlertsState,
    pub mping: MpingState,
    pub gps: GpsState,
    /// Whether the network monitor is attached.
    pub network_monitor: bool,
}

impl Diagnostics {
    /// Nothing known yet.
    pub fn new() -> (d: Self)
        ensures
            d.alerts.alerts@.len() == 0,
            !d.alerts.list_modal_open,
            d.alerts.selected_alert_id is None,
            d.mping.api_key is None,
            d.mping.last_error is None,
            !d.mping.fetch_in_flight,
            d.mping.last_success_ms == 0,
            d.mping.reports@.len() == 0,
            d.mping.total_count == 0,
            d.mping.selected_report_id is None,
            !d.mping.settings_modal_open,
            !d.mping.invalidate_requested,
            d.gps.coords is None,
            !d.network_monitor,
    {
        Diagnostics {
            alerts: AlertsState::default(),
            mping: MpingState::default(),
            gps: GpsState::default(),
            network_monitor: false,
        }
    }

    /// What a tick does. A request to drop the fetched storm reports is taken
    /// up once.
    pub fn tick<'a>(&mut self, inputs: DiagnosticsInputs<'a>) -> (p: TickPlan<'a>)
        ensures
            p.mping.site_id@ == inputs.site_id@,
            p == (TickPlan {
                alerts_live: inputs.is_live,
                mping: MpingTick {
                    invalidate: old(self).mping.invalidate_requested,
                    layer_visible: inputs.mping_layer_visible,
                    pinned_to_now: inputs.mping_pinned_to_now,
                    site_id: inputs.site_id,
                    playback_ms: inputs.playback_ms,
                },
            }),
            *final(self) == (Diagnostics {
                mping: MpingState { invalidate_requested: false, ..old(self).mping },
                ..*old(self)
            }),
    {
        let invalidate = self.mping.invalidate_requested;
        self.mping.invalidate_requested = false;
        TickPlan {
            alerts_live: inputs.is_live,
            mping: MpingTick {
                invalidate,
                layer_visible: inputs.mping_layer_visible,
                pinned_to_now: inputs.mping_pinned_to_now,
                site_id: inputs.site_id,
                playback_ms: inputs.playback_ms,
            },
        }
    }
}

impl Default for Diagnostics {
    fn default() -> (d: Self)
        ensures
            d.alerts.alerts@.len() == 0,
            !d.alerts.list_modal_open,
            d.alerts.selected_alert_id is None,
            d.mping.api_key is None,
            d.mping.last_error is None,
            !d.mping.fetch_in_flight,
            d.mping.last_success_ms == 0,
            d.mping.reports@.len() == 0,
            d.mping.total_count == 0,
            d.mping.selected_report_id is None,
            !d.mping.settings_modal_open,
            !d.mping.invalidate_requested,
            d.gps.coords is None,
            !d.network_monitor,
    {
        Self::new()
    }
}

/// A tick passes on each input for what it is, and asks for a fresh start of the
/// reports once.
pub proof fn a_tick_asks_for_a_fresh_start_once<'a>(
    d: &mut Diagnostics,
    inputs: DiagnosticsInputs<'a>,
    p: TickPlan<'a>,
)
    requires
        call_ensures(Diagnostics::tick, (d, inputs), p),
    ensures
        p.alerts_live == inputs.is_live,
        p.mping.layer_visible == inputs.mping_layer_visible,
        p.mping.pinned_to_now == inputs.mping_pinned_to_now,
        p.mping.site_id@ == inputs.site_id@,
        p.mping.playback_ms == inputs.playback_ms,
        p.mping.invalidate == old(d).mping.invalidate_requested,
        !final(d).mping.invalidate_requested,
        final(d).alerts == old(d).alerts,
        final(d).mping.reports == old(d).mping.reports,
{
}

} // verus!
