//! What is on screen: which panels and modals are open, and when the controls
//! of the phone layout slide away.
//!
//! Times are in milliseconds.

use crate::alerts_modal::AlertsState;
use vstd::prelude::*;

verus! {

/// A tab of the phone layout's settings.
#[derive(Clone, Copy, Debug, PartialEq, Eq, Structural)]
pub enum MobileSettingsTab {
    Playback,
    Product,
    Layers,
    More,
}

/// Whether the phone layout's controls are hidden, and since when they were
/// left alone.
#[derive(Clone, Copy, Debug, PartialEq, Eq, Structural)]
pub struct MobileChromeAutoHide {
    pub last_interaction_ms: i64,
    pub hidden: bool,
    /// Whether a tap brought the controls back in this frame; the map ignores
    /// that tap.
    pub revealed_this_frame: bool,
}

/// What decides whether the controls are hidden in a frame.
#[derive(Clone, Copy, Debug, PartialEq, Eq, Structural)]
pub struct AutoHideInputs {
    pub now_ms: i64,
    pub last_interaction_ms: i64,
    /// Whether playback advances, from the archive or at the live edge.
    pub is_playing: bool,
    pub modal_open: bool,
    pub gesture_active: bool,
}

/// Whether the controls are hidden: only while playing, with no modal open and
/// no touch in progress, once they were left alone for `idle_hide_ms`.
pub open spec fn hides(input: AutoHideInputs, idle_hide_ms: int) -> bool {
    &&& input.is_playing
    &&& !input.modal_open
    &&& !input.gesture_active
    &&& input.now_ms - input.last_interaction_ms >= idle_hide_ms
}

/// Whether the controls are hidden in a frame.
pub fn should_hide_chrome(input: AutoHideInputs, idle_hide_ms: u32) -> (b: bool)
    ensures
        b == hides(input, idle_hide_ms as int),
{
    if !input.is_playing || input.modal_open || input.gesture_active {
        return false;
    }
    let idle: i128 = input.now_ms as i128 - input.last_interaction_ms as i128;
    idle >= idle_hide_ms as i128
}

/// What a frame of the phone layout is like.
#[derive(Clone, Copy, Debug, PartialEq, Eq, Structural)]
pub struct AutoHideFrame {
    pub now_ms: i64,
    /// Whether a touch began in this frame.
    pub pressed: bool,
    pub is_playing: bool,
    pub modal_open: bool,
    pub gesture_active: bool,
}

impl Default for MobileChromeAutoHide {
    fn default() -> (h: Self)
        ensures
            h.last_interaction_ms == i64::MIN,
            !h.hidden,
            !h.revealed_this_frame,
    {
        MobileChromeAutoHide {
            last_interaction_ms: i64::MIN,
            hidden: false,
            revealed_this_frame: false,
        }
    }
}

impl MobileChromeAutoHide {
    /// Notes that the controls were used.
    pub fn touch(&mut self, now_ms: i64)
        ensures
            *final(self) == (MobileChromeAutoHide { last_interaction_ms: now_ms, ..*old(self) }),
    {
        self.last_interaction_ms = now_ms;
    }

    /// How long until the controls hide, where playback runs and that moment is
    /// still to come.
    pub fn until_hide_ms(&self, now_ms: i64, is_playing: bool, idle_hide_ms: u32) -> (r: Option<u64>)
        ensures
            ({
                let left = self.last_interaction_ms + idle_hide_ms - now_ms;
                r == (if is_playing && left > 0 {
                    Some(left as u64)
                } else {
                    None
                })
            }),
    {
        if !is_playing {
            return None;
        }
        let left: i128 = self.last_interaction_ms as i128 + idle_hide_ms as i128 - now_ms as i128;
        if left > 0 {
            Some(left as u64)
        } else {
            None
        }
    }

    /// The state after a frame.
    pub open spec fn after_frame(self, f: AutoHideFrame, idle_hide_ms: int) -> MobileChromeAutoHide {
        let revealed = self.hidden && f.pressed;
        let last = if revealed {
            f.now_ms
        } else {
            self.last_interaction_ms
        };
        MobileChromeAutoHide {
            last_interaction_ms: last,
            hidden: hides(
                AutoHideInputs {
                    now_ms: f.now_ms,
                    last_interaction_ms: last,
                    is_playing: f.is_playing,
                    modal_open: f.modal_open,
                    gesture_active: f.gesture_active,
                },
                idle_hide_ms,
            ),
            revealed_this_frame: revealed,
        }
    }

    /// Settles the state for a frame: a touch that begins while the controls
    /// are hidden brings them back; then the hiding is decided. Returns how long
    /// until the screen is to be drawn again for them to hide on time.
    pub fn resolve(&mut self, f: AutoHideFrame, idle_hide_ms: u32) -> (r: Option<u64>)
        ensures
            *final(self) == old(self).after_frame(f, idle_hide_ms as int),
            ({
                let left = final(self).last_interaction_ms + idle_hide_ms - f.now_ms;
                r == (if !final(self).hidden && f.is_playing && left > 0 {
                    Some(left as u64)
                } else {
                    None
                })
            }),
    {
        let was_hidden = self.hidden;
        self.revealed_this_frame = false;
        if was_hidden && f.pressed {
            self.touch(f.now_ms);
            self.revealed_this_frame = true;
        }
        let hidden = should_hide_chrome(
            AutoHideInputs {
                now_ms: f.now_ms,
                last_interaction_ms: self.last_interaction_ms,
                is_playing: f.is_playing,
                modal_open: f.modal_open,
                gesture_active: f.gesture_active,
            },
            idle_hide_ms,
        );
        self.hidden = hidden;
        if hidden {
            None
        } else {
            self.until_hide_ms(f.now_ms, f.is_playing, idle_hide_ms)
        }
    }
}

/// A tap on the bare map brings the controls back, whatever else goes on.
pub proof fn a_tap_reveals_the_controls(h: MobileChromeAutoHide, f: AutoHideFrame, idle_hide_ms: int)
    requires
        h.hidden,
        f.pressed,
        idle_hide_ms > 0,
    ensures
        !h.after_frame(f, idle_hide_ms).hidden,
        h.after_frame(f, idle_hide_ms).revealed_this_frame,
{
}

/// While playback is paused, a modal is open or a touch is in progress, the
/// controls are visible.
pub proof fn controls_stay_while_needed(h: MobileChromeAutoHide, f: AutoHideFrame, idle_hide_ms: int)
    requires
        !f.is_playing || f.modal_open || f.gesture_active,
    ensures
        !h.after_frame(f, idle_hide_ms).hidden,
{
}

/// What is on screen.
#[derive(Debug)]
pub struct Chrome {
    pub left_sidebar_visible: bool,
    pub right_sidebar_visible: bool,
    pub shortcuts_help_visible: bool,
    pub site_modal_open: bool,
    pub wipe_modal_open: bool,
    pub reset_settings_modal_open: bool,
    /// The range that the download modal was opened for.
    pub range_download_modal: Option<(i64, i64)>,
    pub stats_detail_open: bool,
    pub vcp_forecast_open: bool,
    pub network_log_open: bool,
    pub activity_sheet_open: bool,
    pub activity_details_open: bool,
    pub queue_sheet_open: bool,
    /// Start of the scan that the inspector was opened for.
    pub scan_inspector: Option<i64>,
    pub event_modal_open: bool,
    /// The event being edited; none for a new one.
    pub event_modal_editing_id: Option<u64>,
    pub mobile_settings_open: bool,
    pub mobile_settings_tab: MobileSettingsTab,
    pub mobile_geolocate_requested: bool,
    pub mobile_auto_hide: MobileChromeAutoHide,
}

impl Chrome {
    /// Whether any modal, sheet or popup is open over the phone layout's
    /// controls.
    pub open spec fn has_overlay(
        &self,
        picker_open: bool,
        mping_settings_open: bool,
        alerts: AlertsState,
    ) -> bool {
        ||| self.mobile_settings_open
        ||| self.site_modal_open
        ||| self.queue_sheet_open
        ||| self.activity_sheet_open
        ||| self.scan_inspector is Some
        ||| self.wipe_modal_open
        ||| self.reset_settings_modal_open
        ||| self.range_download_modal is Some
        ||| self.stats_detail_open
        ||| self.vcp_forecast_open
        ||| self.network_log_open
        ||| self.event_modal_open
        ||| self.shortcuts_help_visible
        ||| picker_open
        ||| mping_settings_open
        ||| alerts.is_visible()
    }

    /// The state at the start: both sidebars visible, everything else closed.
    pub fn new() -> (c: Self)
        ensures
            c.left_sidebar_visible,
            c.right_sidebar_visible,
            !c.shortcuts_help_visible,
            !c.site_modal_open,
            !c.wipe_modal_open,
            !c.reset_settings_modal_open,
            c.range_download_modal is None,
            !c.stats_detail_open,
            !c.vcp_forecast_open,
            !c.network_log_open,
            !c.activity_sheet_open,
            !c.activity_details_open,
            !c.queue_sheet_open,
            c.scan_inspector is None,
            !c.event_modal_open,
            c.event_modal_editing_id is None,
            !c.mobile_settings_open,
            c.mobile_settings_tab == MobileSettingsTab::Playback,
            !c.mobile_geolocate_requested,
            c.mobile_auto_hide == (MobileChromeAutoHide {
                last_interaction_ms: i64::MIN,
                hidden: false,
                revealed_this_frame: false,
            }),
    {
        Chrome {
            left_sidebar_visible: true,
            right_sidebar_visible: true,
            shortcuts_help_visible: false,
            site_modal_open: false,
            wipe_modal_open: false,
            reset_settings_modal_open: false,
            range_download_modal: None,
            stats_detail_open: false,
            vcp_forecast_open: false,
            network_log_open: false,
            activity_sheet_open: false,
            activity_details_open: false,
            queue_sheet_open: false,
            scan_inspector: None,
            event_modal_open: false,
            event_modal_editing_id: None,
            mobile_settings_open: false,
            mobile_settings_tab: MobileSettingsTab::Playback,
            mobile_geolocate_requested: false,
            mobile_auto_hide: MobileChromeAutoHide::default(),
        }
    }

    /// Whether any modal, sheet or popup is open over the phone layout's
    /// controls: one of its own, the date picker, the storm-report settings or an
    /// alert dialog.
    pub fn any_overlay_open(
        &self,
        picker_open: bool,
        mping_settings_open: bool,
        alerts: &AlertsState,
    ) -> (b: bool)
        ensures
            b == self.has_overlay(picker_open, mping_settings_open, *alerts),
    {
        self.mobile_settings_open || self.site_modal_open || self.queue_sheet_open
            || self.activity_sheet_open || self.scan_inspector.is_some() || self.wipe_modal_open
            || self.reset_settings_modal_open || self.range_download_modal.is_some() || self.stats_detail_open
            || self.vcp_forecast_open || self.network_log_open || self.event_modal_open
            || self.shortcuts_help_visible || picker_open || mping_settings_open || alerts.visible()
    }

    /// Opens or closes the phone layout's settings; they open on their first
    /// tab.
    pub fn toggle_mobile_settings(&mut self)
        ensures
            *final(self) == (Chrome {
                mobile_settings_open: !old(self).mobile_settings_open,
                mobile_settings_tab: if old(self).mobile_settings_open {
                    old(self).mobile_settings_tab
                } else {
                    MobileSettingsTab::Playback
                },
                ..*old(self)
            }),
    {
        self.mobile_settings_open = !self.mobile_settings_open;
        if self.mobile_settings_open {
            self.mobile_settings_tab = MobileSettingsTab::Playback;
        }
    }

    /// Asks for the viewer's location and closes the settings.
    pub fn request_geolocation(&mut self)
        ensures
            *final(self) == (Chrome {
                mobile_geolocate_requested: true,
                mobile_settings_open: false,
                ..*old(self)
            }),
    {
        self.mobile_geolocate_requested = true;
        self.mobile_settings_open = false;
    }
}

/// The controls hide only during playback, without a modal or a gesture, and once
/// nothing has been touched for long enough.
pub proof fn controls_hide_when_left_alone(input: AutoHideInputs, idle_hide_ms: int)
    ensures
        hides(input, idle_hide_ms) ==> input.is_playing && !input.modal_open
            && !input.gesture_active && input.last_interaction_ms + idle_hide_ms <= input.now_ms,
        input.is_playing && !input.modal_open && !input.gesture_active && input.last_interaction_ms
            + idle_hide_ms <= input.now_ms ==> hides(input, idle_hide_ms),
{
}

/// A frame in which nothing is revealed keeps the moment of the last touch; one that
/// reveals the controls counts as a touch.
pub proof fn only_a_reveal_counts_as_a_touch(
    h: MobileChromeAutoHide,
    f: AutoHideFrame,
    idle_hide_ms: int,
)
    ensures
        h.after_frame(f, idle_hide_ms).revealed_this_frame <==> h.hidden && f.pressed,
        h.hidden && f.pressed ==> h.after_frame(f, idle_hide_ms).last_interaction_ms == f.now_ms,
        !h.hidden || !f.pressed ==> h.after_frame(f, idle_hide_ms).last_interaction_ms
            == h.last_interaction_ms,
        (!h.hidden || !f.pressed) && f.is_playing && !f.modal_open && !f.gesture_active && f.now_ms
            - h.last_interaction_ms >= idle_hide_ms ==> h.after_frame(f, idle_hide_ms).hidden,
        (!h.hidden || !f.pressed) && f.now_ms - h.last_interaction_ms < idle_hide_ms
            ==> !h.after_frame(f, idle_hide_ms).hidden,
{
}

/// Each of the sheets, modals and popups counts as an overlay by itself.
pub proof fn every_open_modal_is_an_overlay(
    c: Chrome,
    picker_open: bool,
    mping_settings_open: bool,
    alerts: AlertsState,
)
    ensures
        c.mobile_settings_open ==> c.has_overlay(picker_open, mping_settings_open, alerts),
        c.site_modal_open ==> c.has_overlay(picker_open, mping_settings_open, alerts),
        c.queue_sheet_open ==> c.has_overlay(picker_open, mping_settings_open, alerts),
        c.activity_sheet_open ==> c.has_overlay(picker_open, mping_settings_open, alerts),
        c.scan_inspector is Some ==> c.has_overlay(picker_open, mping_settings_open, alerts),
        c.wipe_modal_open ==> c.has_overlay(picker_open, mping_settings_open, alerts),
        c.reset_settings_modal_open ==> c.has_overlay(picker_open, mping_settings_open, alerts),
        c.range_download_modal is Some ==> c.has_overlay(picker_open, mping_settings_open, alerts),
        c.stats_detail_open ==> c.has_overlay(picker_open, mping_settings_open, alerts),
        c.vcp_forecast_open ==> c.has_overlay(picker_open, mping_settings_open, alerts),
        c.network_log_open ==> c.has_overlay(picker_open, mping_settings_open, alerts),
        c.event_modal_open ==> c.has_overlay(picker_open, mping_settings_open, alerts),
        c.shortcuts_help_visible ==> c.has_overlay(picker_open, mping_settings_open, alerts),
        c.has_overlay(true, mping_settings_open, alerts),
        c.has_overlay(picker_open, true, alerts),
        alerts.list_modal_open ==> c.has_overlay(picker_open, mping_settings_open, alerts),
        alerts.selected_alert_id is Some ==> c.has_overlay(
            picker_open,
            mping_settings_open,
            alerts,
        ),
{
}

/// With all of them closed there is no overlay, whatever the panels do.
pub proof fn panels_are_no_overlay(c: Chrome, alerts: AlertsState)
    requires
        !c.mobile_settings_open && !c.site_modal_open && !c.queue_sheet_open,
        !c.activity_sheet_open && c.scan_inspector is None && !c.wipe_modal_open,
        !c.reset_settings_modal_open && c.range_download_modal is None && !c.stats_detail_open,
        !c.vcp_forecast_open && !c.network_log_open && !c.event_modal_open,
        !c.shortcuts_help_visible && !alerts.list_modal_open && alerts.selected_alert_id is None,
    ensures
        !c.has_overlay(false, false, alerts),
{
}

/// While something plays, the controls hide when the idle time since the last touch
/// has run out.
pub proof fn the_idle_time_runs_from_the_last_touch(
    h: &MobileChromeAutoHide,
    now_ms: i64,
    idle_hide_ms: u32,
    plays: Option<u64>,
    rests: Option<u64>,
)
    requires
        call_ensures(MobileChromeAutoHide::until_hide_ms, (h, now_ms, true, idle_hide_ms), plays),
        call_ensures(MobileChromeAutoHide::until_hide_ms, (h, now_ms, false, idle_hide_ms), rests),
        h.last_interaction_ms + idle_hide_ms - now_ms <= u64::MAX,
    ensures
        rests is None,
        plays is Some ==> now_ms + plays->0 == h.last_interaction_ms + idle_hide_ms,
        plays is None <==> now_ms >= h.last_interaction_ms + idle_hide_ms,
{
}

/// The settings of the phone open with playback first; closing keeps the tab.
pub proof fn settings_open_with_playback(c: &mut Chrome, r: ())
    requires
        call_ensures(Chrome::toggle_mobile_settings, (c,), r),
    ensures
        final(c).mobile_settings_open != old(c).mobile_settings_open,
        final(c).mobile_settings_open ==> final(c).mobile_settings_tab
            == MobileSettingsTab::Playback,
        !final(c).mobile_settings_open ==> final(c).mobile_settings_tab == old(
            c,
        ).mobile_settings_tab,
        final(c).site_modal_open == old(c).site_modal_open,
{
}

/// A touch counts from now on and changes nothing else.
pub proof fn a_touch_counts_from_now(h: &mut MobileChromeAutoHide, now_ms: i64, r: ())
    requires
        call_ensures(MobileChromeAutoHide::touch, (h, now_ms), r),
    ensures
        final(h).last_interaction_ms == now_ms,
        final(h).hidden == old(h).hidden,
        final(h).revealed_this_frame == old(h).revealed_this_frame,
{
}

/// Asking for the location closes the settings.
pub proof fn asking_for_the_location_closes_the_settings(c: &mut Chrome, r: ())
    requires
        call_ensures(Chrome::request_geolocation, (c,), r),
    ensures
        final(c).mobile_geolocate_requested,
        !final(c).mobile_settings_open,
        final(c).mobile_settings_tab == old(c).mobile_settings_tab,
{
}

/// While the controls show during playback, a frame tells how long until they hide.
pub proof fn frames_tell_when_the_controls_hide(
    h: &mut MobileChromeAutoHide,
    f: AutoHideFrame,
    idle_hide_ms: u32,
    r: Option<u64>,
)
    requires
        call_ensures(MobileChromeAutoHide::resolve, (h, f, idle_hide_ms), r),
        final(h).last_interaction_ms + idle_hide_ms - f.now_ms <= u64::MAX,
    ensures
        r is Some ==> !final(h).hidden && f.is_playing && f.now_ms + r->0 == final(h).last_interaction_ms + idle_hide_ms,
        !final(h).hidden && f.is_playing && f.now_ms < final(h).last_interaction_ms + idle_hide_ms
            ==> r is Some,
        final(h).revealed_this_frame <==> old(h).hidden && f.pressed,
{
}

} // verus!
