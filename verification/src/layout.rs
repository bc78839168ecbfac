//! The layers of the layout: panels around the map and modals above it, and
//! the order in which they are drawn.

use crate::chrome::Chrome;
use crate::diagnostics::Diagnostics;
use vstd::prelude::*;

verus! {

/// Where a layer is drawn: panels take their space before the map is drawn,
/// modals lie above it.
#[derive(Clone, Copy, Debug, PartialEq, Eq, Structural)]
pub enum LayerKind {
    Chrome,
    Modal,
}

/// What a layer's visibility depends on.
pub struct LayoutCtx<'a> {
    pub chrome: &'a Chrome,
    pub diagnostics: &'a Diagnostics,
    pub is_mobile: bool,
    pub show_advanced: bool,
    /// Whether the event modal's form was filled and waits for its reset.
    pub event_form_filled: bool,
    /// Whether the storm-report modal's entry was filled and waits for its
    /// reset.
    pub mping_entry_filled: bool,
}

/// A panel or a modal.
#[derive(Clone, Copy, Debug, PartialEq, Eq, Structural)]
pub enum Layer {
    TopBar,
    BottomPanel,
    LeftPanel,
    RightPanel,
    MobileTopBar,
    MobileChrome,
    SiteModal,
    ShortcutsHelp,
    WipeModal,
    ResetSettingsModal,
    RangeDownloadModal,
    ActivitySheet,
    QueueSheet,
    StatsModal,
    VcpForecastModal,
    NetworkLog,
    EventModal,
    AlertsModals,
    MpingModal,
    MobileSettingsModal,
}

impl Layer {
    pub open spec fn kind_of(self) -> LayerKind {
        match self {
            Layer::TopBar => LayerKind::Chrome,
            Layer::BottomPanel => LayerKind::Chrome,
            Layer::LeftPanel => LayerKind::Chrome,
            Layer::RightPanel => LayerKind::Chrome,
            Layer::MobileTopBar => LayerKind::Chrome,
            Layer::MobileChrome => LayerKind::Chrome,
            _ => LayerKind::Modal,
        }
    }

    pub open spec fn z_of(self) -> int {
        match self {
            Layer::TopBar => 10,
            Layer::BottomPanel => 20,
            Layer::LeftPanel => 30,
            Layer::RightPanel => 40,
            Layer::MobileTopBar => 10,
            Layer::MobileChrome => 20,
            Layer::SiteModal => 10,
            Layer::ShortcutsHelp => 20,
            Layer::WipeModal => 30,
            Layer::ResetSettingsModal => 30,
            Layer::RangeDownloadModal => 35,
            Layer::ActivitySheet => 37,
            Layer::QueueSheet => 37,
            Layer::StatsModal => 40,
            Layer::VcpForecastModal => 50,
            Layer::NetworkLog => 60,
            Layer::EventModal => 70,
            Layer::AlertsModals => 80,
            Layer::MpingModal => 90,
            Layer::MobileSettingsModal => 100,
        }
    }

    /// Whether the layer is drawn. A form that is to be reset after its modal
    /// closed keeps its layer for one more frame.
    pub open spec fn is_visible(self, ctx: LayoutCtx) -> bool {
        match self {
            Layer::TopBar => true,
            Layer::BottomPanel => true,
            Layer::LeftPanel => ctx.chrome.left_sidebar_visible && ctx.show_advanced,
            Layer::RightPanel => ctx.chrome.right_sidebar_visible,
            Layer::MobileTopBar => !ctx.chrome.mobile_auto_hide.hidden,
            Layer::MobileChrome => !ctx.chrome.mobile_auto_hide.hidden,
            Layer::SiteModal => ctx.chrome.site_modal_open,
            Layer::ShortcutsHelp => ctx.chrome.shortcuts_help_visible,
            Layer::WipeModal => ctx.chrome.wipe_modal_open,
            Layer::ResetSettingsModal => ctx.chrome.reset_settings_modal_open,
            Layer::RangeDownloadModal => ctx.chrome.range_download_modal is Some,
            Layer::ActivitySheet => ctx.chrome.activity_sheet_open,
            Layer::QueueSheet => ctx.chrome.queue_sheet_open,
            Layer::StatsModal => ctx.chrome.stats_detail_open,
            Layer::VcpForecastModal => ctx.chrome.vcp_forecast_open,
            Layer::NetworkLog => ctx.chrome.network_log_open,
            Layer::EventModal => ctx.chrome.event_modal_open || ctx.event_form_filled,
            Layer::AlertsModals => ctx.diagnostics.alerts.is_visible(),
            Layer::MpingModal => ctx.diagnostics.mping.settings_modal_open || ctx.mping_entry_filled,
            Layer::MobileSettingsModal => ctx.chrome.mobile_settings_open && ctx.is_mobile,
        }
    }

    /// Where the layer is drawn.
    pub fn kind(&self) -> (k: LayerKind)
        ensures
            k == self.kind_of(),
    {
        match self {
            Layer::TopBar => LayerKind::Chrome,
            Layer::BottomPanel => LayerKind::Chrome,
            Layer::LeftPanel => LayerKind::Chrome,
            Layer::RightPanel => LayerKind::Chrome,
            Layer::MobileTopBar => LayerKind::Chrome,
            Layer::MobileChrome => LayerKind::Chrome,
            _ => LayerKind::Modal,
        }
    }

    /// The layer's place among those of its kind; a lower one is drawn earlier.
    pub fn z_order(&self) -> (z: i32)
        ensures
            z == self.z_of(),
    {
        match self {
            Layer::TopBar => 10,
            Layer::BottomPanel => 20,
            Layer::LeftPanel => 30,
            Layer::RightPanel => 40,
            Layer::MobileTopBar => 10,
            Layer::MobileChrome => 20,
            Layer::SiteModal => 10,
            Layer::ShortcutsHelp => 20,
            Layer::WipeModal => 30,
            Layer::ResetSettingsModal => 30,
            Layer::RangeDownloadModal => 35,
            Layer::ActivitySheet => 37,
            Layer::QueueSheet => 37,
            Layer::StatsModal => 40,
            Layer::VcpForecastModal => 50,
            Layer::NetworkLog => 60,
            Layer::EventModal => 70,
            Layer::AlertsModals => 80,
            Layer::MpingModal => 90,
            Layer::MobileSettingsModal => 100,
        }
    }

    /// Whether the layer is drawn.
    pub fn visible(&self, ctx: &LayoutCtx) -> (b: bool)
        ensures
            b == self.is_visible(*ctx),
    {
        match self {
            Layer::TopBar => true,
            Layer::BottomPanel => true,
            Layer::LeftPanel => ctx.chrome.left_sidebar_visible && ctx.show_advanced,
            Layer::RightPanel => ctx.chrome.right_sidebar_visible,
            Layer::MobileTopBar => !ctx.chrome.mobile_auto_hide.hidden,
            Layer::MobileChrome => !ctx.chrome.mobile_auto_hide.hidden,
            Layer::SiteModal => ctx.chrome.site_modal_open,
            Layer::ShortcutsHelp => ctx.chrome.shortcuts_help_visible,
            Layer::WipeModal => ctx.chrome.wipe_modal_open,
            Layer::ResetSettingsModal => ctx.chrome.reset_settings_modal_open,
            Layer::RangeDownloadModal => ctx.chrome.range_download_modal.is_some(),
            Layer::ActivitySheet => ctx.chrome.activity_sheet_open,
            Layer::QueueSheet => ctx.chrome.queue_sheet_open,
            Layer::StatsModal => ctx.chrome.stats_detail_open,
            Layer::VcpForecastModal => ctx.chrome.vcp_forecast_open,
            Layer::NetworkLog => ctx.chrome.network_log_open,
            Layer::EventModal => ctx.chrome.event_modal_open || ctx.event_form_filled,
            Layer::AlertsModals => ctx.diagnostics.alerts.visible(),
            Layer::MpingModal => ctx.diagnostics.mping.settings_modal_open || ctx.mping_entry_filled,
            Layer::MobileSettingsModal => ctx.chrome.mobile_settings_open && ctx.is_mobile,
        }
    }
}

/// The layers of a device, in the order in which they are drawn.
pub open spec fn layout_of(is_mobile: bool) -> Seq<Layer> {
    if is_mobile {
        seq![
            Layer::MobileTopBar,
            Layer::MobileChrome,
            Layer::SiteModal,
            Layer::ShortcutsHelp,
            Layer::WipeModal,
            Layer::StatsModal,
            Layer::VcpForecastModal,
            Layer::NetworkLog,
            Layer::EventModal,
            Layer::AlertsModals,
            Layer::MpingModal,
            Layer::MobileSettingsModal,
        ]
    } else {
        seq![
            Layer::TopBar,
            Layer::BottomPanel,
            Layer::LeftPanel,
            Layer::RightPanel,
            Layer::SiteModal,
            Layer::ShortcutsHelp,
            Layer::WipeModal,
            Layer::StatsModal,
            Layer::VcpForecastModal,
            Layer::NetworkLog,
            Layer::EventModal,
            Layer::AlertsModals,
            Layer::MpingModal,
            Layer::MobileSettingsModal,
        ]
    }
}

/// The layers of a device, in the order in which they are drawn.
pub fn layout(is_mobile: bool) -> (r: Vec<Layer>)
    ensures
        r@ == layout_of(is_mobile),
{
    let mut r: Vec<Layer> = Vec::new();
    if is_mobile {
        r.push(Layer::MobileTopBar);
        r.push(Layer::MobileChrome);
    } else {
        r.push(Layer::TopBar);
        r.push(Layer::BottomPanel);
        r.push(Layer::LeftPanel);
        r.push(Layer::RightPanel);
    }
    r.push(Layer::SiteModal);
    r.push(Layer::ShortcutsHelp);
    r.push(Layer::WipeModal);
    r.push(Layer::StatsModal);
    r.push(Layer::VcpForecastModal);
    r.push(Layer::NetworkLog);
    r.push(Layer::EventModal);
    r.push(Layer::AlertsModals);
    r.push(Layer::MpingModal);
    r.push(Layer::MobileSettingsModal);
    assert(r@ =~= layout_of(is_mobile));
    r
}

/// A layer's kind and its place among those of its kind.
#[derive(Clone, Copy, Debug, PartialEq, Eq, Structural)]
pub struct LayerSlot {
    pub kind: LayerKind,
    pub z: i32,
}

/// Whether every panel stands before every modal.
pub open spec fn panels_first(slots: Seq<LayerSlot>) -> bool {
    forall|i: int, j: int|
        0 <= i < j < slots.len() && (#[trigger] slots[i]).kind == LayerKind::Modal ==> (
        #[trigger] slots[j]).kind == LayerKind::Modal
}

/// Whether the layers of each kind stand in ascending order.
pub open spec fn ascending_within_kind(slots: Seq<LayerSlot>) -> bool {
    forall|i: int, j: int|
        0 <= i < j < slots.len() && (#[trigger] slots[i]).kind == (#[trigger] slots[j]).kind
            ==> slots[i].z <= slots[j].z
}

/// Whether every panel stands before every modal.
pub fn is_kind_partitioned(slots: &Vec<LayerSlot>) -> (b: bool)
    ensures
        b == panels_first(slots@),
{
    let mut seen_modal = false;
    let mut i: usize = 0;
    while i < slots.len()
        invariant
            i <= slots@.len(),
            seen_modal <==> exists|j: int|
                0 <= j < i && (#[trigger] slots@[j]).kind == LayerKind::Modal,
            panels_first(slots@.take(i as int)),
        decreases slots@.len() - i,
    {
        let ghost before = slots@.take(i as int);
        let ghost after = slots@.take(i + 1);
        assert(after =~= before.push(slots@[i as int]));
        match slots[i].kind {
            LayerKind::Chrome => {
                if seen_modal {
                    assert(slots@[i as int].kind == LayerKind::Chrome);
                    return false;
                }
            },
            LayerKind::Modal => {
                seen_modal = true;
            },
        }
        assert forall|a: int, b: int|
            0 <= a < b < after.len() && (#[trigger] after[a]).kind == LayerKind::Modal implies (
        #[trigger] after[b]).kind == LayerKind::Modal by {
            assert(after[a] == slots@[a]);
            if b < i {
                assert(before[a] == after[a] && before[b] == after[b]);
            }
        }
        i += 1;
    }
    assert(slots@.take(i as int) =~= slots@);
    true
}

/// Whether the layers of each kind stand in ascending order.
pub fn is_z_order_ascending_within_kind(slots: &Vec<LayerSlot>) -> (b: bool)
    ensures
        b == ascending_within_kind(slots@),
{
    let mut prev_chrome: Option<i32> = None;
    let mut prev_modal: Option<i32> = None;
    let mut i: usize = 0;
    while i < slots.len()
        invariant
            i <= slots@.len(),
            is_last_of(slots@, i as int, LayerKind::Chrome, prev_chrome),
            is_last_of(slots@, i as int, LayerKind::Modal, prev_modal),
            forall|a: int, b: int|
                0 <= a < b < i && (#[trigger] slots@[a]).kind == (#[trigger] slots@[b]).kind
                    ==> slots@[a].z <= slots@[b].z,
        decreases slots@.len() - i,
    {
        let slot = slots[i];
        let prev = match slot.kind {
            LayerKind::Chrome => prev_chrome,
            LayerKind::Modal => prev_modal,
        };
        if let Some(p) = prev {
            if slot.z < p {
                return false;
            }
        }
        match slot.kind {
            LayerKind::Chrome => {
                prev_chrome = Some(slot.z);
            },
            LayerKind::Modal => {
                prev_modal = Some(slot.z);
            },
        }
        i += 1;
    }
    true
}

/// Whether `prev` is the place of the last layer of a kind among the first `n`.
spec fn is_last_of(slots: Seq<LayerSlot>, n: int, kind: LayerKind, prev: Option<i32>) -> bool {
    match prev {
        Some(z) => {
            &&& exists|j: int| 0 <= j < n && (#[trigger] slots[j]).kind == kind && slots[j].z == z
            &&& forall|j: int| 0 <= j < n && (#[trigger] slots[j]).kind == kind ==> slots[j].z <= z
        },
        None => forall|j: int| 0 <= j < n ==> (#[trigger] slots[j]).kind != kind,
    }
}

/// The slots of a list of layers.
pub open spec fn slots_of(layers: Seq<Layer>) -> Seq<LayerSlot> {
    layers.map_values(|l: Layer| LayerSlot { kind: l.kind_of(), z: l.z_of() as i32 })
}

/// In both layouts the panels stand before the modals, and the layers of each
/// kind stand in ascending order.
pub proof fn layouts_are_in_order(is_mobile: bool)
    ensures
        panels_first(slots_of(layout_of(is_mobile))),
        ascending_within_kind(slots_of(layout_of(is_mobile))),
{
}

/// The first visible layer at or behind a place of the layout.
pub open spec fn is_next_layer(
    is_mobile: bool,
    from: usize,
    ctx: LayoutCtx,
    r: Option<(usize, Layer)>,
) -> bool {
    let layers = layout_of(is_mobile);
    match r {
        Some((k, l)) => {
            &&& from <= k < layers.len()
            &&& l == layers[k as int]
            &&& l.is_visible(ctx)
            &&& forall|j: int| from <= j < k ==> !(#[trigger] layers[j]).is_visible(ctx)
        },
        None => forall|j: int| from <= j < layers.len() ==> !(#[trigger] layers[j]).is_visible(ctx),
    }
}

/// The layer to draw next: the first visible one at or behind a place of the
/// layout, with its place. Drawing a layer may close or open others, so each is
/// asked for when its turn comes.
pub fn next_layer(is_mobile: bool, from: usize, ctx: &LayoutCtx) -> (r: Option<(usize, Layer)>)
    ensures
        is_next_layer(is_mobile, from, *ctx, r),
{
    let layers = layout(is_mobile);
    let mut i: usize = from;
    while i < layers.len()
        invariant
            layers@ == layout_of(is_mobile),
            from <= i,
            forall|j: int|
                from <= j < i && j < layers@.len() ==> !(#[trigger] layers@[j]).is_visible(*ctx),
        decreases layers@.len() - i,
    {
        if layers[i].visible(ctx) {
            return Some((i, layers[i]));
        }
        i += 1;
    }
    None
}

/// Panels around the map show by their own switches, those of the phone unless they
/// have slid away; the left one only to those who want everything.
pub proof fn panels_show_by_their_switches(ctx: LayoutCtx)
    ensures
        Layer::TopBar.is_visible(ctx) && Layer::BottomPanel.is_visible(ctx),
        Layer::LeftPanel.is_visible(ctx) <==> ctx.chrome.left_sidebar_visible && ctx.show_advanced,
        Layer::RightPanel.is_visible(ctx) <==> ctx.chrome.right_sidebar_visible,
        Layer::MobileTopBar.is_visible(ctx) <==> !ctx.chrome.mobile_auto_hide.hidden,
        Layer::MobileChrome.is_visible(ctx) <==> !ctx.chrome.mobile_auto_hide.hidden,
{
}

/// Each modal shows exactly while it is open, those with text typed into them until
/// that is gone too, and the settings of the phone only there.
pub proof fn modals_show_while_open(ctx: LayoutCtx)
    ensures
        Layer::SiteModal.is_visible(ctx) == ctx.chrome.site_modal_open,
        Layer::ShortcutsHelp.is_visible(ctx) == ctx.chrome.shortcuts_help_visible,
        Layer::WipeModal.is_visible(ctx) == ctx.chrome.wipe_modal_open,
        Layer::ResetSettingsModal.is_visible(ctx) == ctx.chrome.reset_settings_modal_open,
        Layer::RangeDownloadModal.is_visible(ctx) == (ctx.chrome.range_download_modal is Some),
        Layer::ActivitySheet.is_visible(ctx) == ctx.chrome.activity_sheet_open,
        Layer::QueueSheet.is_visible(ctx) == ctx.chrome.queue_sheet_open,
        Layer::StatsModal.is_visible(ctx) == ctx.chrome.stats_detail_open,
        Layer::VcpForecastModal.is_visible(ctx) == ctx.chrome.vcp_forecast_open,
        Layer::NetworkLog.is_visible(ctx) == ctx.chrome.network_log_open,
        ctx.chrome.event_modal_open || ctx.event_form_filled <==> Layer::EventModal.is_visible(ctx),
        ctx.diagnostics.mping.settings_modal_open || ctx.mping_entry_filled
            <==> Layer::MpingModal.is_visible(ctx),
        ctx.diagnostics.alerts.list_modal_open || ctx.diagnostics.alerts.selected_alert_id is Some
            <==> Layer::AlertsModals.is_visible(ctx),
        ctx.chrome.mobile_settings_open && ctx.is_mobile
            <==> Layer::MobileSettingsModal.is_visible(ctx),
{
}

/// Both layouts hold the same modals, in the same order; before them the desktop has
/// its four panels and the phone its two.
pub proof fn layouts_share_their_modals()
    ensures
        layout_of(false).take(4) == seq![
            Layer::TopBar,
            Layer::BottomPanel,
            Layer::LeftPanel,
            Layer::RightPanel,
        ],
        layout_of(true).take(2) == seq![Layer::MobileTopBar, Layer::MobileChrome],
        layout_of(false).skip(4) == layout_of(true).skip(2),
        layout_of(false).len() == 14,
{
    assert(layout_of(false).take(4) =~= seq![
        Layer::TopBar,
        Layer::BottomPanel,
        Layer::LeftPanel,
        Layer::RightPanel,
    ]);
    assert(layout_of(true).take(2) =~= seq![Layer::MobileTopBar, Layer::MobileChrome]);
    assert(layout_of(false).skip(4) =~= layout_of(true).skip(2));
}

/// No layer stands twice in a layout, and everything behind the panels is a modal.
pub proof fn a_layout_holds_each_layer_once(is_mobile: bool, i: int, j: int)
    requires
        0 <= i < j < layout_of(is_mobile).len(),
    ensures
        layout_of(is_mobile)[i] != layout_of(is_mobile)[j],
        layout_of(is_mobile)[i].kind_of() == LayerKind::Chrome <==> i < (if is_mobile {
            2int
        } else {
            4
        }),
{
}

/// The settings of the phone lie above every other modal, and the choice of a site
/// below them all.
pub proof fn modals_are_stacked_from_site_to_settings(l: Layer)
    requires
        l.kind_of() == LayerKind::Modal,
    ensures
        Layer::SiteModal.z_of() <= l.z_of() <= Layer::MobileSettingsModal.z_of(),
        l != Layer::SiteModal ==> Layer::SiteModal.z_of() < l.z_of(),
        l != Layer::MobileSettingsModal ==> l.z_of() < Layer::MobileSettingsModal.z_of(),
        Layer::WipeModal.z_of() == Layer::ResetSettingsModal.z_of(),
        Layer::ActivitySheet.z_of() == Layer::QueueSheet.z_of(),
        Layer::WipeModal.z_of() < Layer::RangeDownloadModal.z_of()
            < Layer::ActivitySheet.z_of() < Layer::StatsModal.z_of(),
{
}

/// Going through a layout passes over the hidden layers and over no visible one.
pub proof fn no_visible_layer_is_passed_over(
    is_mobile: bool,
    from: usize,
    ctx: LayoutCtx,
    r: Option<(usize, Layer)>,
    j: int,
)
    requires
        is_next_layer(is_mobile, from, ctx, r),
        from <= j < layout_of(is_mobile).len(),
        layout_of(is_mobile)[j].is_visible(ctx),
    ensures
        match r {
            Some((k, l)) => from <= k <= j && l == layout_of(is_mobile)[k as int] && l.is_visible(
                ctx,
            ),
            None => false,
        },
{
}

/// The places of the layers within their kind.
pub proof fn layers_have_their_places()
    ensures
        Layer::TopBar.z_of() == 10 && Layer::BottomPanel.z_of() == 20,
        Layer::LeftPanel.z_of() == 30 && Layer::RightPanel.z_of() == 40,
        Layer::MobileTopBar.z_of() == 10 && Layer::MobileChrome.z_of() == 20,
        Layer::SiteModal.z_of() == 10 && Layer::ShortcutsHelp.z_of() == 20,
        Layer::WipeModal.z_of() == 30 && Layer::ResetSettingsModal.z_of() == 30,
        Layer::RangeDownloadModal.z_of() == 35,
        Layer::ActivitySheet.z_of() == 37 && Layer::QueueSheet.z_of() == 37,
        Layer::StatsModal.z_of() == 40 && Layer::VcpForecastModal.z_of() == 50,
        Layer::NetworkLog.z_of() == 60 && Layer::EventModal.z_of() == 70,
        Layer::AlertsModals.z_of() == 80 && Layer::MpingModal.z_of() == 90,
        Layer::MobileSettingsModal.z_of() == 100,
{
}

/// Panels and bars are part of the frame around the map; everything else is a modal.
pub proof fn panels_and_bars_frame_the_map(l: Layer)
    ensures
        l.kind_of() == LayerKind::Chrome <==> l == Layer::TopBar || l == Layer::BottomPanel || l
            == Layer::LeftPanel || l == Layer::RightPanel || l == Layer::MobileTopBar || l
            == Layer::MobileChrome,
        l.kind_of() == LayerKind::Chrome || l.kind_of() == LayerKind::Modal,
{
}

} // verus!
