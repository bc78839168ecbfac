//! The small surfaces in the canvas's corners, drawn from the back to the front.

use vstd::prelude::*;
use vstd::string::*;

verus! {

/// How the map is seen.
#[derive(Clone, Copy, Debug, PartialEq, Eq, Structural)]
pub enum ViewMode {
    Flat2D,
    Globe3D,
}

/// What the overlays' visibility depends on in a frame.
#[derive(Clone, Copy, Debug)]
pub struct OverlayContext {
    pub view: ViewMode,
    pub data_is_live: bool,
    pub mosaic_layer: bool,
    pub mosaic_has_image: bool,
    pub alerts_warnings: bool,
    pub alerts_other: bool,
    pub alerts_checked: bool,
}

/// A corner overlay.
#[derive(Clone, Copy, Debug, PartialEq, Eq, Structural)]
pub enum Overlay {
    Info,
    ColorScale,
    Compass,
    ScaleBar,
    MosaicTime,
    AlertsTime,
}

impl Overlay {
    /// Lower is drawn earlier.
    #[verifier::allow_in_spec]
    pub fn z_order(&self) -> i32
        returns
            (match self {
                Overlay::Info => 10i32,
                Overlay::ColorScale => 20i32,
                Overlay::Compass => 30i32,
                Overlay::ScaleBar => 40i32,
                Overlay::MosaicTime => 50i32,
                Overlay::AlertsTime => 60i32,
            }),
    {
        match self {
            Overlay::Info => 10,
            Overlay::ColorScale => 20,
            Overlay::Compass => 30,
            Overlay::ScaleBar => 40,
            Overlay::MosaicTime => 50,
            Overlay::AlertsTime => 60,
        }
    }

    /// Whether the overlay is drawn in a frame.
    #[verifier::allow_in_spec]
    pub fn visible(&self, ctx: OverlayContext) -> bool
        returns
            (match self {
                Overlay::Info | Overlay::ColorScale => true,
                Overlay::Compass => ctx.view == ViewMode::Globe3D,
                Overlay::ScaleBar => ctx.view == ViewMode::Flat2D,
                Overlay::MosaicTime => ctx.mosaic_layer && ctx.data_is_live && ctx.mosaic_has_image,
                Overlay::AlertsTime => ctx.view == ViewMode::Flat2D && ctx.data_is_live && (
                ctx.alerts_warnings || ctx.alerts_other) && ctx.alerts_checked,
            }),
    {
        match self {
            Overlay::Info | Overlay::ColorScale => true,
            Overlay::Compass => ctx.view == ViewMode::Globe3D,
            Overlay::ScaleBar => ctx.view == ViewMode::Flat2D,
            Overlay::MosaicTime => ctx.mosaic_layer && ctx.data_is_live && ctx.mosaic_has_image,
            Overlay::AlertsTime => ctx.view == ViewMode::Flat2D && ctx.data_is_live && (
            ctx.alerts_warnings || ctx.alerts_other) && ctx.alerts_checked,
        }
    }
}

/// The overlays of the canvas, from the back to the front.
pub open spec fn registry() -> Seq<Overlay> {
    seq![Overlay::Info, Overlay::ColorScale, Overlay::Compass, Overlay::ScaleBar]
}

/// The overlays drawn in a frame, in the order of drawing: those of the registry
/// that are visible.
pub fn drawn_overlays(ctx: OverlayContext) -> (r: Vec<Overlay>)
    ensures
        r@ == registry().filter(|o: Overlay| o.visible(ctx)),
{
    let mut r: Vec<Overlay> = Vec::new();
    let ghost shown = |o: Overlay| o.visible(ctx);
    let all: [Overlay; 4] = [
        Overlay::Info,
        Overlay::ColorScale,
        Overlay::Compass,
        Overlay::ScaleBar,
    ];
    let mut i: usize = 0;
    assert(registry().take(0).filter(shown) =~= Seq::<Overlay>::empty()) by {
        reveal(Seq::filter);
    }
    while i < 4
        invariant
            i <= 4,
            all@ == registry(),
            shown == |o: Overlay| o.visible(ctx),
            r@ == registry().take(i as int).filter(shown),
        decreases 4 - i,
    {
        assert(registry().take(i + 1).drop_last() =~= registry().take(i as int));
        assert(registry().take(i + 1).last() == all@[i as int]);
        assert(registry().take(i + 1).filter(shown) =~= if all@[i as int].visible(ctx) {
            r@.push(all@[i as int])
        } else {
            r@
        }) by {
            reveal(Seq::filter);
        }
        if all[i].visible(ctx) {
            r.push(all[i]);
        }
        i += 1;
    }
    assert(registry().take(4) =~= registry());
    r
}

/// The registry stands in the order of drawing.
pub proof fn registry_is_in_order(i: int, j: int)
    requires
        0 <= i <= j < registry().len(),
    ensures
        registry()[i].z_order() <= registry()[j].z_order(),
{
}

/// The compass and the scale bar never share a frame: the one belongs to the
/// globe, the other to the flat map.
pub proof fn compass_and_scale_bar_exclude_each_other(ctx: OverlayContext)
    ensures
        Overlay::Compass.visible(ctx) != Overlay::ScaleBar.visible(ctx),
{
}

/// The stamp of the last check for alerts.
pub fn alerts_checked_label(clock: &str) -> (s: String)
    ensures
        s@ == "Alerts checked "@ + clock@,
{
    let mut s = String::new();
    s.append("Alerts checked ");
    s.append(clock);
    assert(s@ =~= "Alerts checked "@ + clock@);
    s
}

/// The readout and the legend are always shown, the compass on the globe and the
/// scale bar on the flat map.
pub proof fn corners_show_what_fits_the_view(ctx: OverlayContext)
    ensures
        Overlay::Info.visible(ctx),
        Overlay::ColorScale.visible(ctx),
        Overlay::Compass.visible(ctx) <==> ctx.view == ViewMode::Globe3D,
        Overlay::ScaleBar.visible(ctx) <==> ctx.view == ViewMode::Flat2D,
{
}

/// The times of mosaic and alerts are shown beside live data where their layers are
/// on and there is something to date; that of the alerts only on the flat map.
pub proof fn times_are_shown_with_their_layers(ctx: OverlayContext)
    ensures
        Overlay::MosaicTime.visible(ctx) <==> ctx.data_is_live && ctx.mosaic_layer
            && ctx.mosaic_has_image,
        Overlay::AlertsTime.visible(ctx) <==> ctx.data_is_live && (ctx.alerts_warnings
            || ctx.alerts_other) && ctx.alerts_checked && ctx.view == ViewMode::Flat2D,
{
}

/// In the corners those of the registry are drawn that are visible, and no others.
pub proof fn visible_corners_are_drawn(ctx: OverlayContext, r: Vec<Overlay>)
    requires
        call_ensures(drawn_overlays, (ctx,), r),
    ensures
        r@.contains(Overlay::Info),
        r@.contains(Overlay::ColorScale),
        r@.contains(Overlay::Compass) <==> ctx.view == ViewMode::Globe3D,
        r@.contains(Overlay::ScaleBar) <==> ctx.view == ViewMode::Flat2D,
{
    let keep = |o: Overlay| o.visible(ctx);
    let all = registry();
    broadcast use vstd::seq_lib::group_filter_ensures;

    assert(all[0] == Overlay::Info && all[1] == Overlay::ColorScale);
    assert(all[2] == Overlay::Compass && all[3] == Overlay::ScaleBar);
    assert forall|o: Overlay| #[trigger] r@.contains(o) implies keep(o) by {
        let k = choose|k: int| 0 <= k < r@.len() && r@[k] == o;
        assert(keep(all.filter(keep)[k]));
    }
    assert(r@.contains(all[0]));
    assert(r@.contains(all[1]));
    assert(keep(Overlay::Compass) ==> r@.contains(all[2]));
    assert(keep(Overlay::ScaleBar) ==> r@.contains(all[3]));
}

} // verus!
