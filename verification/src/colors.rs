//! Colours of the user interface. Those that differ between the dark and the
//! light theme are functions of the theme.

use vstd::prelude::*;

pub mod acquisition;
pub mod canvas;
pub mod live;
pub mod mode;
pub mod mping;
pub mod radar;
pub mod sites;
pub mod timeline;
pub mod ui;

verus! {

/// A colour with its channels already scaled by its opacity.
#[derive(Clone, Copy, Debug, PartialEq, Eq, Structural)]
pub struct Color32 {
    pub r: u8,
    pub g: u8,
    pub b: u8,
    pub a: u8,
}

/// An opaque colour.
pub open spec fn rgb(r: u8, g: u8, b: u8) -> Color32 {
    Color32 { r, g, b, a: 255 }
}

/// A channel scaled by an opacity, to the nearest value.
pub open spec fn scaled(v: u8, a: u8) -> u8 {
    ((2 * v * a + 255) / 510) as u8
}

/// A translucent colour, given with its channels unscaled.
pub open spec fn rgba(r: u8, g: u8, b: u8, a: u8) -> Color32 {
    Color32 { r: scaled(r, a), g: scaled(g, a), b: scaled(b, a), a }
}

/// An opaque colour.
pub fn from_rgb(r: u8, g: u8, b: u8) -> (c: Color32)
    ensures
        c == rgb(r, g, b),
{
    Color32 { r, g, b, a: 255 }
}

/// `Color32::from_rgba_unmultiplied` of `egui`: keeps the opacity and scales
/// each channel by it. The scaled value is never halfway between two integers,
/// so the nearest one is what the crate's rounding of `v * a / 255` gives.
#[verifier::external_body]
pub(crate) fn from_rgba_unmultiplied(r: u8, g: u8, b: u8, a: u8) -> (c: Color32)
    ensures
        c == rgba(r, g, b, a),
{
    let [r, g, b, a] = eframe::egui::Color32::from_rgba_unmultiplied(r, g, b, a).to_array();
    Color32 { r, g, b, a }
}

/// A part of a colour is weakened in proportion to its opacity, to the nearest
/// integer: kept at full opacity, gone at none.
pub proof fn colours_are_weakened_in_proportion(v: u8, a: u8)
    ensures
        -255 <= 2 * (255 * scaled(v, a) - v * a) <= 255,
        scaled(v, 255) == v,
        scaled(v, 0) == 0,
        scaled(v, a) <= v,
{
    assert(0 <= v * a <= 255 * v) by (nonlinear_arith)
        requires
            0 <= a <= 255,
            0 <= v,
    ;
    assert(2 * v * a == 2 * (v * a)) by (nonlinear_arith);
    assert(2 * v * 255 == 510 * v);
    assert(2 * v * 0 == 0);
}

/// Red, green and blue keep their places, and the opacity is as given.
pub proof fn colours_keep_their_parts(r: u8, g: u8, b: u8, a: u8)
    ensures
        rgb(r, g, b) == (Color32 { r, g, b, a: 255 }),
        rgba(r, g, b, 255) == rgb(r, g, b),
        rgba(r, g, b, a).a == a,
        rgba(r, g, b, a).r == scaled(r, a) && rgba(r, g, b, a).g == scaled(g, a) && rgba(
            r,
            g,
            b,
            a,
        ).b == scaled(b, a),
{
    colours_are_weakened_in_proportion(r, a);
    colours_are_weakened_in_proportion(g, a);
    colours_are_weakened_in_proportion(b, a);
}

} // verus!
