//! Colours of the radar sites.

use super::{from_rgb, Color32};
use vstd::prelude::*;

verus! {

/// Orange for other (non-current) sites.
#[verifier::allow_in_spec]
pub fn other() -> Color32
    returns
        crate::colors::rgb(255, 180, 80),
{
    from_rgb(255, 180, 80)
}

/// Orange stroke for other sites.
#[verifier::allow_in_spec]
pub fn other_stroke() -> Color32
    returns
        crate::colors::rgb(180, 120, 40),
{
    from_rgb(180, 120, 40)
}

/// Cyan for current site.
#[verifier::allow_in_spec]
pub fn current() -> Color32
    returns
        crate::colors::rgb(50, 200, 255),
{
    from_rgb(50, 200, 255)
}

/// Cyan stroke for current site.
#[verifier::allow_in_spec]
pub fn current_stroke() -> Color32
    returns
        crate::colors::rgb(30, 150, 200),
{
    from_rgb(30, 150, 200)
}

/// Label color for other sites.
#[verifier::allow_in_spec]
pub fn label() -> Color32
    returns
        crate::colors::rgb(220, 220, 240),
{
    from_rgb(220, 220, 240)
}

/// Label color for current site.
#[verifier::allow_in_spec]
pub fn current_label() -> Color32
    returns
        crate::colors::rgb(50, 200, 255),
{
    from_rgb(50, 200, 255)
}

} // verus!
