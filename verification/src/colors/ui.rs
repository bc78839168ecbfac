//! General colours for labels and values.

use super::{from_rgb, Color32};
use vstd::prelude::*;

verus! {

/// Label.
#[verifier::allow_in_spec]
pub fn label(dark: bool) -> Color32
    returns
        (if dark {
            crate::colors::rgb(100, 100, 100)
        } else {
            crate::colors::rgb(120, 120, 120)
        }),
{
    if dark {
        from_rgb(100, 100, 100)
    } else {
        from_rgb(120, 120, 120)
    }
}

/// Value.
#[verifier::allow_in_spec]
pub fn value(dark: bool) -> Color32
    returns
        (if dark {
            crate::colors::rgb(160, 160, 160)
        } else {
            crate::colors::rgb(60, 60, 60)
        }),
{
    if dark {
        from_rgb(160, 160, 160)
    } else {
        from_rgb(60, 60, 60)
    }
}

/// Emphasized color for active states (theme-independent).
#[verifier::allow_in_spec]
pub fn active() -> Color32
    returns
        crate::colors::rgb(100, 180, 255),
{
    from_rgb(100, 180, 255)
}

/// Success/positive indicator (theme-independent).
#[verifier::allow_in_spec]
pub fn success() -> Color32
    returns
        crate::colors::rgb(100, 200, 100),
{
    from_rgb(100, 200, 100)
}

} // verus!
