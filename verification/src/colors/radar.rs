//! Colours of the radar sweep.

use super::{from_rgb, from_rgba_unmultiplied, Color32};
use vstd::prelude::*;

verus! {

/// Active sweep line.
#[verifier::allow_in_spec]
pub fn sweep_line() -> Color32
    returns
        crate::colors::rgb(100, 255, 100),
{
    from_rgb(100, 255, 100)
}

/// Sweep start boundary line (blue-purple, matches previous sweep arc).
pub fn sweep_start_line() -> (c: Color32)
    ensures
        c == crate::colors::rgba(160, 160, 220, 180),
{
    from_rgba_unmultiplied(160, 160, 220, 180)
}

/// Stale sweep line (muted grey, shown between sweeps).
pub fn sweep_line_stale() -> (c: Color32)
    ensures
        c == crate::colors::rgba(120, 120, 120, 140),
{
    from_rgba_unmultiplied(120, 120, 120, 140)
}

/// Stale sweep start line (muted grey-blue, shown between sweeps).
pub fn sweep_start_line_stale() -> (c: Color32)
    ensures
        c == crate::colors::rgba(100, 100, 120, 100),
{
    from_rgba_unmultiplied(100, 100, 120, 100)
}

} // verus!
