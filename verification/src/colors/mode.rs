//! Colours of the application modes.

use super::{from_rgb, Color32};
use vstd::prelude::*;

verus! {

/// Idle - no data under cursor, not streaming.
#[verifier::allow_in_spec]
pub fn idle() -> Color32
    returns
        crate::colors::rgb(100, 100, 100),
{
    from_rgb(100, 100, 100)
}

/// Archive - data loaded and under cursor.
#[verifier::allow_in_spec]
pub fn archive() -> Color32
    returns
        crate::colors::rgb(100, 180, 255),
{
    from_rgb(100, 180, 255)
}

/// Live - real-time streaming locked to now.
#[verifier::allow_in_spec]
pub fn live() -> Color32
    returns
        crate::colors::rgb(255, 80, 80),
{
    from_rgb(255, 80, 80)
}

} // verus!
