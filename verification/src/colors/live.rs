//! Colours of the live streaming indicators.

use super::{from_rgb, Color32};
use vstd::prelude::*;

verus! {

/// Orange: connecting, or stalled.
#[verifier::allow_in_spec]
pub fn acquiring() -> Color32
    returns
        crate::colors::rgb(255, 180, 50),
{
    from_rgb(255, 180, 50)
}

/// Red: streaming.
#[verifier::allow_in_spec]
pub fn streaming() -> Color32
    returns
        crate::colors::rgb(255, 80, 80),
{
    from_rgb(255, 80, 80)
}

/// Blue: waiting for the next chunk.
#[verifier::allow_in_spec]
pub fn waiting() -> Color32
    returns
        crate::colors::rgb(100, 180, 255),
{
    from_rgb(100, 180, 255)
}

} // verus!
