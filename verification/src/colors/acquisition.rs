//! Colours of the acquisition states.

use super::{from_rgb, Color32};
use vstd::prelude::*;

verus! {

/// Queued operation — muted blue.
#[verifier::allow_in_spec]
pub fn queued() -> Color32
    returns
        crate::colors::rgb(120, 160, 200),
{
    from_rgb(120, 160, 200)
}

/// Active operation — bright blue.
#[verifier::allow_in_spec]
pub fn active() -> Color32
    returns
        crate::colors::rgb(100, 180, 255),
{
    from_rgb(100, 180, 255)
}

/// Completed operation — green.
#[verifier::allow_in_spec]
pub fn completed() -> Color32
    returns
        crate::colors::rgb(100, 200, 100),
{
    from_rgb(100, 200, 100)
}

/// Failed operation — red.
#[verifier::allow_in_spec]
pub fn failed() -> Color32
    returns
        crate::colors::rgb(255, 100, 100),
{
    from_rgb(255, 100, 100)
}

/// Cancelled operation — gray.
#[verifier::allow_in_spec]
pub fn cancelled() -> Color32
    returns
        crate::colors::rgb(120, 120, 120),
{
    from_rgb(120, 120, 120)
}

} // verus!
