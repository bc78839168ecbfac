//! Colours of the map canvas.

use super::{from_rgb, from_rgba_unmultiplied, Color32};
use vstd::prelude::*;

verus! {

/// Background.
pub fn background(dark: bool) -> (c: Color32)
    ensures
        c == (if dark {
            crate::colors::rgb(0, 0, 0)
        } else {
            crate::colors::rgb(235, 235, 240)
        }),
{
    if dark {
        from_rgb(0, 0, 0)
    } else {
        from_rgb(235, 235, 240)
    }
}

/// Center marker.
pub fn center_marker(dark: bool) -> (c: Color32)
    ensures
        c == (if dark {
            crate::colors::rgb(180, 180, 200)
        } else {
            crate::colors::rgb(80, 80, 100)
        }),
{
    if dark {
        from_rgb(180, 180, 200)
    } else {
        from_rgb(80, 80, 100)
    }
}

/// Center marker stroke.
pub fn center_marker_stroke(dark: bool) -> (c: Color32)
    ensures
        c == (if dark {
            crate::colors::rgb(100, 100, 120)
        } else {
            crate::colors::rgb(60, 60, 80)
        }),
{
    if dark {
        from_rgb(100, 100, 120)
    } else {
        from_rgb(60, 60, 80)
    }
}

/// Ring.
pub fn ring(dark: bool) -> (c: Color32)
    ensures
        c == (if dark {
            crate::colors::rgba(60, 80, 60, 120)
        } else {
            crate::colors::rgba(100, 120, 100, 100)
        }),
{
    if dark {
        from_rgba_unmultiplied(60, 80, 60, 120)
    } else {
        from_rgba_unmultiplied(100, 120, 100, 100)
    }
}

/// Ring major.
pub fn ring_major(dark: bool) -> (c: Color32)
    ensures
        c == (if dark {
            crate::colors::rgba(80, 100, 80, 150)
        } else {
            crate::colors::rgba(80, 100, 80, 130)
        }),
{
    if dark {
        from_rgba_unmultiplied(80, 100, 80, 150)
    } else {
        from_rgba_unmultiplied(80, 100, 80, 130)
    }
}

/// Radial.
pub fn radial(dark: bool) -> (c: Color32)
    ensures
        c == (if dark {
            crate::colors::rgba(50, 70, 50, 80)
        } else {
            crate::colors::rgba(100, 120, 100, 60)
        }),
{
    if dark {
        from_rgba_unmultiplied(50, 70, 50, 80)
    } else {
        from_rgba_unmultiplied(100, 120, 100, 60)
    }
}

/// Cardinal label.
pub fn cardinal_label(dark: bool) -> (c: Color32)
    ensures
        c == (if dark {
            crate::colors::rgba(120, 140, 120, 200)
        } else {
            crate::colors::rgba(60, 80, 60, 200)
        }),
{
    if dark {
        from_rgba_unmultiplied(120, 140, 120, 200)
    } else {
        from_rgba_unmultiplied(60, 80, 60, 200)
    }
}

} // verus!
