//! Colours of the timeline.

use super::{from_rgb, from_rgba_unmultiplied, Color32};
use vstd::prelude::*;

verus! {

/// Background.
pub fn background(dark: bool) -> (c: Color32)
    ensures
        c == (if dark {
            crate::colors::rgb(10, 10, 14)
        } else {
            crate::colors::rgb(230, 230, 235)
        }),
{
    if dark {
        from_rgb(10, 10, 14)
    } else {
        from_rgb(230, 230, 235)
    }
}

/// Border.
pub fn border(dark: bool) -> (c: Color32)
    ensures
        c == (if dark {
            crate::colors::rgb(60, 60, 80)
        } else {
            crate::colors::rgb(180, 180, 195)
        }),
{
    if dark {
        from_rgb(60, 60, 80)
    } else {
        from_rgb(180, 180, 195)
    }
}

/// Tick major.
pub fn tick_major(dark: bool) -> (c: Color32)
    ensures
        c == (if dark {
            crate::colors::rgb(120, 120, 140)
        } else {
            crate::colors::rgb(80, 80, 100)
        }),
{
    if dark {
        from_rgb(120, 120, 140)
    } else {
        from_rgb(80, 80, 100)
    }
}

/// Tick minor.
pub fn tick_minor(dark: bool) -> (c: Color32)
    ensures
        c == (if dark {
            crate::colors::rgb(60, 60, 80)
        } else {
            crate::colors::rgb(170, 170, 185)
        }),
{
    if dark {
        from_rgb(60, 60, 80)
    } else {
        from_rgb(170, 170, 185)
    }
}

/// Tick label.
pub fn tick_label(dark: bool) -> (c: Color32)
    ensures
        c == (if dark {
            crate::colors::rgb(140, 140, 160)
        } else {
            crate::colors::rgb(60, 60, 80)
        }),
{
    if dark {
        from_rgb(140, 140, 160)
    } else {
        from_rgb(60, 60, 80)
    }
}

/// Playback-position cursor ("the needle") and current-time readout.
/// A neutral, high-contrast tone deliberately distinct from the red
/// now/live family so the "where I'm looking" marker never reads as
/// "now". Theme-aware: near-white on dark, near-black on light.
pub fn selection(dark: bool) -> (c: Color32)
    ensures
        c == (if dark {
            crate::colors::rgb(235, 240, 250)
        } else {
            crate::colors::rgb(40, 45, 60)
        }),
{
    if dark {
        from_rgb(235, 240, 250)
    } else {
        from_rgb(40, 45, 60)
    }
}

/// Ring around the frame on display.
#[verifier::allow_in_spec]
pub fn active_sweep() -> Color32
    returns
        crate::colors::rgb(255, 255, 100),
{
    from_rgb(255, 255, 100)
}

/// Ring around the frame that was on display, while the two blend: the same
/// yellow at an opacity of 110, with its channels already scaled.
#[verifier::allow_in_spec]
pub fn prev_active_sweep() -> Color32
    returns
        (Color32 { r: 110, g: 110, b: 43, a: 110 }),
{
    Color32 { r: 110, g: 110, b: 43, a: 110 }
}

/// The line of the present while nothing streams: a muted red. Red stands for
/// the present and for live data alone.
#[verifier::allow_in_spec]
pub fn now_idle() -> Color32
    returns
        crate::colors::rgb(200, 95, 95),
{
    from_rgb(200, 95, 95)
}

/// The line of the present while data streams: the bright end of the same red.
#[verifier::allow_in_spec]
pub fn live_active() -> Color32
    returns
        crate::colors::rgb(255, 80, 80),
{
    from_rgb(255, 80, 80)
}

/// Label at the ends of a selection: neutral.
#[verifier::allow_in_spec]
pub fn selection_label() -> Color32
    returns
        crate::colors::rgb(180, 188, 205),
{
    from_rgb(180, 188, 205)
}

/// Translucent fill of a selection or a loop: neutral.
pub fn selection_fill() -> (c: Color32)
    ensures
        c == crate::colors::rgba(180, 188, 210, 34),
{
    from_rgba_unmultiplied(180, 188, 210, 34)
}

/// Selection/loop range boundary lines — neutral.
pub fn selection_edge() -> (c: Color32)
    ensures
        c == crate::colors::rgba(180, 188, 210, 170),
{
    from_rgba_unmultiplied(180, 188, 210, 170)
}

/// Text drawn inside scan/sweep blocks. Theme-independent because it
/// sits on the blocks' own fill colors, not the panel background.
pub fn block_label() -> (c: Color32)
    ensures
        c == crate::colors::rgba(225, 232, 248, 200),
{
    from_rgba_unmultiplied(225, 232, 248, 200)
}

/// De-emphasized in-block text (ghost/projected blocks).
pub fn block_label_weak() -> (c: Color32)
    ensures
        c == crate::colors::rgba(225, 232, 248, 110),
{
    from_rgba_unmultiplied(225, 232, 248, 110)
}

/// Fill for an on-device scan block. Partial scans (some sweeps still
/// missing) keep the same hue at reduced alpha — two tiers only; the
/// exact count is carried by the block label and tooltip.
pub fn cached_fill(dark: bool, partial: bool) -> (c: Color32)
    ensures
        c == ({
            let alpha: u8 = if partial {
                120
            } else {
                235
            };
            if dark {
                crate::colors::rgba(88, 130, 178, alpha)
            } else {
                crate::colors::rgba(70, 110, 160, alpha)
            }
        }),
{
    let alpha: u8 = if partial {
        120
    } else {
        235
    };
    if dark {
        from_rgba_unmultiplied(88, 130, 178, alpha)
    } else {
        from_rgba_unmultiplied(70, 110, 160, alpha)
    }
}

/// Faint interior wash for an available-but-not-downloaded block.
pub fn available_fill(dark: bool) -> (c: Color32)
    ensures
        c == (if dark {
            crate::colors::rgba(130, 150, 185, 36)
        } else {
            crate::colors::rgba(90, 110, 150, 36)
        }),
{
    if dark {
        from_rgba_unmultiplied(130, 150, 185, 36)
    } else {
        from_rgba_unmultiplied(90, 110, 150, 36)
    }
}

/// Dashed border for an available-but-not-downloaded block.
pub fn available_border(dark: bool) -> (c: Color32)
    ensures
        c == (if dark {
            crate::colors::rgba(130, 150, 185, 120)
        } else {
            crate::colors::rgba(90, 110, 150, 120)
        }),
{
    if dark {
        from_rgba_unmultiplied(130, 150, 185, 120)
    } else {
        from_rgba_unmultiplied(90, 110, 150, 120)
    }
}

/// Tooltip status-word tint for on-device data — a brighter, readable
/// take on the cached steel blue.
pub fn status_cached() -> (c: Color32)
    ensures
        c == crate::colors::rgb(125, 170, 220),
{
    from_rgb(125, 170, 220)
}

/// Tooltip status-word tint for cloud-available data.
pub fn status_available() -> (c: Color32)
    ensures
        c == crate::colors::rgb(150, 165, 200),
{
    from_rgb(150, 165, 200)
}

/// Subtle bounding box around a scan container.
pub fn container_border(dark: bool) -> (c: Color32)
    ensures
        c == (if dark {
            crate::colors::rgba(120, 130, 150, 90)
        } else {
            crate::colors::rgba(90, 100, 120, 90)
        }),
{
    if dark {
        from_rgba_unmultiplied(120, 130, 150, 90)
    } else {
        from_rgba_unmultiplied(90, 100, 120, 90)
    }
}

/// The thin lines between the sweeps of a volume inside its container.
pub fn sub_texture(dark: bool) -> (c: Color32)
    ensures
        c == (if dark {
            crate::colors::rgba(120, 130, 150, 45)
        } else {
            crate::colors::rgba(90, 100, 120, 45)
        }),
{
    if dark {
        from_rgba_unmultiplied(120, 130, 150, 45)
    } else {
        from_rgba_unmultiplied(90, 100, 120, 45)
    }
}

/// Solid fill for a downloaded (Cached) frame cell — the neutral steel
/// tone at full presence.
pub fn cell_cached(dark: bool) -> (c: Color32)
    ensures
        c == (if dark {
            crate::colors::rgba(88, 130, 178, 230)
        } else {
            crate::colors::rgba(70, 110, 160, 230)
        }),
{
    if dark {
        from_rgba_unmultiplied(88, 130, 178, 230)
    } else {
        from_rgba_unmultiplied(70, 110, 160, 230)
    }
}

/// Hollow-outline border for an Available (server-only) frame cell.
pub fn cell_available_border(dark: bool) -> (c: Color32)
    ensures
        c == (if dark {
            crate::colors::rgba(130, 150, 185, 120)
        } else {
            crate::colors::rgba(90, 110, 150, 120)
        }),
{
    available_border(dark)
}

/// Faint wash inside an Available frame cell (kept low so the outline, not
/// the fill, carries the meaning).
pub fn cell_available_fill(dark: bool) -> (c: Color32)
    ensures
        c == (if dark {
            crate::colors::rgba(130, 150, 185, 36)
        } else {
            crate::colors::rgba(90, 110, 150, 36)
        }),
{
    available_fill(dark)
}

/// In-flight fill (archive pulse / live chunk slots) — same steel hue as
/// cached, at reduced alpha so it reads as "filling in".
pub fn cell_inflight(dark: bool) -> (c: Color32)
    ensures
        c == (if dark {
            crate::colors::rgba(88, 130, 178, 150)
        } else {
            crate::colors::rgba(70, 110, 160, 150)
        }),
{
    if dark {
        from_rgba_unmultiplied(88, 130, 178, 150)
    } else {
        from_rgba_unmultiplied(70, 110, 160, 150)
    }
}

/// Border around an in-flight cell.
pub fn cell_inflight_border(dark: bool) -> (c: Color32)
    ensures
        c == (if dark {
            crate::colors::rgba(88, 130, 178, 180)
        } else {
            crate::colors::rgba(70, 110, 160, 180)
        }),
{
    if dark {
        from_rgba_unmultiplied(88, 130, 178, 180)
    } else {
        from_rgba_unmultiplied(70, 110, 160, 180)
    }
}

/// Hatch stroke for a Queued frame cell (faint, neutral — distinct from the
/// dashed Available outline by texture, readable in grayscale).
pub fn cell_queued_hatch(dark: bool) -> (c: Color32)
    ensures
        c == (if dark {
            crate::colors::rgba(130, 150, 185, 95)
        } else {
            crate::colors::rgba(90, 110, 150, 95)
        }),
{
    if dark {
        from_rgba_unmultiplied(130, 150, 185, 95)
    } else {
        from_rgba_unmultiplied(90, 110, 150, 95)
    }
}

/// Dashed-ghost border for a Projected (future) frame cell.
pub fn cell_projected_border(dark: bool) -> (c: Color32)
    ensures
        c == (if dark {
            crate::colors::rgba(130, 150, 185, 110)
        } else {
            crate::colors::rgba(90, 110, 150, 110)
        }),
{
    if dark {
        from_rgba_unmultiplied(130, 150, 185, 110)
    } else {
        from_rgba_unmultiplied(90, 110, 150, 110)
    }
}

/// Faint fill for a Projected cell.
pub fn cell_projected_fill(dark: bool) -> (c: Color32)
    ensures
        c == (if dark {
            crate::colors::rgba(130, 150, 185, 24)
        } else {
            crate::colors::rgba(90, 110, 150, 24)
        }),
{
    if dark {
        from_rgba_unmultiplied(130, 150, 185, 24)
    } else {
        from_rgba_unmultiplied(90, 110, 150, 24)
    }
}

/// Countdown text on the nearest projected ghost ("0.5° in ~40s").
pub fn cell_countdown_label(dark: bool) -> (c: Color32)
    ensures
        c == (if dark {
            crate::colors::rgba(200, 210, 230, 220)
        } else {
            crate::colors::rgba(60, 75, 100, 230)
        }),
{
    if dark {
        from_rgba_unmultiplied(200, 210, 230, 220)
    } else {
        from_rgba_unmultiplied(60, 75, 100, 230)
    }
}

/// Faint neutral fill for a saved event overlay band.
pub fn event_fill() -> (c: Color32)
    ensures
        c == crate::colors::rgba(190, 198, 215, 22),
{
    from_rgba_unmultiplied(190, 198, 215, 22)
}

/// Border/line + bookmark-tick color for a saved event overlay.
pub fn event_border() -> (c: Color32)
    ensures
        c == crate::colors::rgba(190, 198, 215, 150),
{
    from_rgba_unmultiplied(190, 198, 215, 150)
}

/// Label color for a saved event name.
pub fn event_label() -> (c: Color32)
    ensures
        c == crate::colors::rgb(190, 198, 215),
{
    from_rgb(190, 198, 215)
}

} // verus!
