//! Where modals lie, and how large they are, within the part of the screen that
//! is safe to use.
//!
//! Lengths are in thousandths of a point.

use crate::mping::ScreenRect;
use vstd::prelude::*;

verus! {

/// Space kept around a modal.
pub const MODAL_GUTTER: u32 = 8_000;

/// What a window adds to its content's width and height.
pub const CHROME_WIDTH: i64 = 16_000;

pub const CHROME_HEIGHT: i64 = 40_000;

/// Height of an alert's row.
pub const ALERT_ROW_HEIGHT: u32 = 68_000;

/// Parts of the screen that the device keeps for itself.
#[derive(Clone, Copy, Debug, PartialEq, Eq, Structural)]
pub struct Insets {
    pub top: i32,
    pub right: i32,
    pub bottom: i32,
    pub left: i32,
}

/// The margins at both ends of a length: as asked for, or shrunk in proportion
/// where they would not fit.
pub open spec fn margins_of(length: int, before: int, after: int) -> (int, int) {
    let total = before + after;
    if total > length && total > 0 {
        let room = if length < 0 {
            0
        } else {
            length
        };
        (before * room / total, after * room / total)
    } else {
        (before, after)
    }
}

proof fn lemma_margins(length: int, before: int, after: int)
    requires
        length >= 0,
        before >= 0,
        after >= 0,
    ensures
        0 <= margins_of(length, before, after).0 <= before,
        0 <= margins_of(length, before, after).1 <= after,
        margins_of(length, before, after).0 + margins_of(length, before, after).1 <= length,
{
    let total = before + after;
    if total > length && total > 0 {
        assert(0 <= before * length <= before * total && 0 <= after * length <= after * total && (
        before * length) + (after * length) == length * total) by (nonlinear_arith)
            requires
                0 <= length <= total,
                before >= 0,
                after >= 0,
                total == before + after,
        ;
        let (a, b) = (before * length, after * length);
        vstd::arithmetic::div_mod::lemma_div_is_ordered(a, before * total, total);
        vstd::arithmetic::div_mod::lemma_div_is_ordered(b, after * total, total);
        vstd::arithmetic::div_mod::lemma_div_by_multiple(before, total);
        vstd::arithmetic::div_mod::lemma_div_by_multiple(after, total);
        vstd::arithmetic::div_mod::lemma_div_by_multiple(length, total);
        vstd::arithmetic::div_mod::lemma_div_pos_is_pos(a, total);
        vstd::arithmetic::div_mod::lemma_div_pos_is_pos(b, total);
        assert(a / total + b / total <= length) by (nonlinear_arith)
            requires
                a >= 0,
                b >= 0,
                total > 0,
                a + b == length * total,
        ;
    }
}

/// The margins at both ends of a length.
pub fn bounded_margins(length: i64, before: u32, after: u32) -> (m: (u32, u32))
    ensures
        (m.0 as int, m.1 as int) == margins_of(length as int, before as int, after as int),
{
    let total: i64 = before as i64 + after as i64;
    if total > length && total > 0 {
        let room: i128 = if length < 0 {
            0
        } else {
            length as i128
        };
        proof {
            lemma_margins(room as int, before as int, after as int);
            assert(0 <= before * room <= 0x1_0000_0000 * 0x2_0000_0000) by (nonlinear_arith)
                requires
                    0 <= before <= 0xffff_ffff,
                    0 <= room <= 0x2_0000_0000,
            ;
            assert(0 <= after * room <= 0x1_0000_0000 * 0x2_0000_0000) by (nonlinear_arith)
                requires
                    0 <= after <= 0xffff_ffff,
                    0 <= room <= 0x2_0000_0000,
            ;
        }
        let b: i128 = before as i128 * room / (total as i128);
        let a: i128 = after as i128 * room / (total as i128);
        (b as u32, a as u32)
    } else {
        (before, after)
    }
}

/// Where a modal lies, and the size of its content.
#[derive(Clone, Copy, Debug, PartialEq, Eq)]
pub struct ModalGeometry {
    pub bounds: ScreenRect,
    pub width: i64,
    pub height: i64,
}

pub open spec fn margin(inset: int) -> int {
    (if inset < 0 {
        0
    } else {
        inset
    }) + MODAL_GUTTER
}

pub open spec fn at_least_zero(v: int) -> int {
    if v < 0 {
        0
    } else {
        v
    }
}

/// The part of the screen that a modal may take.
pub open spec fn bounds_of(viewport: ScreenRect, insets: Insets) -> (int, int, int, int) {
    let (left, right) = margins_of(
        viewport.right - viewport.left,
        margin(insets.left as int),
        margin(insets.right as int),
    );
    let (top, bottom) = margins_of(
        viewport.bottom - viewport.top,
        margin(insets.top as int),
        margin(insets.bottom as int),
    );
    (viewport.left + left, viewport.top + top, viewport.right - right, viewport.bottom - bottom)
}

/// Whether a rectangle is one of a screen.
pub open spec fn is_viewport(v: ScreenRect) -> bool {
    &&& -0x1_0000_0000 <= v.left <= v.right <= 0x1_0000_0000
    &&& -0x1_0000_0000 <= v.top <= v.bottom <= 0x1_0000_0000
}

fn margin_for(inset: i32) -> (m: u32)
    ensures
        m == margin(inset as int),
{
    if inset < 0 {
        MODAL_GUTTER
    } else {
        inset as u32 + MODAL_GUTTER
    }
}

/// Where a modal lies, and the size of its content: as wished for, as far as the
/// screen's safe part and the window's frame leave it.
pub fn modal_geometry_for_viewport(
    viewport: ScreenRect,
    insets: Insets,
    width: i64,
    height: i64,
) -> (g: ModalGeometry)
    requires
        is_viewport(viewport),
    ensures
        (
            g.bounds.left as int,
            g.bounds.top as int,
            g.bounds.right as int,
            g.bounds.bottom as int,
        ) == bounds_of(viewport, insets),
        g.width == crate::national_mosaic::min2(
            width as int,
            at_least_zero(g.bounds.right - g.bounds.left - CHROME_WIDTH),
        ),
        g.height == crate::national_mosaic::min2(
            height as int,
            at_least_zero(g.bounds.bottom - g.bounds.top - CHROME_HEIGHT),
        ),
        viewport.left <= g.bounds.left <= g.bounds.right <= viewport.right,
        viewport.top <= g.bounds.top <= g.bounds.bottom <= viewport.bottom,
{
    let (left, right): (u32, u32) = bounded_margins(
        viewport.right - viewport.left,
        margin_for(insets.left),
        margin_for(insets.right),
    );
    let (top, bottom): (u32, u32) = bounded_margins(
        viewport.bottom - viewport.top,
        margin_for(insets.top),
        margin_for(insets.bottom),
    );
    proof {
        lemma_margins(
            viewport.right - viewport.left,
            margin(insets.left as int),
            margin(insets.right as int),
        );
        lemma_margins(
            viewport.bottom - viewport.top,
            margin(insets.top as int),
            margin(insets.bottom as int),
        );
    }
    let bounds = ScreenRect {
        left: viewport.left + left as i64,
        top: viewport.top + top as i64,
        right: viewport.right - right as i64,
        bottom: viewport.bottom - bottom as i64,
    };
    let room_x: i64 = bounds.right - bounds.left - CHROME_WIDTH;
    let room_y: i64 = bounds.bottom - bounds.top - CHROME_HEIGHT;
    let most_x: i64 = if room_x < 0 {
        0
    } else {
        room_x
    };
    let most_y: i64 = if room_y < 0 {
        0
    } else {
        room_y
    };
    ModalGeometry {
        bounds,
        width: if width < most_x {
            width
        } else {
            most_x
        },
        height: if height < most_y {
            height
        } else {
            most_y
        },
    }
}

/// On a screen with room for the margins, a modal stays clear of what the device
/// keeps for itself.
pub proof fn modals_stay_clear_of_insets(viewport: ScreenRect, insets: Insets)
    requires
        is_viewport(viewport),
        margin(insets.left as int) + margin(insets.right as int) <= viewport.right - viewport.left,
        margin(insets.top as int) + margin(insets.bottom as int) <= viewport.bottom - viewport.top,
    ensures
        ({
            let (left, top, right, bottom) = bounds_of(viewport, insets);
            &&& left == viewport.left + margin(insets.left as int)
            &&& top == viewport.top + margin(insets.top as int)
            &&& right == viewport.right - margin(insets.right as int)
            &&& bottom == viewport.bottom - margin(insets.bottom as int)
        }),
{
}

/// Top of an alert's row among those on display.
pub open spec fn row_top(top: int, row: int, spacing: int) -> int {
    top + row * (ALERT_ROW_HEIGHT + spacing)
}

/// The rectangle of an alert's row among those on display.
pub fn alert_row_rect(rows: ScreenRect, row: u32, spacing: u32) -> (r: ScreenRect)
    requires
        is_viewport(rows),
        row_top(rows.top as int, row as int, spacing as int) + ALERT_ROW_HEIGHT <= i64::MAX,
    ensures
        r == (ScreenRect {
            left: rows.left,
            top: row_top(rows.top as int, row as int, spacing as int) as i64,
            right: rows.right,
            bottom: (row_top(rows.top as int, row as int, spacing as int) + ALERT_ROW_HEIGHT) as i64,
        }),
{
    let step: i64 = ALERT_ROW_HEIGHT as i64 + spacing as i64;
    proof {
        let (n, s) = (row as int, step as int);
        assert(n * s >= 0) by (nonlinear_arith)
            requires
                n >= 0,
                s >= 0,
        ;
    }
    let down: i128 = row as i128 * step as i128;
    let top: i128 = rows.top as i128 + down;
    ScreenRect {
        left: rows.left,
        top: top as i64,
        right: rows.right,
        bottom: (top + ALERT_ROW_HEIGHT as i128) as i64,
    }
}

/// Rows do not overlap.
pub proof fn alert_rows_do_not_overlap(top: int, a: int, b: int, spacing: int)
    requires
        0 <= a < b,
        spacing >= 0,
    ensures
        row_top(top, a, spacing) + ALERT_ROW_HEIGHT <= row_top(top, b, spacing),
{
    let step = ALERT_ROW_HEIGHT + spacing;
    assert(b * step - a * step >= step) by (nonlinear_arith)
        requires
            a < b,
            step >= 0,
    ;
}

/// Width and height of the settings on a touch device: nearly the whole width, and
/// 78 percent of the height, as far as that leaves a modal of its least height
/// and a strip around it.
pub open spec fn settings_size_of(width: int, height: int) -> (int, int) {
    let share = height * 78 / 100;
    (
        if width - 16_000 < 240_000 {
            240_000
        } else {
            width - 16_000
        },
        if share < 360_000 {
            360_000
        } else if share > height - 40_000 {
            height - 40_000
        } else {
            share
        },
    )
}

/// Width and height of the settings on a touch device, for a screen that has room
/// for the least height.
pub fn settings_size(width: u32, height: u32) -> (r: (u32, u32))
    requires
        height >= 400_000,
    ensures
        (r.0 as int, r.1 as int) == settings_size_of(width as int, height as int),
{
    let share: u32 = (height as u64 * 78 / 100) as u32;
    (
        if width < 256_000 {
            240_000
        } else {
            width - 16_000
        },
        if share < 360_000 {
            360_000
        } else if share > height - 40_000 {
            height - 40_000
        } else {
            share
        },
    )
}

/// The settings leave a strip of the screen free above and below.
pub proof fn settings_leave_a_strip(width: int, height: int)
    requires
        height >= 400_000,
    ensures
        360_000 <= settings_size_of(width, height).1 <= height - 40_000,
{
}

/// Margins that fit are kept; ones that do not share the length in proportion, and
/// never take more than there is.
pub proof fn margins_share_what_there_is(length: int, before: int, after: int)
    requires
        length >= 0,
        before >= 0,
        after >= 0,
    ensures
        ({
            let (a, b) = margins_of(length, before, after);
            &&& before + after <= length ==> a == before && b == after
            &&& before + after > length ==> a * (before + after) <= before * length < (a + 1) * (
            before + after) && b * (before + after) <= after * length < (b + 1) * (before + after)
            &&& a + b <= length
        }),
{
    lemma_margins(length, before, after);
    let total = before + after;
    if total > length {
        let n = before * length;
        let m = after * length;
        vstd::arithmetic::div_mod::lemma_fundamental_div_mod(n, total);
        vstd::arithmetic::div_mod::lemma_fundamental_div_mod(m, total);
        let q = n / total;
        let r = m / total;
        assert(q * total == total * q && (q + 1) * total == total * q + total)
            by (nonlinear_arith);
        assert(r * total == total * r && (r + 1) * total == total * r + total)
            by (nonlinear_arith);
    }
}

/// On each side a modal keeps the inset and a gutter of eight points; an inset below
/// zero counts as none.
pub proof fn margins_are_inset_and_gutter(inset: int)
    ensures
        inset >= 0 ==> margin(inset) == inset + 8_000,
        inset < 0 ==> margin(inset) == 8_000,
{
}

/// Where the insets fit, the bounds lie within the viewport by each of them on its
/// own side.
pub proof fn each_inset_counts_on_its_side(viewport: ScreenRect, insets: Insets)
    requires
        margin(insets.left as int) + margin(insets.right as int) <= viewport.right - viewport.left,
        margin(insets.top as int) + margin(insets.bottom as int) <= viewport.bottom - viewport.top,
    ensures
        bounds_of(viewport, insets) == (
            viewport.left + margin(insets.left as int),
            viewport.top + margin(insets.top as int),
            viewport.right - margin(insets.right as int),
            viewport.bottom - margin(insets.bottom as int),
        ),
{
}

/// Rows of alerts lie as far apart as they are high and spaced.
pub proof fn alert_rows_are_evenly_spaced(top: int, row: int, spacing: int)
    ensures
        row_top(top, 0, spacing) == top,
        row_top(top, row + 1, spacing) - row_top(top, row, spacing) == 68_000 + spacing,
{
    let step = 68_000 + spacing;
    assert((row + 1) * step == row * step + step) by (nonlinear_arith);
    assert(0 * step == 0);
}

/// The settings are as wide as the screen less sixteen points, and at least 240; and
/// as high as 78 hundredths of it, at least 360 points and at most all but forty.
pub proof fn settings_fill_most_of_the_screen(width: int, height: int)
    requires
        height >= 400_000,
    ensures
        ({
            let (w, h) = settings_size_of(width, height);
            &&& w >= 240_000 && w >= width - 16_000
            &&& w == 240_000 || w == width - 16_000
            &&& 360_000 <= h <= height - 40_000
            &&& 360_000 < h < height - 40_000 ==> 100 * h <= 78 * height < 100 * (h + 1)
            &&& h == 360_000 ==> 78 * height < 100 * 360_001
            &&& h == height - 40_000 && h > 360_000 ==> 78 * height >= 100 * h
        }),
{
}

/// A modal is as large as it asks to be where the bounds leave room for its frame,
/// sixteen points wide and forty high, and otherwise fills what is left.
pub proof fn modals_shrink_to_their_bounds(
    viewport: ScreenRect,
    insets: Insets,
    width: i64,
    height: i64,
    g: ModalGeometry,
)
    requires
        is_viewport(viewport),
        width >= 0,
        height >= 0,
        call_ensures(modal_geometry_for_viewport, (viewport, insets, width, height), g),
    ensures
        g.width <= width && g.height <= height,
        width + 16_000 <= g.bounds.right - g.bounds.left ==> g.width == width,
        height + 40_000 <= g.bounds.bottom - g.bounds.top ==> g.height == height,
        g.bounds.right - g.bounds.left >= 16_000 ==> g.width + 16_000 <= g.bounds.right
            - g.bounds.left,
        g.bounds.bottom - g.bounds.top >= 40_000 ==> g.height + 40_000 <= g.bounds.bottom
            - g.bounds.top,
        g.bounds.left >= viewport.left && g.bounds.right <= viewport.right,
{
}

/// A row of alerts has the width of the list and its own height.
pub proof fn alert_rows_have_one_height(rows: ScreenRect, row: u32, spacing: u32, r: ScreenRect)
    requires
        is_viewport(rows),
        row_top(rows.top as int, row as int, spacing as int) + ALERT_ROW_HEIGHT <= i64::MAX,
        call_ensures(alert_row_rect, (rows, row, spacing), r),
    ensures
        r.left == rows.left && r.right == rows.right,
        r.bottom - r.top == 68_000,
        r.top == rows.top + row * (68_000 + spacing),
{
    assert(row * (68_000 + spacing) >= 0) by (nonlinear_arith)
        requires
            row >= 0,
            spacing >= 0,
    ;
}

/// A length below zero leaves no margins.
pub proof fn no_length_leaves_no_margins(length: int, before: int, after: int)
    requires
        length <= 0,
        before >= 0,
        after >= 0,
    ensures
        margins_of(length, before, after) == (0int, 0int),
{
    let total = before + after;
    if total > 0 {
        assert(before * 0 == 0 && after * 0 == 0);
        vstd::arithmetic::div_mod::lemma_basic_div(0, total);
    }
}

} // verus!
