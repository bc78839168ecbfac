//! The national mosaic: the mesh that it is drawn with, and the hole that the
//! shown radar leaves in it.

use crate::geo::ScreenPos;
use vstd::prelude::*;

verus! {

/// Zoom, in thousandths, above which the mosaic is hidden.
pub const MAX_DISPLAY_ZOOM: u32 = 4_000;

/// Cells of the mesh along each side.
pub const WARP_GRID: usize = 10;

/// Parts along each side of a cell at the edge of the hole.
pub const CUTOUT_SUBDIV: usize = 32;

/// Vertices along each side of such a cell.
pub const SUB_STRIDE: u32 = 33;

/// Whether the mosaic is drawn: at this zoom, with an image, and in view.
pub fn is_drawn(zoom: u32, has_texture: bool, in_view: bool) -> (b: bool)
    ensures
        b == (zoom <= MAX_DISPLAY_ZOOM && has_texture && in_view),
{
    zoom <= MAX_DISPLAY_ZOOM && has_texture && in_view
}

/// The hole around the shown radar.
#[derive(Clone, Copy, Debug, PartialEq, Eq, Structural)]
pub struct RadarCutout {
    pub center: ScreenPos,
    /// Thousandths of a pixel.
    pub radius: u32,
}

/// How a cell lies to the hole.
#[derive(Clone, Copy, Debug, PartialEq, Eq, Structural)]
pub enum CellClass {
    /// Within it: not drawn.
    Inside,
    /// Clear of it: drawn whole.
    Outside,
    /// At its edge: drawn in parts.
    Straddle,
}

/// The screen is assumed to lie within these positions.
pub const SCREEN_LIMIT: i64 = 0x1000_0000_0000;

pub open spec fn on_screen(p: ScreenPos) -> bool {
    -SCREEN_LIMIT <= p.x <= SCREEN_LIMIT && -SCREEN_LIMIT <= p.y <= SCREEN_LIMIT
}

pub open spec fn min2(a: int, b: int) -> int {
    if a < b {
        a
    } else {
        b
    }
}

pub open spec fn max2(a: int, b: int) -> int {
    if a > b {
        a
    } else {
        b
    }
}

/// Squared distance of a point to the rectangle around four corners.
pub open spec fn box_dist_sq(
    p00: ScreenPos,
    p10: ScreenPos,
    p01: ScreenPos,
    p11: ScreenPos,
    c: ScreenPos,
) -> int {
    let minx = min2(min2(p00.x as int, p10.x as int), min2(p01.x as int, p11.x as int));
    let maxx = max2(max2(p00.x as int, p10.x as int), max2(p01.x as int, p11.x as int));
    let miny = min2(min2(p00.y as int, p10.y as int), min2(p01.y as int, p11.y as int));
    let maxy = max2(max2(p00.y as int, p10.y as int), max2(p01.y as int, p11.y as int));
    let dx = crate::modal_states::clamped(c.x as int, minx, maxx) - c.x;
    let dy = crate::modal_states::clamped(c.y as int, miny, maxy) - c.y;
    dx * dx + dy * dy
}

/// How a cell lies to the hole: within it where all corners are, clear of it
/// where the rectangle around the cell is, else at its edge.
pub open spec fn class_of(
    p00: ScreenPos,
    p10: ScreenPos,
    p01: ScreenPos,
    p11: ScreenPos,
    c: RadarCutout,
) -> CellClass {
    let r2 = c.radius * c.radius;
    if crate::geo::dist_sq(p00, c.center) <= r2 && crate::geo::dist_sq(p10, c.center) <= r2
        && crate::geo::dist_sq(p01, c.center) <= r2 && crate::geo::dist_sq(p11, c.center) <= r2 {
        CellClass::Inside
    } else if box_dist_sq(p00, p10, p01, p11, c.center) >= r2 {
        CellClass::Outside
    } else {
        CellClass::Straddle
    }
}

fn lesser(a: i64, b: i64) -> (r: i64)
    ensures
        r == min2(a as int, b as int),
{
    if a < b {
        a
    } else {
        b
    }
}

fn greater(a: i64, b: i64) -> (r: i64)
    ensures
        r == max2(a as int, b as int),
{
    if a > b {
        a
    } else {
        b
    }
}

fn clamp(v: i64, lo: i64, hi: i64) -> (r: i64)
    ensures
        r == crate::modal_states::clamped(v as int, lo as int, hi as int),
{
    if v < lo {
        lo
    } else if v > hi {
        hi
    } else {
        v
    }
}

proof fn lemma_square(d: int)
    requires
        -0x2000_0000_0000 <= d <= 0x2000_0000_0000,
    ensures
        0 <= d * d <= 0x2000_0000_0000 * 0x2000_0000_0000,
{
    assert(0 <= d * d <= 0x2000_0000_0000 * 0x2000_0000_0000) by (nonlinear_arith)
        requires
            -0x2000_0000_0000 <= d <= 0x2000_0000_0000,
    ;
}

fn distance_sq(a: ScreenPos, b: ScreenPos) -> (d: i128)
    requires
        on_screen(a),
        on_screen(b),
    ensures
        d == crate::geo::dist_sq(a, b),
{
    let dx: i128 = a.x as i128 - b.x as i128;
    let dy: i128 = a.y as i128 - b.y as i128;
    proof {
        lemma_square(dx as int);
        lemma_square(dy as int);
    }
    dx * dx + dy * dy
}

/// How a cell lies to the hole.
pub fn classify_cell(
    p00: ScreenPos,
    p10: ScreenPos,
    p01: ScreenPos,
    p11: ScreenPos,
    c: RadarCutout,
) -> (r: CellClass)
    requires
        on_screen(p00),
        on_screen(p10),
        on_screen(p01),
        on_screen(p11),
        on_screen(c.center),
    ensures
        r == class_of(p00, p10, p01, p11, c),
{
    let radius: i128 = c.radius as i128;
    proof {
        let q = c.radius as int;
        assert(0 <= q * q <= 0xffff_ffff * 0xffff_ffff) by (nonlinear_arith)
            requires
                0 <= q <= 0xffff_ffff,
        ;
    }
    let r2: i128 = radius * radius;
    if distance_sq(p00, c.center) <= r2 && distance_sq(p10, c.center) <= r2 && distance_sq(
        p01,
        c.center,
    ) <= r2 && distance_sq(p11, c.center) <= r2 {
        return CellClass::Inside;
    }
    let nearest = ScreenPos {
        x: clamp(
            c.center.x,
            lesser(lesser(p00.x, p10.x), lesser(p01.x, p11.x)),
            greater(greater(p00.x, p10.x), greater(p01.x, p11.x)),
        ),
        y: clamp(
            c.center.y,
            lesser(lesser(p00.y, p10.y), lesser(p01.y, p11.y)),
            greater(greater(p00.y, p10.y), greater(p01.y, p11.y)),
        ),
    };
    if distance_sq(nearest, c.center) >= r2 {
        CellClass::Outside
    } else {
        CellClass::Straddle
    }
}

/// Place of a vertex of the mesh among all of them.
pub fn grid_index(i: usize, j: usize) -> (k: usize)
    requires
        i <= WARP_GRID,
        j <= WARP_GRID,
    ensures
        k == j * 11 + i,
        k < 121,
{
    j * (WARP_GRID + 1) + i
}

/// The two triangles of a cell whose corners are the four vertices from `base`
/// on.
pub open spec fn quad_of(base: int) -> Seq<u32> {
    seq![
        base as u32,
        (base + 1) as u32,
        (base + 2) as u32,
        (base + 1) as u32,
        (base + 3) as u32,
        (base + 2) as u32,
    ]
}

/// Adds the two triangles of a cell drawn whole.
pub fn emit_quad(indices: &mut Vec<u32>, base: u32)
    requires
        base <= u32::MAX - 4,
    ensures
        final(indices)@ == old(indices)@ + quad_of(base as int),
{
    indices.push(base);
    indices.push(base + 1);
    indices.push(base + 2);
    indices.push(base + 1);
    indices.push(base + 3);
    indices.push(base + 2);
    assert(indices@ =~= old(indices)@ + quad_of(base as int));
}

/// The first corner of a part of a cell.
pub open spec fn part_corner(k: int) -> int {
    k / 32 * 33 + k % 32
}

/// Whether a part of a cell lies within the hole: whether all four corners do.
pub open spec fn part_hidden(hidden: Seq<bool>, k: int) -> bool {
    let a = part_corner(k);
    hidden[a] && hidden[a + 1] && hidden[a + 33] && hidden[a + 34]
}

/// The two triangles of a part of a cell.
pub open spec fn part_of(base: int, k: int) -> Seq<u32> {
    let a = base + part_corner(k);
    seq![
        a as u32,
        (a + 1) as u32,
        (a + 33) as u32,
        (a + 1) as u32,
        (a + 34) as u32,
        (a + 33) as u32,
    ]
}

/// The triangles of the first `k` parts of a cell: those not wholly within the
/// hole.
pub open spec fn parts_of(hidden: Seq<bool>, base: int, k: int) -> Seq<u32>
    decreases k,
{
    if k <= 0 {
        seq![]
    } else {
        parts_of(hidden, base, k - 1) + if part_hidden(hidden, k - 1) {
            seq![]
        } else {
            part_of(base, k - 1)
        }
    }
}

/// Adds the triangles of a cell at the edge of the hole. `hidden` says of each
/// of its 33 by 33 vertices, row by row, whether it lies within the hole; they
/// stand in the mesh from `base` on.
pub fn emit_subdivided(indices: &mut Vec<u32>, base: u32, hidden: &Vec<bool>)
    requires
        hidden@.len() == 1089,
        base <= u32::MAX - 1089,
    ensures
        final(indices)@ == old(indices)@ + parts_of(hidden@, base as int, 1024),
{
    let mut k: u32 = 0;
    assert(parts_of(hidden@, base as int, 0) =~= Seq::<u32>::empty());
    assert(indices@ =~= old(indices)@ + parts_of(hidden@, base as int, 0));
    while k < 1024
        invariant
            k <= 1024,
            hidden@.len() == 1089,
            base <= u32::MAX - 1089,
            indices@ == old(indices)@ + parts_of(hidden@, base as int, k as int),
        decreases 1024 - k,
    {
        let a: u32 = k / 32 * SUB_STRIDE + k % 32;
        let at: usize = a as usize;
        let ghost before = indices@;
        if !(hidden[at] && hidden[at + 1] && hidden[at + 33] && hidden[at + 34]) {
            let v: u32 = base + a;
            indices.push(v);
            indices.push(v + 1);
            indices.push(v + SUB_STRIDE);
            indices.push(v + 1);
            indices.push(v + SUB_STRIDE + 1);
            indices.push(v + SUB_STRIDE);
        }
        assert(indices@ =~= old(indices)@ + parts_of(hidden@, base as int, k + 1));
        k += 1;
    }
}

/// Every index that a divided cell adds names one of its own vertices.
pub proof fn divided_cells_stay_in_mesh(hidden: Seq<bool>, base: int, k: int, i: int)
    requires
        0 <= base <= u32::MAX - 1089,
        0 <= k <= 1024,
        0 <= i < parts_of(hidden, base, k).len(),
    ensures
        base <= parts_of(hidden, base, k)[i] < base + 1089,
    decreases k,
{
    let before = parts_of(hidden, base, k - 1);
    if i < before.len() {
        divided_cells_stay_in_mesh(hidden, base, k - 1, i);
    } else {
        assert(!part_hidden(hidden, k - 1));
        assert(parts_of(hidden, base, k)[i] == part_of(base, k - 1)[i - before.len()]);
    }
}

proof fn lemma_gap(p: int, c: int, lo: int, hi: int)
    requires
        lo <= p <= hi,
    ensures
        ({
            let d = crate::modal_states::clamped(c, lo, hi) - c;
            d * d <= (p - c) * (p - c)
        }),
{
    let d = crate::modal_states::clamped(c, lo, hi) - c;
    let e = p - c;
    assert(d * d <= e * e) by (nonlinear_arith)
        requires
            0 <= d <= e || e <= d <= 0,
    ;
}

/// A cell is inside exactly where all four corners lie within the circle.
pub proof fn cells_are_inside_with_all_corners(
    p00: ScreenPos,
    p10: ScreenPos,
    p01: ScreenPos,
    p11: ScreenPos,
    c: RadarCutout,
)
    ensures
        class_of(p00, p10, p01, p11, c) == CellClass::Inside <==> crate::geo::dist_sq(p00, c.center)
            <= c.radius * c.radius && crate::geo::dist_sq(p10, c.center) <= c.radius * c.radius
            && crate::geo::dist_sq(p01, c.center) <= c.radius * c.radius && crate::geo::dist_sq(
            p11,
            c.center,
        ) <= c.radius * c.radius,
{
}

/// No point of the box around a cell that is outside lies within the circle.
pub proof fn cells_outside_keep_clear_of_the_circle(
    p00: ScreenPos,
    p10: ScreenPos,
    p01: ScreenPos,
    p11: ScreenPos,
    c: RadarCutout,
    p: ScreenPos,
)
    requires
        class_of(p00, p10, p01, p11, c) == CellClass::Outside,
        p00.x <= p.x || p10.x <= p.x || p01.x <= p.x || p11.x <= p.x,
        p00.x >= p.x || p10.x >= p.x || p01.x >= p.x || p11.x >= p.x,
        p00.y <= p.y || p10.y <= p.y || p01.y <= p.y || p11.y <= p.y,
        p00.y >= p.y || p10.y >= p.y || p01.y >= p.y || p11.y >= p.y,
    ensures
        crate::geo::dist_sq(p, c.center) >= c.radius * c.radius,
{
    let minx = min2(min2(p00.x as int, p10.x as int), min2(p01.x as int, p11.x as int));
    let maxx = max2(max2(p00.x as int, p10.x as int), max2(p01.x as int, p11.x as int));
    let miny = min2(min2(p00.y as int, p10.y as int), min2(p01.y as int, p11.y as int));
    let maxy = max2(max2(p00.y as int, p10.y as int), max2(p01.y as int, p11.y as int));
    lemma_gap(p.x as int, c.center.x as int, minx, maxx);
    lemma_gap(p.y as int, c.center.y as int, miny, maxy);
}

/// A cell that is divided has a point of its box within the circle and a corner that
/// is not.
pub proof fn divided_cells_meet_the_circle(
    p00: ScreenPos,
    p10: ScreenPos,
    p01: ScreenPos,
    p11: ScreenPos,
    c: RadarCutout,
)
    requires
        class_of(p00, p10, p01, p11, c) == CellClass::Straddle,
    ensures
        box_dist_sq(p00, p10, p01, p11, c.center) < c.radius * c.radius,
        crate::geo::dist_sq(p00, c.center) > c.radius * c.radius || crate::geo::dist_sq(
            p10,
            c.center,
        ) > c.radius * c.radius || crate::geo::dist_sq(p01, c.center) > c.radius * c.radius
            || crate::geo::dist_sq(p11, c.center) > c.radius * c.radius,
{
}

/// A cell is two triangles that share the diagonal between its second and its third
/// corner.
pub proof fn a_cell_is_two_triangles(base: int)
    requires
        0 <= base <= u32::MAX - 4,
    ensures
        ({
            let q = quad_of(base);
            &&& q.len() == 6
            &&& q[0] == base && q[1] == base + 1 && q[2] == base + 2
            &&& q[4] == base + 3
            &&& q[3] == q[1] && q[5] == q[2]
        }),
{
}

/// The parts of a divided cell are numbered row by row, 32 to a row, over points of
/// which a row has one more.
pub proof fn parts_are_numbered_row_by_row(row: int, column: int)
    requires
        0 <= row < 32,
        0 <= column < 32,
    ensures
        part_corner(32 * row + column) == 33 * row + column,
{
    assert((32 * row + column) / 32 == row);
    assert((32 * row + column) % 32 == column);
}

/// A part is left out exactly where its four corners are hidden: two next to each
/// other, and the two below them.
pub proof fn parts_are_hidden_with_their_corners(hidden: Seq<bool>, row: int, column: int)
    requires
        0 <= row < 32,
        0 <= column < 32,
    ensures
        part_hidden(hidden, 32 * row + column) <==> hidden[33 * row + column] && hidden[33 * row
            + column + 1] && hidden[33 * (row + 1) + column] && hidden[33 * (row + 1) + column + 1],
{
    parts_are_numbered_row_by_row(row, column);
}

/// A part is two triangles over its four corners, which share the diagonal between
/// its second and its third.
pub proof fn a_part_is_two_triangles(base: int, row: int, column: int)
    requires
        0 <= base <= u32::MAX - 1089,
        0 <= row < 32,
        0 <= column < 32,
    ensures
        ({
            let q = part_of(base, 32 * row + column);
            let corner = base + 33 * row + column;
            &&& q.len() == 6
            &&& q[0] == corner && q[1] == corner + 1 && q[2] == corner + 33
            &&& q[4] == corner + 34
            &&& q[3] == q[1] && q[5] == q[2]
        }),
{
    parts_are_numbered_row_by_row(row, column);
}

/// Part by part, what is not hidden is added, and nothing else.
pub proof fn visible_parts_are_added(hidden: Seq<bool>, base: int, k: int)
    requires
        0 <= k,
    ensures
        parts_of(hidden, base, 0).len() == 0,
        part_hidden(hidden, k) ==> parts_of(hidden, base, k + 1) == parts_of(hidden, base, k),
        !part_hidden(hidden, k) ==> parts_of(hidden, base, k + 1) == parts_of(hidden, base, k)
            + part_of(base, k),
{
    assert(parts_of(hidden, base, k) + Seq::<u32>::empty() =~= parts_of(hidden, base, k));
}

/// The mosaic is drawn up to four times the zoom, where it is loaded and in view.
pub proof fn the_mosaic_is_drawn_from_afar(zoom: u32, has_texture: bool, in_view: bool, b: bool)
    requires
        call_ensures(is_drawn, (zoom, has_texture, in_view), b),
    ensures
        b ==> zoom <= 4_000 && has_texture && in_view,
        zoom <= 4_000 && has_texture && in_view ==> b,
{
}

/// Different points of the mesh have different places, row after row.
pub proof fn points_of_the_mesh_have_their_places(
    i: usize,
    j: usize,
    m: usize,
    n: usize,
    a: usize,
    b: usize,
)
    requires
        i <= 10 && j <= 10 && m <= 10 && n <= 10,
        call_ensures(grid_index, (i, j), a),
        call_ensures(grid_index, (m, n), b),
    ensures
        j < n ==> a < b,
        j == n ==> b - a == m - i,
        a <= 120,
{
}

} // verus!
