//! Points on the map and on the screen.
//!
//! Latitudes and longitudes are in millionths of a degree, screen positions in
//! thousandths of a pixel.

use vstd::prelude::*;

verus! {

/// A point on the map.
#[derive(Clone, Copy, Debug, PartialEq, Eq, Structural)]
pub struct GeoPoint {
    pub lat: i64,
    pub lon: i64,
}

/// The part of the map that is in view.
#[derive(Clone, Copy, Debug, PartialEq, Eq, Structural)]
pub struct GeoBounds {
    pub min_lon: i64,
    pub min_lat: i64,
    pub max_lon: i64,
    pub max_lat: i64,
}

/// A point on the screen.
#[derive(Clone, Copy, Debug, PartialEq, Eq, Structural)]
pub struct ScreenPos {
    pub x: i64,
    pub y: i64,
}

impl GeoBounds {
    /// Whether a point lies within the bounds widened by `padding`.
    pub open spec fn holds(&self, p: GeoPoint, padding: int) -> bool {
        &&& self.min_lat - padding <= p.lat <= self.max_lat + padding
        &&& self.min_lon - padding <= p.lon <= self.max_lon + padding
    }

    /// Whether a point lies within the bounds widened by `padding`.
    pub fn contains(&self, p: GeoPoint, padding: u32) -> (b: bool)
        ensures
            b == self.holds(p, padding as int),
    {
        let pad: i128 = padding as i128;
        let lat: i128 = p.lat as i128;
        let lon: i128 = p.lon as i128;
        !(lat < self.min_lat as i128 - pad || lat > self.max_lat as i128 + pad || lon
            < self.min_lon as i128 - pad || lon > self.max_lon as i128 + pad)
    }
}

/// Squared distance of two screen positions.
pub open spec fn dist_sq(a: ScreenPos, b: ScreenPos) -> int {
    (a.x - b.x) * (a.x - b.x) + (a.y - b.y) * (a.y - b.y)
}

/// Squared distance of two screen positions, where it is at most `radius`
/// squared.
pub fn dist_sq_within(a: ScreenPos, b: ScreenPos, radius: u32) -> (r: Option<u64>)
    requires
        radius <= 0x7fff_ffff,
    ensures
        match r {
            Some(d) => d == dist_sq(a, b) && d <= radius * radius,
            None => dist_sq(a, b) > radius * radius,
        },
{
    let dx: i128 = a.x as i128 - b.x as i128;
    let dy: i128 = a.y as i128 - b.y as i128;
    let limit: i128 = radius as i128;
    proof {
        let (x, y, l) = (dx as int, dy as int, radius as int);
        assert(x * x >= 0 && y * y >= 0) by (nonlinear_arith);
        if !(-l <= x <= l) {
            assert(x * x > l * l) by (nonlinear_arith)
                requires
                    !(-l <= x <= l),
                    l >= 0,
            ;
        }
        if !(-l <= y <= l) {
            assert(y * y > l * l) by (nonlinear_arith)
                requires
                    !(-l <= y <= l),
                    l >= 0,
            ;
        }
        if -l <= x <= l {
            assert(x * x <= l * l) by (nonlinear_arith)
                requires
                    -l <= x <= l,
            ;
        }
        if -l <= y <= l {
            assert(y * y <= l * l) by (nonlinear_arith)
                requires
                    -l <= y <= l,
            ;
        }
        assert(l * l <= 0x3fff_ffff_ffff_ffff) by (nonlinear_arith)
            requires
                0 <= l <= 0x7fff_ffff,
        ;
    }
    if dx < -limit || dx > limit || dy < -limit || dy > limit {
        return None;
    }
    let d: i128 = dx * dx + dy * dy;
    if d <= limit * limit {
        Some(d as u64)
    } else {
        None
    }
}

/// A marker that may be hit: whether it takes part, and where it stands.
#[derive(Clone, Copy, Debug, PartialEq, Eq, Structural)]
pub struct Marker {
    pub eligible: bool,
    pub pos: ScreenPos,
}

/// Whether a marker takes part and lies within the radius of a click.
pub open spec fn is_hit(m: Marker, click: ScreenPos, radius: u32) -> bool {
    m.eligible && dist_sq(m.pos, click) <= radius * radius
}

/// Whether `r` is, among the first `n` markers, the hit nearest to a click, the
/// first of those that are equally near; nothing where none of them is hit.
pub open spec fn is_nearest_of(
    markers: Seq<Marker>,
    n: int,
    click: ScreenPos,
    radius: u32,
    r: Option<usize>,
) -> bool {
    match r {
        None => forall|j: int| 0 <= j < n ==> !is_hit(#[trigger] markers[j], click, radius),
        Some(k) => {
            &&& k < n
            &&& is_hit(markers[k as int], click, radius)
            &&& forall|j: int|
                0 <= j < n && is_hit(#[trigger] markers[j], click, radius) ==> {
                    &&& dist_sq(markers[k as int].pos, click) <= dist_sq(markers[j].pos, click)
                    &&& j < k ==> dist_sq(markers[k as int].pos, click) < dist_sq(
                        markers[j].pos,
                        click,
                    )
                }
        },
    }
}

/// Whether `r` is the hit nearest to a click.
pub open spec fn is_nearest_hit(
    markers: Seq<Marker>,
    click: ScreenPos,
    radius: u32,
    r: Option<usize>,
) -> bool {
    is_nearest_of(markers, markers.len() as int, click, radius, r)
}

/// The marker nearest to a click.
pub fn nearest_hit(markers: &Vec<Marker>, click: ScreenPos, radius: u32) -> (r: Option<usize>)
    requires
        radius <= 0x7fff_ffff,
    ensures
        is_nearest_hit(markers@, click, radius, r),
{
    let mut best: Option<(usize, u64)> = None;
    let mut i: usize = 0;
    while i < markers.len()
        invariant
            i <= markers@.len(),
            radius <= 0x7fff_ffff,
            best is None ==> is_nearest_of(markers@, i as int, click, radius, None),
            best matches Some((k, d)) ==> is_nearest_of(markers@, i as int, click, radius, Some(k))
                && d == dist_sq(markers@[k as int].pos, click),
        decreases markers@.len() - i,
    {
        let m = markers[i];
        let near = if m.eligible {
            dist_sq_within(m.pos, click, radius)
        } else {
            None
        };
        assert(near is Some <==> is_hit(markers@[i as int], click, radius));
        if let Some(d) = near {
            let closer = match best {
                None => true,
                Some((_, b)) => d < b,
            };
            if closer {
                best = Some((i, d));
            }
        }
        i += 1;
    }
    match best {
        None => None,
        Some((k, _)) => Some(k),
    }
}

/// Bounds hold a point within them, and one as far outside as the padding.
pub proof fn padding_widens_the_bounds(b: GeoBounds, p: GeoPoint, padding: int)
    requires
        padding >= 0,
    ensures
        b.min_lat <= p.lat <= b.max_lat && b.min_lon <= p.lon <= b.max_lon ==> b.holds(p, padding),
        b.holds(p, padding) ==> b.min_lat - p.lat <= padding && p.lat - b.max_lat <= padding
            && b.min_lon - p.lon <= padding && p.lon - b.max_lon <= padding,
        b.min_lat - p.lat <= padding && p.lat - b.max_lat <= padding && b.min_lon - p.lon <= padding
            && p.lon - b.max_lon <= padding ==> b.holds(p, padding),
{
}

/// Two points are as far from each other whichever comes first, no point is away
/// from itself, and along an axis the distance is the difference.
pub proof fn distance_is_mutual(a: ScreenPos, b: ScreenPos)
    ensures
        dist_sq(a, b) == dist_sq(b, a),
        dist_sq(a, a) == 0,
        dist_sq(a, b) >= 0,
        a.y == b.y ==> dist_sq(a, b) == (a.x - b.x) * (a.x - b.x),
        a.x == b.x ==> dist_sq(a, b) == (a.y - b.y) * (a.y - b.y),
{
    let dx = a.x - b.x;
    let dy = a.y - b.y;
    let ex = b.x - a.x;
    let ey = b.y - a.y;
    assert(dx * dx == ex * ex) by (nonlinear_arith)
        requires
            ex == -dx,
    ;
    assert(dy * dy == ey * ey) by (nonlinear_arith)
        requires
            ey == -dy,
    ;
    assert(dx * dx >= 0) by (nonlinear_arith);
    assert(dy * dy >= 0) by (nonlinear_arith);
    assert(dx == 0 ==> dx * dx == 0);
    assert(dy == 0 ==> dy * dy == 0);
}

/// A click takes the nearest eligible marker within reach; any that is as near or
/// nearer and listed earlier would have been taken.
pub proof fn a_click_takes_the_nearest_marker(
    markers: Seq<Marker>,
    click: ScreenPos,
    radius: u32,
    r: Option<usize>,
    j: int,
)
    requires
        is_nearest_hit(markers, click, radius, r),
        0 <= j < markers.len(),
        markers[j].eligible,
        dist_sq(markers[j].pos, click) <= radius * radius,
    ensures
        r is Some,
        r->0 < markers.len(),
        markers[r->0 as int].eligible,
        dist_sq(markers[r->0 as int].pos, click) <= radius * radius,
        dist_sq(markers[r->0 as int].pos, click) <= dist_sq(markers[j].pos, click),
        j < r->0 ==> dist_sq(markers[r->0 as int].pos, click) < dist_sq(markers[j].pos, click),
{
    assert(is_hit(markers[j], click, radius));
}

/// A click with nothing eligible within reach takes nothing.
pub proof fn a_click_beside_everything_takes_nothing(
    markers: Seq<Marker>,
    click: ScreenPos,
    radius: u32,
    r: Option<usize>,
)
    requires
        is_nearest_hit(markers, click, radius, r),
        forall|j: int|
            0 <= j < markers.len() ==> !(#[trigger] markers[j]).eligible || dist_sq(
                markers[j].pos,
                click,
            ) > radius * radius,
    ensures
        r is None,
{
}

} // verus!
