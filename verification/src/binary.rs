//! Numbers with a limited count of binary digits, in which figures are held
//! before they are shown.
//!
//! Most decimal fractions have no finite binary form. What is shown of such a
//! figure is the decimal form of the nearest number that has one: 0.35 is held as
//! a little less, and shown as 0.3. Here a number is an integer count of some
//! negative power of two, which the functions name.

use crate::text::push_tenths;
use vstd::prelude::*;

verus! {

/// Numbers in double precision have 53 binary digits: the first power of two with
/// that many.
pub const DOUBLE: u64 = 0x10_0000_0000_0000;

/// Numbers in single precision have 24.
pub const SINGLE: u64 = 0x80_0000;

/// How many parts one is cut into in double precision: 2 to the 62nd.
pub const PARTS: u128 = 0x4000_0000_0000_0000;

/// How many parts one is cut into in single precision: 2 to the 34th.
pub const SINGLE_PARTS: u128 = 0x4_0000_0000;

/// How many parts one is cut into in double precision where it is given in
/// millionths: 2 to the 72nd.
pub const FINE_PARTS: u128 = 0x100_0000_0000_0000_0000;

/// `n / d` as an integer with as many binary digits as twice `unit` leaves room
/// for, and zeros behind them: the nearest one, to the even one where it lies
/// halfway.
pub open spec fn held(n: int, d: int, unit: int) -> int
    decreases
            if 0 < d && 0 < unit && 2 * d * unit <= n {
                n - 2 * d * unit + 1
            } else {
                0
            },
{
    if d <= 0 || unit <= 0 || n < 2 * d * unit {
        crate::text::rounded(n, d)
    } else {
        proof {
            assert(2 * (2 * d) * unit == 2 * (2 * d * unit)) by (nonlinear_arith);
            assert(2 * d * unit > 0) by (nonlinear_arith)
                requires
                    d > 0,
                    unit > 0,
            ;
        }
        2 * held(n, 2 * d, unit)
    }
}

/// What is held differs from the number by at most a count of the divisor, or in
/// the last of the digits.
pub proof fn held_is_close(n: int, d: int, unit: int)
    requires
        n >= 0,
        d > 0,
        unit > 0,
    ensures
        held(n, d, unit) >= 0,
        -d <= d * held(n, d, unit) - n <= d || -n <= unit * (d * held(n, d, unit) - n) <= n,
    decreases
            if 2 * d * unit <= n {
                n - 2 * d * unit + 1
            } else {
                0
            },
{
    if n < 2 * d * unit {
        let q = n / d;
        let r = n % d;
        vstd::arithmetic::div_mod::lemma_fundamental_div_mod(n, d);
        vstd::arithmetic::div_mod::lemma_div_pos_is_pos(n, d);
        assert(d * (q + 1) == d * q + d) by (nonlinear_arith);
    } else {
        assert(2 * (2 * d) * unit == 2 * (2 * d * unit)) by (nonlinear_arith);
        assert(2 * d * unit > 0) by (nonlinear_arith)
            requires
                d > 0,
                unit > 0,
        ;
        held_is_close(n, 2 * d, unit);
        let h = held(n, 2 * d, unit);
        assert(d * (2 * h) == (2 * d) * h) by (nonlinear_arith);
        let off = d * (2 * h) - n;
        if -(2 * d) <= off <= 2 * d {
            assert(-n <= unit * off <= n) by (nonlinear_arith)
                requires
                    -(2 * d) <= off <= 2 * d,
                    2 * d * unit <= n,
                    unit > 0,
            ;
        }
    }
}

proof fn lemma_held_bound(n: int, d: int, unit: int)
    requires
        n >= 0,
        d > 0,
        unit >= 2,
    ensures
        0 <= held(n, d, unit),
        d * held(n, d, unit) <= n + n / 2 + d,
        held(n, d, unit) <= n + n / 2 + 1,
{
    held_is_close(n, d, unit);
    let h = held(n, d, unit);
    let off = d * h - n;
    if -n <= unit * off <= n {
        assert(2 * off <= n) by (nonlinear_arith)
            requires
                unit * off <= n,
                unit >= 2,
                n >= 0,
        ;
    }
    assert(h <= n + n / 2 + 1) by (nonlinear_arith)
        requires
            d * h <= n + n / 2 + d,
            d >= 1,
            h >= 0,
            n >= 0,
    ;
}

/// `n / d`, as it is held.
pub fn hold(n: u128, d: u128, unit: u64) -> (r: u128)
    requires
        n <= 0x4000_0000_0000_0000_0000_0000_0000_0000,
        0 < d,
        2 <= unit,
        2 * d * unit <= 0x4000_0000_0000_0000_0000_0000_0000_0000,
    ensures
        r == held(n as int, d as int, unit as int),
        d * r <= n + n / 2 + d,
        r <= n + n / 2 + 1,
{
    proof {
        assert(d * unit <= 0x4000_0000_0000_0000_0000_0000_0000_0000 && 2 * d * unit == 2 * (d
            * unit)) by (nonlinear_arith)
            requires
                2 * d * unit <= 0x4000_0000_0000_0000_0000_0000_0000_0000,
        ;
        assert(d * unit >= d && d * unit > 0) by (nonlinear_arith)
            requires
                unit >= 2,
                d > 0,
        ;
        lemma_held_bound(n as int, d as int, unit as int);
    }
    let mut over: u128 = 2 * (d * unit as u128);
    let mut by: u128 = d;
    let mut factor: u128 = 1;
    while over <= n
        invariant
            n <= 0x4000_0000_0000_0000_0000_0000_0000_0000,
            0 < d,
            2 <= unit,
            0 < by <= over,
            over == 2 * by * unit,
            over <= 0x8000_0000_0000_0000_0000_0000_0000_0000,
            by == d * factor,
            0 < factor <= by,
            held(n as int, d as int, unit as int) == factor * held(
                n as int,
                by as int,
                unit as int,
            ),
            0 <= held(n as int, d as int, unit as int) <= n + n / 2 + 1,
        decreases 0x8000_0000_0000_0000_0000_0000_0000_0000 - over,
    {
        proof {
            let h = held(n as int, 2 * by, unit as int);
            assert(factor * (2 * h) == (2 * factor) * h) by (nonlinear_arith);
            assert(2 * (2 * by) * unit == 2 * (2 * by * unit)) by (nonlinear_arith);
            assert(2 * (d * factor) == d * (2 * factor)) by (nonlinear_arith);
        }
        over = 2 * over;
        by = 2 * by;
        factor = 2 * factor;
    }
    let r: u128 = round_wide(n, by);
    proof {
        assert(held(n as int, by as int, unit as int) == r);
    }
    factor * r
}

/// `n / d` to the nearest integer, to the even one where it lies halfway.
pub fn round_wide(n: u128, d: u128) -> (r: u128)
    requires
        0 < d <= 0x8000_0000_0000_0000_0000_0000_0000_0000,
        n <= 0xc000_0000_0000_0000_0000_0000_0000_0000,
    ensures
        r == crate::text::rounded(n as int, d as int),
        r <= n / d + 1,
{
    let q: u128 = n / d;
    let rest: u128 = n % d;
    proof {
        vstd::arithmetic::div_mod::lemma_div_is_ordered_by_denominator(n as int, 1, d as int);
    }
    if rest < d - rest || (rest == d - rest && q % 2 == 0) {
        q
    } else {
        q + 1
    }
}

// ---- double precision ---------------------------------------------------------

/// A number given in thousandths, as it is held in double precision.
pub open spec fn double(n: int) -> int {
    held(n * PARTS, 1000, DOUBLE as int)
}

/// A number in double precision, divided by a whole one.
pub open spec fn divided(x: int, k: int) -> int {
    held(x, k, DOUBLE as int)
}

/// A number in double precision with one digit behind the point.
pub open spec fn double_text(x: int) -> Seq<char> {
    crate::text::tenths(crate::text::rounded(10 * x, PARTS as int) as nat)
}

/// A number given in thousandths, as it is held in double precision.
pub fn double_of(n: u64) -> (x: u128)
    ensures
        x == double(n as int),
        x <= 0x40_0000_0000_0000_0000_0000_0000_0000,
{
    hold(n as u128 * PARTS, 1000, DOUBLE)
}

/// A number in double precision, divided by a whole one.
pub fn divide(x: u128, k: u32) -> (r: u128)
    requires
        x <= 0x40_0000_0000_0000_0000_0000_0000_0000,
        2 <= k,
    ensures
        r == divided(x as int, k as int),
        r <= 0x40_0000_0000_0000_0000_0000_0000_0000,
{
    let r: u128 = hold(x, k as u128, DOUBLE);
    assert(r <= 0x40_0000_0000_0000_0000_0000_0000_0000) by (nonlinear_arith)
        requires
            k * r <= x + x / 2 + k,
            k >= 2,
            x <= 0x40_0000_0000_0000_0000_0000_0000_0000,
    ;
    r
}

/// Appends a number in double precision with one digit behind the point.
pub fn push_double(out: &mut String, x: u128)
    requires
        x <= 0x40_0000_0000_0000_0000_0000_0000_0000,
    ensures
        final(out)@ == old(out)@ + double_text(x as int),
{
    let n: u128 = round_wide(10 * x, PARTS);
    push_tenths(out, n as u64);
}

/// The ten-thousandths that are shown of millionths of a degree, held in double
/// precision.
pub open spec fn shown_degrees(n: int) -> int {
    if n < 0x4_0000_0000_0000 {
        crate::text::rounded(
            10_000 * held(n * FINE_PARTS, 1_000_000, DOUBLE as int),
            FINE_PARTS as int,
        )
    } else {
        crate::text::rounded(10_000 * held(n * PARTS, 1_000_000, DOUBLE as int), PARTS as int)
    }
}

/// The ten-thousandths that are shown of millionths of a degree.
pub fn show_degrees(n: u64) -> (r: u64)
    ensures
        r == shown_degrees(n as int),
{
    let shown: u128 = if n < 0x4_0000_0000_0000 {
        let x: u128 = hold(n as u128 * FINE_PARTS, 1_000_000, DOUBLE);
        round_wide(10_000 * x, FINE_PARTS)
    } else {
        let x: u128 = hold(n as u128 * PARTS, 1_000_000, DOUBLE);
        round_wide(10_000 * x, PARTS)
    };
    shown as u64
}

// ---- single precision ---------------------------------------------------------

/// A number given in thousandths, as it is held in single precision.
pub open spec fn single(n: int) -> int {
    held(n * SINGLE_PARTS, 1000, SINGLE as int)
}

/// A number given in thousandths, as it is held in single precision.
pub fn single_of(n: u64) -> (x: u128)
    ensures
        x == single(n as int),
        1000 * x <= 0x6_0000_0000 * n + 1000,
{
    hold(n as u128 * SINGLE_PARTS, 1000, SINGLE)
}

/// The tenths that are shown of a number given in thousandths and held in single
/// precision.
pub open spec fn shown_tenths(n: int) -> int {
    crate::text::rounded(10 * single(n), SINGLE_PARTS as int)
}

/// The tenths that are shown of a number given in thousandths.
pub fn show_tenths(n: u64) -> (r: u64)
    ensures
        r == shown_tenths(n as int),
{
    let x: u128 = single_of(n);
    round_wide(10 * x, SINGLE_PARTS) as u64
}

/// The thousandths that are shown of a number given in thousandths and held in
/// single precision.
pub open spec fn shown_thousandths(n: int) -> int {
    crate::text::rounded(1000 * single(n), SINGLE_PARTS as int)
}

/// The thousandths that are shown of a number given in thousandths.
pub fn show_thousandths(n: u64) -> (r: u128)
    ensures
        r == shown_thousandths(n as int),
        r <= 0x2_0000_0000_0000_0000,
{
    let x: u128 = single_of(n);
    round_wide(1000 * x, SINGLE_PARTS)
}

/// A signed number given in thousandths, as it is held in single precision.
pub open spec fn signed_single(n: int) -> int {
    if n < 0 {
        -single(-n)
    } else {
        single(n)
    }
}

/// A signed number given in thousandths, as it is held in single precision.
pub fn signed_single_of(n: i64) -> (x: i128)
    ensures
        x == signed_single(n as int),
        -(0x6_0000_0000 * 0x8000_0000_0000_0000 / 1000 + 1) <= x <= 0x6_0000_0000
            * 0x8000_0000_0000_0000 / 1000 + 1,
        -10_000_000 <= n <= 10_000_000 ==> -0x1_0000_0000_0000 <= x <= 0x1_0000_0000_0000,
        n < 0 ==> x <= 0,
        n >= 0 ==> x >= 0,
{
    if n < 0 {
        -(single_of((-(n + 1)) as u64 + 1) as i128)
    } else {
        single_of(n as u64) as i128
    }
}

/// A sum or a difference, as it is held in single precision.
pub open spec fn settled(x: int) -> int {
    if x < 0 {
        -held(-x, 1, SINGLE as int)
    } else {
        held(x, 1, SINGLE as int)
    }
}

/// A sum or a difference, as it is held in single precision.
pub fn settle(x: i128) -> (r: i128)
    requires
        -0x1000_0000_0000_0000_0000_0000_0000 <= x <= 0x1000_0000_0000_0000_0000_0000_0000,
    ensures
        r == settled(x as int),
        -0x8_0000_0000_0000 <= x <= 0x8_0000_0000_0000 ==> -0x1000_0000 <= r - x <= 0x1000_0000,
{
    let size: u128 = if x < 0 {
        (-x) as u128
    } else {
        x as u128
    };
    let r: u128 = hold(size, 1, SINGLE);
    proof {
        held_is_close(size as int, 1, SINGLE as int);
    }
    if x < 0 {
        -(r as i128)
    } else {
        r as i128
    }
}

/// Whole numbers are held as they are as long as their digits suffice, and always
/// to a quarter.
pub proof fn whole_numbers_are_kept(n: int, unit: int)
    requires
        n >= 0,
        unit >= 4,
    ensures
        n < 2 * unit ==> held(n, 1, unit) == n,
        3 * n <= 4 * held(n, 1, unit) <= 5 * n,
{
    held_is_close(n, 1, unit);
    let off = held(n, 1, unit) - n;
    if n >= 2 * unit && -n <= unit * off <= n {
        assert(-n <= 4 * off <= n) by (nonlinear_arith)
            requires
                -n <= unit * off <= n,
                unit >= 4,
                n >= 0,
        ;
    }
}

proof fn lemma_shown(n: int, parts: int, d: int, unit: int, scale: int, h: int, t: int)
    requires
        n >= 0,
        parts >= 4 * d,
        d > 0,
        unit > 0,
        scale > 0,
        d % scale == 0,
        h == held(n * parts, d, unit),
        t == crate::text::rounded(scale * h, parts),
        2 * n < unit,
    ensures
        -(d / scale) <= 2 * ((d / scale) * t - n) <= d / scale,
{
    let k = d / scale;
    assert(n * parts >= 0) by (nonlinear_arith)
        requires
            n >= 0,
            parts >= 0,
    ;
    held_is_close(n * parts, d, unit);
    crate::text::rounding_is_to_the_nearest(scale * h, parts);
    assert(d == k * scale) by {
        vstd::arithmetic::div_mod::lemma_fundamental_div_mod(d, scale);
        assert(k * scale == scale * k) by (nonlinear_arith);
    }
    let off = d * h - n * parts;
    assert(-parts < 2 * off < parts) by {
        if -(n * parts) <= unit * off <= n * parts {
            assert(-parts < 2 * off < parts) by (nonlinear_arith)
                requires
                    -(n * parts) <= unit * off <= n * parts,
                    2 * n < unit,
                    parts > 0,
                    unit > 0,
            ;
        }
    }
    let miss = parts * t - scale * h;
    assert(2 * (k * t - n) * parts == 2 * k * miss + 2 * off) by (nonlinear_arith)
        requires
            miss == parts * t - scale * h,
            off == d * h - n * parts,
            d == k * scale,
    ;
    assert(k >= 1) by (nonlinear_arith)
        requires
            d == k * scale,
            d > 0,
            scale > 0,
    ;
    assert(-(k * parts) <= 2 * k * miss <= k * parts) by (nonlinear_arith)
        requires
            -parts <= 2 * miss <= parts,
            k >= 1,
    ;
    let e = 2 * (k * t - n);
    assert(-k <= e <= k) by (nonlinear_arith)
        requires
            -(k * parts) - parts < e * parts < k * parts + parts,
            parts > 0,
    ;
}

/// The tenth that is shown of a number given in thousandths is a nearest one.
pub proof fn the_nearest_tenth_is_shown(n: int)
    requires
        0 <= n < 0x8_0000_0000_0000,
    ensures
        exists|t: nat|
            double_text(double(n)) == #[trigger] crate::text::tenths(t) && n - 50 <= 100 * t <= n
                + 50,
{
    let t = crate::text::rounded(10 * double(n), PARTS as int);
    lemma_shown(n, PARTS as int, 1000, DOUBLE as int, 10, double(n), t);
    assert(double_text(double(n)) == crate::text::tenths(t as nat));
}

/// The tenth that is shown of a number given in thousandths and held in single
/// precision is a nearest one.
pub proof fn the_nearest_tenth_is_shown_in_single_precision(n: int)
    requires
        0 <= n < 0x40_0000,
    ensures
        n - 50 <= 100 * shown_tenths(n) <= n + 50,
        shown_tenths(n) >= 0,
        shown_thousandths(n) == n,
{
    lemma_shown(n, SINGLE_PARTS as int, 1000, SINGLE as int, 10, single(n), shown_tenths(n));
    lemma_shown(n, SINGLE_PARTS as int, 1000, SINGLE as int, 1000, single(n), shown_thousandths(n));
}

/// The ten-thousandth of a degree that is shown of millionths is a nearest one.
pub proof fn the_nearest_ten_thousandth_is_shown(n: int)
    requires
        0 <= n < 0x4_0000_0000_0000,
    ensures
        n - 50 <= 100 * shown_degrees(n) <= n + 50,
        shown_degrees(n) >= 0,
{
    lemma_shown(
        n,
        FINE_PARTS as int,
        1_000_000,
        DOUBLE as int,
        10_000,
        held(n * FINE_PARTS, 1_000_000, DOUBLE as int),
        shown_degrees(n),
    );
}

/// The tenth that is shown of a number given in thousandths and divided by a whole
/// one is a nearest one.
pub proof fn the_nearest_tenth_of_a_share_is_shown(n: int, k: int)
    requires
        0 <= n < 0x2_0000_0000_0000,
        1 <= k <= 10_000,
    ensures
        exists|t: nat|
            double_text(divided(double(n), k)) == #[trigger] crate::text::tenths(t) && n - 50 * k
                <= 100 * k * t <= n + 50 * k,
{
    let p = PARTS as int;
    let u = DOUBLE as int;
    let h = double(n);
    let g = divided(h, k);
    let t = crate::text::rounded(10 * g, p);
    held_is_close(n * p, 1000, u);
    let a = 1000 * h - n * p;
    assert(-p < 8 * a < p) by {
        if -(n * p) <= u * a <= n * p {
            assert(-p < 8 * a < p) by (nonlinear_arith)
                requires
                    -(n * p) <= u * a <= n * p,
                    8 * n < u,
                    p > 0,
                    u > 0,
            ;
        }
    }
    held_is_close(h, k, u);
    let b = k * g - h;
    assert(-p < 4 * (1000 * b) < p) by {
        if -h <= u * b <= h {
            assert(1000 * h <= (n + 1) * p) by (nonlinear_arith)
                requires
                    1000 * h - n * p == a,
                    8 * a < p,
                    p > 0,
            ;
            assert(-p < 4 * (1000 * b) < p) by (nonlinear_arith)
                requires
                    -h <= u * b <= h,
                    1000 * h <= (n + 1) * p,
                    8 * n + 8 <= u,
                    p > 0,
                    u > 0,
            ;
        }
    }
    crate::text::rounding_is_to_the_nearest(10 * g, p);
    let c = p * t - 10 * g;
    assert((100 * k * t - n) * p == 100 * k * c + 1000 * b + a) by (nonlinear_arith)
        requires
            c == p * t - 10 * g,
            b == k * g - h,
            a == 1000 * h - n * p,
    ;
    assert(-(50 * k * p) <= 100 * k * c <= 50 * k * p) by (nonlinear_arith)
        requires
            -p <= 2 * c <= p,
            k >= 1,
    ;
    let e = 100 * k * t - n;
    assert(-(50 * k) <= e <= 50 * k) by (nonlinear_arith)
        requires
            -(50 * k * p) - p < e * p < 50 * k * p + p,
            p > 0,
    ;
    assert(t >= 0) by (nonlinear_arith)
        requires
            p * t >= 10 * g - p,
            -p <= 2 * (p * t - 10 * g),
            g >= 0,
            p > 0,
    ;
    assert(double_text(g) == crate::text::tenths(t as nat));
}

/// A number whose digits fit is held as it is, however many zeros follow them.
pub proof fn numbers_with_few_digits_are_kept(w: int, d: int, unit: int, zeros: nat)
    requires
        0 <= w < 2 * unit,
        d > 0,
        unit > 0,
    ensures
        held(w * d * vstd::arithmetic::power2::pow2(zeros), d, unit) == w
            * vstd::arithmetic::power2::pow2(zeros),
    decreases zeros,
{
    let p = vstd::arithmetic::power2::pow2(zeros) as int;
    let n = w * d * p;
    vstd::arithmetic::power2::lemma_pow2_pos(zeros);
    assert(n >= 0) by (nonlinear_arith)
        requires
            n == w * d * p,
            w >= 0,
            d > 0,
            p > 0,
    ;
    assert(n == (w * p) * d) by (nonlinear_arith)
        requires
            n == w * d * p,
    ;
    if n < 2 * d * unit {
        vstd::arithmetic::div_mod::lemma_div_multiples_vanish(w * p, d);
        vstd::arithmetic::div_mod::lemma_mod_multiples_basic(w * p, d);
        assert(d * (w * p) == (w * p) * d) by (nonlinear_arith);
        assert(n / d == w * p);
        assert(n % d == 0);
    } else {
        if zeros == 0 {
            vstd::arithmetic::power2::lemma2_to64();
            assert(w * d < 2 * d * unit) by (nonlinear_arith)
                requires
                    w < 2 * unit,
                    d > 0,
            ;
            assert(p == 1);
            assert(n == w * d) by (nonlinear_arith)
                requires
                    n == w * d * p,
                    p == 1,
            ;
            assert(false);
        }
        let less = (zeros - 1) as nat;
        let q = vstd::arithmetic::power2::pow2(less) as int;
        vstd::arithmetic::power2::lemma_pow2_unfold(zeros);
        numbers_with_few_digits_are_kept(w, 2 * d, unit, less);
        assert(n == w * (2 * d) * q) by (nonlinear_arith)
            requires
                n == w * d * p,
                p == 2 * q,
        ;
        assert(2 * (w * q) == w * p) by (nonlinear_arith)
            requires
                p == 2 * q,
        ;
    }
}

/// A whole number of units is held as it is in single precision, given in
/// thousandths or as a sum.
pub proof fn whole_units_are_kept_in_single_precision(w: int)
    requires
        -0x100_0000 < w < 0x100_0000,
    ensures
        signed_single(1000 * w) == w * SINGLE_PARTS,
        settled(w * SINGLE_PARTS) == w * SINGLE_PARTS,
{
    let size = if w < 0 {
        -w
    } else {
        w
    };
    vstd::arithmetic::power2::lemma2_to64_rest();
    assert(vstd::arithmetic::power2::pow2(34) == SINGLE_PARTS);
    numbers_with_few_digits_are_kept(size, 1000, SINGLE as int, 34);
    numbers_with_few_digits_are_kept(size, 1, SINGLE as int, 34);
    assert(1000 * size * SINGLE_PARTS == size * 1000 * SINGLE_PARTS);
    assert(size * 1 * SINGLE_PARTS == size * SINGLE_PARTS);
}

/// Numbers have 53 binary digits in double precision and 24 in single, and are cut
/// into powers of two.
pub proof fn precisions_are_those_of_the_formats()
    ensures
        DOUBLE == vstd::arithmetic::power2::pow2(52),
        SINGLE == vstd::arithmetic::power2::pow2(23),
        PARTS == vstd::arithmetic::power2::pow2(62),
        SINGLE_PARTS == vstd::arithmetic::power2::pow2(34),
        FINE_PARTS == vstd::arithmetic::power2::pow2(62) * vstd::arithmetic::power2::pow2(10),
{
    vstd::arithmetic::power2::lemma2_to64();
    vstd::arithmetic::power2::lemma2_to64_rest();
}

} // verus!
