//! The map's scale bar: a round length for each unit, and its label.
//!
//! Lengths are in millionths of a kilometre or of a mile.

use crate::binary::{hold, round_wide, FINE_PARTS, DOUBLE};
use crate::text::{push_decimal, push_tenths, round_div};
use vstd::prelude::*;
use vstd::string::*;

verus! {

/// A power of ten.
pub open spec fn pow10(n: nat) -> int
    decreases n,
{
    if n == 0 {
        1
    } else {
        10 * pow10((n - 1) as nat)
    }
}

/// Whether a length is one, two or five times a power of ten.
pub open spec fn is_nice(v: int) -> bool {
    exists|n: nat| v == #[trigger] pow10(n) || v == 2 * pow10(n) || v == 5 * pow10(n)
}

/// Whether `r` is the longest nice length that does not exceed a target, or
/// zero for a target that is not positive.
pub open spec fn is_nice_round(target: int, r: int) -> bool {
    if target <= 0 {
        r == 0
    } else {
        &&& is_nice(r)
        &&& r <= target
        &&& forall|v: int| #[trigger] is_nice(v) && v <= target ==> v <= r
    }
}

proof fn lemma_pow10_positive(n: nat)
    ensures
        pow10(n) >= 1,
    decreases n,
{
    if n > 0 {
        lemma_pow10_positive((n - 1) as nat);
    }
}

proof fn lemma_pow10_step(a: nat, b: nat)
    requires
        a < b,
    ensures
        10 * pow10(a) <= pow10(b),
    decreases b,
{
    lemma_pow10_positive(a);
    if a + 1 < b {
        lemma_pow10_step(a, (b - 1) as nat);
    }
}

proof fn lemma_nice_round(target: int, n: nat, r: int)
    requires
        pow10(n) <= target < 10 * pow10(n),
        r == (if target >= 5 * pow10(n) {
            5 * pow10(n)
        } else if target >= 2 * pow10(n) {
            2 * pow10(n)
        } else {
            pow10(n)
        }),
    ensures
        is_nice_round(target, r),
{
    lemma_pow10_positive(n);
    assert(is_nice(r));
    assert forall|v: int| #[trigger] is_nice(v) && v <= target implies v <= r by {
        let k = choose|k: nat| v == #[trigger] pow10(k) || v == 2 * pow10(k) || v == 5 * pow10(k);
        lemma_pow10_positive(k);
        if k > n {
            lemma_pow10_step(n, k);
        } else if k < n {
            lemma_pow10_step(k, n);
        }
    }
}

/// The longest length of the form one, two or five times a power of ten that
/// does not exceed a target.
pub fn nice_round(target: i64) -> (r: i64)
    ensures
        is_nice_round(target as int, r as int),
{
    if target <= 0 {
        return 0;
    }
    let mut mag: i64 = 1;
    let ghost mut n: nat = 0;
    while mag <= target / 10
        invariant
            1 <= mag <= target,
            mag == pow10(n),
        decreases target - mag,
    {
        mag = mag * 10;
        proof {
            n = n + 1;
        }
    }
    assert(target < 10 * mag);
    proof {
        let (t, m) = (target as int, mag as int);
        assert((t / m >= 5) == (t >= 5 * m) && (t / m >= 2) == (t >= 2 * m)) by (nonlinear_arith)
            requires
                m >= 1,
                t >= 1,
        ;
    }
    let r: i64 = if target / mag >= 5 {
        5 * mag
    } else if target / mag >= 2 {
        2 * mag
    } else {
        mag
    };
    proof {
        lemma_nice_round(target as int, n, r as int);
    }
    r
}

/// A nice length is its own round length, and the round length of a positive
/// target is positive.
pub proof fn nice_lengths_stay(target: int, r: int)
    requires
        is_nice_round(target, r),
        target > 0,
    ensures
        r > 0,
        is_nice(target) ==> r == target,
        is_nice_round(r, r),
{
    let n = choose|n: nat| r == #[trigger] pow10(n) || r == 2 * pow10(n) || r == 5 * pow10(n);
    lemma_pow10_positive(n);
}

/// A length, in whole units from one on, in tenths from a tenth on, else in the
/// smaller unit.
pub open spec fn length_text(
    v: int,
    unit: Seq<char>,
    small_per_unit: int,
    small: Seq<char>,
) -> Seq<char> {
    if v >= 1_000_000 {
        crate::text::decimal(crate::text::rounded(v, 1_000_000) as nat) + unit
    } else if v >= 100_000 {
        crate::text::tenths(
            crate::text::rounded(10 * millionths(v), crate::binary::FINE_PARTS as int) as nat,
        ) + unit
    } else {
        crate::text::decimal(
            crate::text::rounded(
                crate::binary::divided(small_per_unit * millionths(v), 1),
                crate::binary::FINE_PARTS as int,
            ) as nat,
        ) + small
    }
}

/// A number given in millionths, as it is held in double precision.
pub open spec fn millionths(v: int) -> int {
    crate::binary::held(
        v * crate::binary::FINE_PARTS,
        1_000_000,
        crate::binary::DOUBLE as int,
    )
}

fn tenths_of_millionths(v: u64) -> (r: u64)
    requires
        v < 1_000_000,
    ensures
        r == crate::text::rounded(10 * millionths(v as int), crate::binary::FINE_PARTS as int),
{
    let x: u128 = hold(v as u128 * FINE_PARTS, 1_000_000, DOUBLE);
    round_wide(10 * x, FINE_PARTS) as u64
}

fn small_units(v: u64, small_per_unit: u32) -> (r: u64)
    requires
        v < 1_000_000,
        small_per_unit <= 10_000,
    ensures
        r == crate::text::rounded(
            crate::binary::divided(small_per_unit * millionths(v as int), 1),
            crate::binary::FINE_PARTS as int,
        ),
{
    let x: u128 = hold(v as u128 * FINE_PARTS, 1_000_000, DOUBLE);
    assert(small_per_unit * x <= 10_000 * x) by (nonlinear_arith)
        requires
            small_per_unit <= 10_000,
            x >= 0,
    ;
    let y: u128 = hold(small_per_unit as u128 * x, 1, DOUBLE);
    round_wide(y, FINE_PARTS) as u64
}

/// A length in kilometres, or in metres where it is short.
pub fn format_km(v: u64) -> (s: String)
    ensures
        s@ == length_text(v as int, " km"@, 1000, " m"@),
{
    let mut s = String::new();
    if v >= 1_000_000 {
        push_decimal(&mut s, round_div(v, 1_000_000));
        s.append(" km");
    } else if v >= 100_000 {
        push_tenths(&mut s, tenths_of_millionths(v));
        s.append(" km");
    } else {
        push_decimal(&mut s, small_units(v, 1000));
        s.append(" m");
    }
    assert(s@ =~= length_text(v as int, " km"@, 1000, " m"@));
    s
}

/// A length in miles, or in feet where it is short.
pub fn format_mi(v: u64) -> (s: String)
    ensures
        s@ == length_text(v as int, " mi"@, 5280, " ft"@),
{
    let mut s = String::new();
    if v >= 1_000_000 {
        push_decimal(&mut s, round_div(v, 1_000_000));
        s.append(" mi");
    } else if v >= 100_000 {
        push_tenths(&mut s, tenths_of_millionths(v));
        s.append(" mi");
    } else {
        push_decimal(&mut s, small_units(v, 5280));
        s.append(" ft");
    }
    assert(s@ =~= length_text(v as int, " mi"@, 5280, " ft"@));
    s
}

/// Width that a bar takes at most, in pixels.
pub const TARGET_BAR_WIDTH: u64 = 120;

/// The two bars: their lengths, and their widths in thousandths of a pixel.
#[derive(Clone, Copy, Debug, PartialEq, Eq)]
pub struct ScaleBars {
    pub km: i64,
    pub km_width: u64,
    pub mi: i64,
    pub mi_width: u64,
}

impl ScaleBars {
    /// Whether these are the bars of a scale, given in millionths of a kilometre
    /// per pixel: the longest nice lengths that fit the target width.
    pub open spec fn are_of(&self, scale: int) -> bool {
        &&& is_nice_round(TARGET_BAR_WIDTH * scale, self.km as int)
        &&& is_nice_round(TARGET_BAR_WIDTH * scale * 621_371 / 1_000_000, self.mi as int)
        &&& self.km_width == self.km * 1_000 / scale
        &&& self.mi_width == self.mi * 1_000_000_000 / (621_371 * scale)
    }
}

proof fn lemma_fits(length: int, factor: int, unit: int, width: int)
    requires
        unit > 0,
        length >= 0,
        factor >= 0,
        width >= 0,
        length * factor <= width * unit,
    ensures
        0 <= length * factor / unit <= width,
{
    assert(length * factor >= 0) by (nonlinear_arith)
        requires
            length >= 0,
            factor >= 0,
    ;
    vstd::arithmetic::div_mod::lemma_div_pos_is_pos(length * factor, unit);
    vstd::arithmetic::div_mod::lemma_div_is_ordered(length * factor, width * unit, unit);
    vstd::arithmetic::div_mod::lemma_div_by_multiple(width, unit);
}

/// The two bars of a scale. Neither is wider than the target.
pub fn scale_bars(scale: u64) -> (b: ScaleBars)
    requires
        0 < scale <= 1_000_000_000,
    ensures
        b.are_of(scale as int),
        b.km_width <= TARGET_BAR_WIDTH * 1_000,
        b.mi_width <= TARGET_BAR_WIDTH * 1_000,
{
    let target_km: u64 = TARGET_BAR_WIDTH * scale;
    let target_mi: u64 = ((target_km as u128) * 621_371 / 1_000_000) as u64;
    let km: i64 = nice_round(target_km as i64);
    let mi: i64 = nice_round(target_mi as i64);
    proof {
        nice_lengths_stay(target_km as int, km as int);
        if target_mi > 0 {
            nice_lengths_stay(target_mi as int, mi as int);
        }
        lemma_fits(km as int, 1_000, scale as int, 120_000);
        lemma_fits(mi as int, 1_000_000_000, 621_371 * (scale as int), 120_000);
    }
    let km_width: u64 = km as u64 * 1_000 / scale;
    let mi_width: u128 = mi as u128 * 1_000_000_000 / (621_371 * (scale as u128));
    ScaleBars { km, km_width, mi, mi_width: mi_width as u64 }
}

/// The round length is more than two fifths of the target: no rounder one lies
/// between.
pub proof fn a_round_length_is_close_to_its_target(target: int, r: int)
    requires
        is_nice_round(target, r),
        target > 0,
    ensures
        r <= target,
        2 * target < 5 * r,
{
    let n = choose|n: nat| r == #[trigger] pow10(n) || r == 2 * pow10(n) || r == 5 * pow10(n);
    lemma_pow10_positive(n);
    if r == pow10(n) {
        assert(is_nice(2 * pow10(n)));
    } else if r == 2 * pow10(n) {
        assert(is_nice(5 * pow10(n)));
    } else {
        assert(pow10(n + 1) == 10 * pow10(n));
        assert(is_nice(pow10(n + 1)));
    }
}

/// A longer target never has a shorter round length.
pub proof fn round_lengths_keep_order(a: int, b: int, r: int, s: int)
    requires
        is_nice_round(a, r),
        is_nice_round(b, s),
        0 < a <= b,
    ensures
        r <= s,
{
    assert(is_nice(r) && r <= b);
}

/// From one unit on a length is told in whole units, from a tenth on in tenths,
/// below in the small unit, each the nearest.
pub proof fn lengths_are_told_in_a_fitting_unit(
    v: int,
    unit: Seq<char>,
    small_per_unit: int,
    small: Seq<char>,
)
    requires
        0 <= v,
        1 <= small_per_unit <= 10_000,
    ensures
        v >= 1_000_000 ==> exists|n: nat|
            length_text(v, unit, small_per_unit, small) == #[trigger] crate::text::decimal(n) + unit
                && v - 500_000 <= 1_000_000 * n <= v + 500_000,
        100_000 <= v < 1_000_000 ==> exists|n: nat|
            length_text(v, unit, small_per_unit, small) == #[trigger] crate::text::tenths(n) + unit
                && v - 50_000 <= 100_000 * n <= v + 50_000,
        v < 100_000 ==> exists|n: nat|
            length_text(v, unit, small_per_unit, small) == #[trigger] crate::text::decimal(n)
                + small && small_per_unit * v - 500_001 <= 1_000_000 * n <= small_per_unit * v
                + 500_001,
{
    let f = crate::binary::FINE_PARTS as int;
    let u = crate::binary::DOUBLE as int;
    if v >= 1_000_000 {
        crate::text::rounding_is_to_the_nearest(v, 1_000_000);
        let n = crate::text::rounded(v, 1_000_000) as nat;
        assert(length_text(v, unit, small_per_unit, small) == crate::text::decimal(n) + unit);
    } else {
        let h = millionths(v);
        assert(v * f >= 0);
        crate::binary::held_is_close(v * f, 1_000_000, u);
        let a = 1_000_000 * h - v * f;
        assert(-f <= 1_000_000 * a <= f);
        if v >= 100_000 {
            crate::text::rounding_is_to_the_nearest(10 * h, f);
            let n = crate::text::rounded(10 * h, f);
            assert(-(100_000 * f) <= 2 * (100_000 * (f * n) - 1_000_000 * h) <= 100_000 * f);
            assert(v - 50_000 <= 100_000 * n <= v + 50_000) by (nonlinear_arith)
                requires
                    -(100_000 * f) <= 2 * (100_000 * (f * n) - 1_000_000 * h) <= 100_000 * f,
                    a == 1_000_000 * h - v * f,
                    -f <= 1_000_000 * a <= f,
                    f == 0x100_0000_0000_0000_0000,
            ;
            assert(length_text(v, unit, small_per_unit, small) == crate::text::tenths(n as nat)
                + unit);
        } else {
            let k = small_per_unit;
            assert(k * h >= 0) by (nonlinear_arith)
                requires
                    k >= 1,
                    h >= 0,
            ;
            crate::binary::held_is_close(k * h, 1, u);
            let g = crate::binary::divided(k * h, 1);
            let b = g - k * h;
            assert(1_000_000 * (k * h) <= 10_000 * (v * f + f)) by (nonlinear_arith)
                requires
                    1 <= k <= 10_000,
                    1_000_000 * h <= v * f + f,
                    h >= 0,
            ;
            assert(-f <= 4_000_000 * b <= f) by {
                if -(k * h) <= u * b <= k * h {
                    assert(1_000_000 * (k * h) <= 10_000 * (100_000 * f));
                }
            }
            crate::text::rounding_is_to_the_nearest(g, f);
            let n = crate::text::rounded(g, f);
            let c = f * n - g;
            assert(f * (1_000_000 * n - k * v) == 1_000_000 * c + 1_000_000 * b + k * a)
                by (nonlinear_arith)
                requires
                    c == f * n - g,
                    b == g - k * h,
                    a == 1_000_000 * h - v * f,
            ;
            assert(-f <= 100 * (k * a) <= f) by (nonlinear_arith)
                requires
                    -f <= 1_000_000 * a <= f,
                    1 <= k <= 10_000,
            ;
            let e = 1_000_000 * n - k * v;
            assert(-500_001 <= e <= 500_001) by (nonlinear_arith)
                requires
                    f * e <= 500_001 * f,
                    f * e >= -(500_001 * f),
                    f > 0,
            ;
            assert(n >= 0) by (nonlinear_arith)
                requires
                    -f <= 2 * (f * n - g),
                    g >= 0,
                    f > 0,
            ;
            assert(length_text(v, unit, small_per_unit, small) == crate::text::decimal(n as nat)
                + small);
        }
    }
}

/// A bar is as wide as its length is on the map: `scale` millionths of a kilometre to
/// a point, and a mile is 1.609344 kilometres to within a millionth.
pub proof fn bars_are_as_wide_as_their_lengths(b: ScaleBars, scale: int)
    requires
        b.are_of(scale),
        scale > 0,
    ensures
        b.km_width * scale <= 1_000 * b.km < (b.km_width + 1) * scale,
        621_371 * (b.mi_width * scale) <= 1_000_000_000 * b.mi < 621_371 * ((b.mi_width + 1)
            * scale),
        1_609_344 * 621_371 <= 1_000_000_000_000 + 1_000_000,
        1_609_344 * 621_371 >= 1_000_000_000_000 - 1_000_000,
{
    let n = b.km * 1_000;
    vstd::arithmetic::div_mod::lemma_fundamental_div_mod(n, scale);
    let q = n / scale;
    assert(q * scale == scale * q && (q + 1) * scale == scale * q + scale) by (nonlinear_arith);
    let m = b.mi * 1_000_000_000;
    let d = 621_371 * scale;
    vstd::arithmetic::div_mod::lemma_fundamental_div_mod(m, d);
    let w = m / d;
    assert(621_371 * (w * scale) == d * w && 621_371 * ((w + 1) * scale) == d * w + d)
        by (nonlinear_arith)
        requires
            d == 621_371 * scale,
    ;
}

/// Below a tenth, kilometres are told in metres and miles in feet.
pub proof fn short_lengths_are_told_in_metres_and_feet(v: u64, km: String, mi: String)
    requires
        v < 100_000,
        call_ensures(format_km, (v,), km),
        call_ensures(format_mi, (v,), mi),
    ensures
        exists|n: nat|
            km@ == #[trigger] crate::text::decimal(n) + " m"@ && 1000 * v - 500_001 <= 1_000_000 * n
                <= 1000 * v + 500_001,
        exists|n: nat|
            mi@ == #[trigger] crate::text::decimal(n) + " ft"@ && 5280 * v - 500_001 <= 1_000_000
                * n <= 5280 * v + 500_001,
{
    lengths_are_told_in_a_fitting_unit(v as int, " km"@, 1000, " m"@);
    lengths_are_told_in_a_fitting_unit(v as int, " mi"@, 5280, " ft"@);
}

/// From a unit on, kilometres and miles are told whole.
pub proof fn long_lengths_are_told_whole(v: u64, km: String, mi: String)
    requires
        v >= 1_000_000,
        call_ensures(format_km, (v,), km),
        call_ensures(format_mi, (v,), mi),
    ensures
        exists|n: nat|
            km@ == #[trigger] crate::text::decimal(n) + " km"@ && mi@ == crate::text::decimal(n)
                + " mi"@ && v - 500_000 <= 1_000_000 * n <= v + 500_000,
{
    lengths_are_told_in_a_fitting_unit(v as int, " km"@, 1000, " m"@);
    crate::text::rounding_is_to_the_nearest(v as int, 1_000_000);
    let n = crate::text::rounded(v as int, 1_000_000) as nat;
    assert(km@ == crate::text::decimal(n) + " km"@);
}

/// The bars are round lengths that fit into 120 points, and more than two fifths of
/// the lengths that would fill them.
pub proof fn bars_fill_the_room_they_have(scale: u64, b: ScaleBars, miles: int)
    requires
        1000 <= scale <= 1_000_000_000,
        call_ensures(scale_bars, (scale,), b),
        1_000_000 * miles <= 621_371 * (120 * scale) < 1_000_000 * (miles + 1),
    ensures
        b.km <= 120 * scale,
        2 * (120 * scale) < 5 * b.km,
        b.mi <= miles,
        2 * miles < 5 * b.mi,
        b.km_width <= 120_000 && b.mi_width <= 120_000,
{
    a_round_length_is_close_to_its_target(120 * scale, b.km as int);
    assert(120 * scale * 621_371 / 1_000_000 == miles);
    a_round_length_is_close_to_its_target(miles, b.mi as int);
}

/// No length is left of no length.
pub proof fn nothing_rounds_to_nothing(target: int, r: int)
    requires
        is_nice_round(target, r),
        target <= 0,
    ensures
        r == 0,
{
}

} // verus!
