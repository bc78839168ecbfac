//! The legend of a product's colours: where its ticks stand, and what they say.
//!
//! The values at both ends are given in thousandths of the product's unit; from
//! there on numbers are held in single precision, in parts of which the unit has
//! 2 to the 34th.

use crate::binary::{
    hold, round_wide, settle, signed_single_of, single_of, SINGLE, SINGLE_PARTS,
};
use crate::text::{push_decimal, push_tenths};
use vstd::prelude::*;

verus! {

/// The most ticks that a legend has.
pub const MOST_TICKS: u32 = 1000;

/// A tick of the legend. Zero may be negative too.
#[derive(Clone, Copy, Debug, PartialEq, Eq, Structural)]
pub struct Tick {
    pub negative: bool,
    /// Parts of the product's unit.
    pub size: u64,
}

/// Spacing of the ticks over a range of values, both in parts of the unit: sixty,
/// ten, five, one, or a fifth.
pub open spec fn step_of(range: int) -> int {
    if range > 200 * SINGLE_PARTS {
        60 * SINGLE_PARTS
    } else if range > 60 * SINGLE_PARTS {
        10 * SINGLE_PARTS
    } else if range > 10 * SINGLE_PARTS {
        5 * SINGLE_PARTS
    } else if range > 2 * SINGLE_PARTS {
        SINGLE_PARTS as int
    } else {
        crate::binary::single(200)
    }
}

/// Spacing of the ticks between two values.
pub open spec fn step_between(min: int, max: int) -> int {
    step_of(
        crate::binary::settled(
            crate::binary::signed_single(max) - crate::binary::signed_single(min),
        ),
    )
}

/// Spacing of the ticks between two values.
pub fn tick_step(min: i64, max: i64) -> (s: u64)
    ensures
        s == step_between(min as int, max as int),
        0x8000_0000 <= s <= 60 * SINGLE_PARTS,
{
    let range: i128 = settle(signed_single_of(max) - signed_single_of(min));
    let one: i128 = SINGLE_PARTS as i128;
    if range > 200 * one {
        60 * SINGLE_PARTS as u64
    } else if range > 60 * one {
        10 * SINGLE_PARTS as u64
    } else if range > 10 * one {
        5 * SINGLE_PARTS as u64
    } else if range > 2 * one {
        SINGLE_PARTS as u64
    } else {
        proof {
            crate::binary::held_is_close(200 * SINGLE_PARTS, 1000, SINGLE as int);
        }
        single_of(200) as u64
    }
}

/// How far from zero the first tick stands: at a multiple of the spacing, the next
/// one from `min` upwards.
pub open spec fn first_size(min: int, step: int) -> int {
    let start = crate::binary::signed_single(min);
    let steps = if min < 0 {
        crate::binary::held(-start * SINGLE_PARTS, step, SINGLE as int) / (SINGLE_PARTS as int)
    } else {
        (crate::binary::held(start * SINGLE_PARTS, step, SINGLE as int) + SINGLE_PARTS - 1) / (
        SINGLE_PARTS as int)
    };
    crate::binary::held(steps * step, 1, SINGLE as int)
}

pub open spec fn signed(negative: bool, size: int) -> int {
    if negative {
        -size
    } else {
        size
    }
}

/// The ticks from one on, each a step further, as far as `max`.
pub open spec fn ticks_from(t: Tick, step: int, max: int, most: nat) -> Seq<Tick>
    decreases most,
{
    if most == 0 || signed(t.negative, t.size as int) > max {
        seq![]
    } else {
        let next = crate::binary::settled(signed(t.negative, t.size as int) + step);
        seq![t] + ticks_from(
            Tick {
                negative: next < 0,
                size: if next < 0 {
                    -next
                } else {
                    next
                } as u64,
            },
            step,
            max,
            (most - 1) as nat,
        )
    }
}

/// The ticks between two values.
pub open spec fn ticks_between(min: int, max: int) -> Seq<Tick> {
    let step = step_between(min, max);
    ticks_from(
        Tick { negative: min < 0, size: first_size(min, step) as u64 },
        step,
        crate::binary::signed_single(max),
        MOST_TICKS as nat,
    )
}

fn first_tick(min: i64, step: u64) -> (t: Tick)
    requires
        -10_000_000 <= min <= 10_000_000,
        0x8000_0000 <= step <= 60 * SINGLE_PARTS,
    ensures
        t == (Tick { negative: min < 0, size: first_size(min as int, step as int) as u64 }),
        t.size == first_size(min as int, step as int),
        t.size <= 0x4_0000_0000_0000,
{
    let start: i128 = signed_single_of(min);
    let size: u128 = if min < 0 {
        (-start) as u128
    } else {
        start as u128
    };
    let share: u128 = hold(size * SINGLE_PARTS, step as u128, SINGLE);
    let steps: u128 = if min < 0 {
        share / SINGLE_PARTS
    } else {
        (share + SINGLE_PARTS - 1) / SINGLE_PARTS
    };
    assert(steps * step <= 0x2_0000_0000_0000) by {
        assert(steps * SINGLE_PARTS <= share + SINGLE_PARTS);
        assert(steps * step <= 0x2_0000_0000_0000) by (nonlinear_arith)
            requires
                steps * 0x4_0000_0000 <= share + 0x4_0000_0000,
                step * share <= (size * 0x4_0000_0000) + (size * 0x4_0000_0000) / 2 + step,
                size <= 0x1_0000_0000_0000,
                0 < step <= 60 * 0x4_0000_0000,
        ;
    }
    let far: u128 = hold(steps * step as u128, 1, SINGLE);
    Tick { negative: min < 0, size: far as u64 }
}

/// Values of the ticks from `min` to `max`.
pub fn ticks(min: i64, max: i64) -> (r: Vec<Tick>)
    requires
        -10_000_000 <= min <= 10_000_000,
        -10_000_000 <= max <= 10_000_000,
    ensures
        r@ == ticks_between(min as int, max as int),
{
    let step: u64 = tick_step(min, max);
    let end: i128 = signed_single_of(max);
    let mut r: Vec<Tick> = Vec::new();
    let mut t = first_tick(min, step);
    let mut i: u32 = 0;
    while i < MOST_TICKS
        invariant
            i <= MOST_TICKS,
            step <= 60 * SINGLE_PARTS,
            -0x1_0000_0000_0000 <= end <= 0x1_0000_0000_0000,
            t.size <= 0x4_0000_0000_0000 + 0x2000_0000 * i,
            r@ + ticks_from(t, step as int, end as int, (MOST_TICKS - i) as nat) == ticks_between(
                min as int,
                max as int,
            ),
        decreases MOST_TICKS - i,
    {
        let v: i128 = if t.negative {
            -(t.size as i128)
        } else {
            t.size as i128
        };
        if v > end {
            assert(r@ + Seq::<Tick>::empty() =~= r@);
            return r;
        }
        let next: i128 = settle(v + step as i128);
        let ghost before = r@;
        r.push(t);
        t = Tick {
            negative: next < 0,
            size: if next < 0 {
                (-next) as u64
            } else {
                next as u64
            },
        };
        i += 1;
        assert(before + (seq![r@.last()] + ticks_from(
            t,
            step as int,
            end as int,
            (MOST_TICKS - i) as nat,
        )) =~= r@ + ticks_from(t, step as int, end as int, (MOST_TICKS - i) as nat));
    }
    assert(r@ + Seq::<Tick>::empty() =~= r@);
    r
}

/// No tick stands beyond the upper end.
pub proof fn ticks_stay_within(t: Tick, step: int, max: int, most: nat, i: int)
    requires
        0 <= i < ticks_from(t, step, max, most).len(),
    ensures
        ({
            let k = ticks_from(t, step, max, most)[i];
            signed(k.negative, k.size as int) <= max
        }),
    decreases most,
{
    if i > 0 {
        let next = crate::binary::settled(signed(t.negative, t.size as int) + step);
        let u = Tick {
            negative: next < 0,
            size: if next < 0 {
                -next
            } else {
                next
            } as u64,
        };
        ticks_stay_within(u, step, max, (most - 1) as nat, i - 1);
    }
}

/// What a tick says: one digit behind the point where ticks are closer than a
/// whole unit, else none.
pub open spec fn tick_text(t: Tick, step: int) -> Seq<char> {
    crate::inspector::sign(t.negative) + if step < SINGLE_PARTS {
        crate::text::tenths(
            crate::text::rounded(10 * t.size as int, SINGLE_PARTS as int) as nat,
        )
    } else {
        crate::text::decimal(crate::text::rounded(t.size as int, SINGLE_PARTS as int) as nat)
    }
}

/// What a tick says.
pub fn tick_label(t: Tick, step: u64) -> (s: String)
    ensures
        s@ == tick_text(t, step as int),
{
    let mut s = String::new();
    if t.negative {
        s.push('-');
    }
    assert(s@ =~= crate::inspector::sign(t.negative));
    if (step as u128) < SINGLE_PARTS {
        push_tenths(&mut s, round_wide(10 * t.size as u128, SINGLE_PARTS) as u64);
    } else {
        push_decimal(&mut s, round_wide(t.size as u128, SINGLE_PARTS) as u64);
    }
    s
}

/// The wider the range, the wider the steps between the ticks: a fifth of a unit up
/// to two units, one unit up to ten, five up to sixty, ten up to two hundred, and
/// sixty beyond.
pub proof fn steps_suit_the_range(range: int)
    ensures
        range <= 2 * SINGLE_PARTS ==> step_of(range) == crate::binary::single(200),
        2 * SINGLE_PARTS < range <= 10 * SINGLE_PARTS ==> step_of(range) == SINGLE_PARTS,
        10 * SINGLE_PARTS < range <= 60 * SINGLE_PARTS ==> step_of(range) == 5 * SINGLE_PARTS,
        60 * SINGLE_PARTS < range <= 200 * SINGLE_PARTS ==> step_of(range) == 10 * SINGLE_PARTS,
        200 * SINGLE_PARTS < range ==> step_of(range) == 60 * SINGLE_PARTS,
{
}

/// Between whole units the range is the difference of the ends.
pub proof fn the_range_is_the_difference_of_the_ends(min: int, max: int)
    requires
        -10_000 <= min <= 10_000,
        -10_000 <= max <= 10_000,
    ensures
        step_between(1000 * min, 1000 * max) == step_of((max - min) * SINGLE_PARTS),
{
    crate::binary::whole_units_are_kept_in_single_precision(min);
    crate::binary::whole_units_are_kept_in_single_precision(max);
    crate::binary::whole_units_are_kept_in_single_precision(max - min);
    assert(max * SINGLE_PARTS - min * SINGLE_PARTS == (max - min) * SINGLE_PARTS);
}

proof fn lemma_share_of_step(size: int, k: int, q: int, r: int)
    requires
        0 <= size <= 10_000,
        1 <= k <= 60,
        size == k * q + r,
        0 <= r < k,
        q >= 0,
    ensures
        ({
            let h = crate::binary::held(
                size * SINGLE_PARTS * SINGLE_PARTS,
                k * SINGLE_PARTS,
                SINGLE as int,
            );
            &&& r == 0 ==> h == q * SINGLE_PARTS
            &&& r > 0 ==> q * SINGLE_PARTS < h && h + SINGLE_PARTS - 1 < (q + 2) * SINGLE_PARTS && h
                < (q + 1) * SINGLE_PARTS
        }),
{
    let p = SINGLE_PARTS as int;
    let u = SINGLE as int;
    let n = size * p * p;
    let h = crate::binary::held(n, k * p, u);
    assert(q <= size) by (nonlinear_arith)
        requires
            size == k * q + r,
            k >= 1,
            q >= 0,
            r >= 0,
    ;
    if r == 0 {
        vstd::arithmetic::power2::lemma2_to64_rest();
        assert(vstd::arithmetic::power2::pow2(34) == p);
        crate::binary::numbers_with_few_digits_are_kept(q, k * p, u, 34);
        assert(q * (k * p) * p == n) by (nonlinear_arith)
            requires
                n == size * p * p,
                size == k * q,
        ;
    } else {
        assert(n >= 0) by (nonlinear_arith)
            requires
                n == size * p * p,
                size >= 0,
        ;
        assert(k * p > 0);
        crate::binary::held_is_close(n, k * p, u);
        let off = k * h - size * p;
        assert(k * p * h - n == p * off) by (nonlinear_arith)
            requires
                off == k * h - size * p,
                n == size * p * p,
        ;
        assert(-21_000_000 <= off <= 21_000_000) by {
            if -(k * p) <= p * off <= k * p {
                assert(-k <= off <= k) by (nonlinear_arith)
                    requires
                        -(k * p) <= p * off <= k * p,
                        p > 0,
                ;
            } else {
                assert(-(size * p) <= u * off <= size * p) by (nonlinear_arith)
                    requires
                        -n <= u * (p * off) <= n,
                        n == size * p * p,
                        p > 0,
                ;
            }
        }
        assert(k * h == k * q * p + r * p + off) by (nonlinear_arith)
            requires
                off == k * h - size * p,
                size == k * q + r,
        ;
        assert(q * p < h < (q + 1) * p) by (nonlinear_arith)
            requires
                k * h == k * q * p + r * p + off,
                -21_000_000 <= off <= 21_000_000,
                p == 0x4_0000_0000,
                1 <= r < k,
                k <= 60,
        ;
    }
}

/// Between whole units, with a step of whole units, the first tick is the first
/// multiple of the step that is not below the lower end.
pub proof fn the_first_tick_is_a_multiple_of_the_step(min: int, k: int, q: int)
    requires
        -10_000 <= min <= 10_000,
        k == 1 || k == 5 || k == 10 || k == 60,
        min <= k * q < min + k,
    ensures
        signed(min < 0, first_size(1000 * min, k * SINGLE_PARTS)) == k * q * SINGLE_PARTS,
{
    let p = SINGLE_PARTS as int;
    crate::binary::whole_units_are_kept_in_single_precision(min);
    let steps = if min < 0 {
        let r = k * q - min;
        assert(q <= 0) by (nonlinear_arith)
            requires
                k * q < min + k,
                min < 0,
                k > 0,
        ;
        assert(-min == k * (-q) + r) by (nonlinear_arith)
            requires
                r == k * q - min,
        ;
        lemma_share_of_step(-min, k, -q, r);
        let h = crate::binary::held(-min * p * p, k * p, SINGLE as int);
        assert(h / p == -q);
        -q
    } else {
        if k * q == min {
            lemma_share_of_step(min, k, q, 0);
            let h = crate::binary::held(min * p * p, k * p, SINGLE as int);
            assert((h + p - 1) / p == q);
        } else {
            let r = min - k * (q - 1);
            assert(k * (q - 1) == k * q - k) by (nonlinear_arith);
            assert(q >= 1) by (nonlinear_arith)
                requires
                    k * q > min,
                    min >= 0,
                    k > 0,
            ;
            lemma_share_of_step(min, k, q - 1, r);
            let h = crate::binary::held(min * p * p, k * p, SINGLE as int);
            assert((h + p - 1) / p == q);
        }
        q
    };
    assert(0 <= k * steps <= 20_000) by {
        assert(k * (-q) == -(k * q)) by (nonlinear_arith);
    }
    crate::binary::whole_units_are_kept_in_single_precision(k * steps);
    assert(steps * (k * p) == k * steps * p) by (nonlinear_arith);
    assert(k * (-q) * p == -(k * q * p)) by (nonlinear_arith);
}

/// Ticks that begin at a whole unit and step by whole units lie exactly a step apart,
/// and go on as long as they are not above the upper end.
pub proof fn ticks_lie_a_step_apart(t: Tick, first: int, k: int, max: int, most: nat, i: int)
    requires
        1 <= k <= 60,
        -20_000 <= first <= 20_000,
        signed(t.negative, t.size as int) == first * SINGLE_PARTS,
        max <= 10_000 * SINGLE_PARTS,
        0 <= i,
    ensures
        ({
            let ticks = ticks_from(t, k * SINGLE_PARTS, max, most);
            &&& i < ticks.len() ==> signed(ticks[i].negative, ticks[i].size as int) == (first + k
                * i) * SINGLE_PARTS
            &&& i < most && (first + k * i) * SINGLE_PARTS <= max ==> i < ticks.len()
            &&& i < ticks.len() ==> (first + k * i) * SINGLE_PARTS <= max
        }),
    decreases most,
{
    let p = SINGLE_PARTS as int;
    let ticks = ticks_from(t, k * p, max, most);
    if most > 0 && first * p <= max {
        crate::binary::whole_units_are_kept_in_single_precision(first + k);
        assert(first * p + k * p == (first + k) * p) by (nonlinear_arith);
        let next = (first + k) * p;
        let after = Tick {
            negative: next < 0,
            size: (if next < 0 {
                -next
            } else {
                next
            }) as u64,
        };
        let rest = ticks_from(after, k * p, max, (most - 1) as nat);
        assert(ticks =~= seq![t] + rest);
        if i > 0 {
            assert(first + k <= 20_000);
            ticks_lie_a_step_apart(after, first + k, k, max, (most - 1) as nat, i - 1);
            assert(first + k + k * (i - 1) == first + k * i) by (nonlinear_arith);
            if i < ticks.len() {
                assert(ticks[i] == rest[i - 1]);
            }
        } else {
            assert(k * 0 == 0);
        }
    } else if i > 0 {
        assert((first + k * i) * p >= first * p) by (nonlinear_arith)
            requires
                k >= 1,
                i >= 0,
                p > 0,
        ;
    } else {
        assert(k * 0 == 0);
    }
}

/// A tick is told to the nearest whole unit, and to the nearest tenth where the step
/// is less than a unit, with its sign.
pub proof fn ticks_are_told_as_finely_as_they_step(t: Tick, step: int)
    ensures
        step >= SINGLE_PARTS ==> exists|n: nat|
            tick_text(t, step) == (if t.negative {
                seq!['-']
            } else {
                seq![]
            }) + #[trigger] crate::text::decimal(n) && -SINGLE_PARTS <= 2 * (SINGLE_PARTS * n
                - t.size) <= SINGLE_PARTS,
        step < SINGLE_PARTS ==> exists|n: nat|
            tick_text(t, step) == (if t.negative {
                seq!['-']
            } else {
                seq![]
            }) + #[trigger] crate::text::tenths(n) && -SINGLE_PARTS <= 2 * (SINGLE_PARTS * n - 10
                * t.size) <= SINGLE_PARTS,
{
    let p = SINGLE_PARTS as int;
    crate::text::rounding_is_to_the_nearest(t.size as int, p);
    crate::text::rounding_is_to_the_nearest(10 * t.size as int, p);
    let sign = if t.negative {
        seq!['-']
    } else {
        seq![]
    };
    if step >= p {
        let n = crate::text::rounded(t.size as int, p) as nat;
        assert(tick_text(t, step) == sign + crate::text::decimal(n));
    } else {
        let n = crate::text::rounded(10 * t.size as int, p) as nat;
        assert(tick_text(t, step) == sign + crate::text::tenths(n));
    }
}

/// Ticks begin at the lower end and never pass the upper one; a thousand are the most.
pub proof fn ticks_stand_between_the_ends(min: int, max: int, k: int, q: int, i: int)
    requires
        -10_000 <= min < max <= 10_000,
        k == 1 || k == 5 || k == 10 || k == 60,
        step_between(1000 * min, 1000 * max) == k * SINGLE_PARTS,
        min <= k * q < min + k,
        0 <= i < 1000,
    ensures
        ({
            let ticks = ticks_between(1000 * min, 1000 * max);
            &&& k * (q + i) <= max <==> i < ticks.len()
            &&& i < ticks.len() ==> signed(ticks[i].negative, ticks[i].size as int) == k * (q + i)
                * SINGLE_PARTS
        }),
{
    let p = SINGLE_PARTS as int;
    let step = k * p;
    the_first_tick_is_a_multiple_of_the_step(min, k, q);
    crate::binary::whole_units_are_kept_in_single_precision(max);
    let size = first_size(1000 * min, step);
    let first = Tick { negative: min < 0, size: size as u64 };
    assert(-20_000 <= k * q <= 20_000);
    assert(0 <= size <= 20_000 * p);
    assert(signed(first.negative, first.size as int) == (k * q) * p);
    ticks_lie_a_step_apart(first, k * q, k, max * p, 1000, i);
    assert(k * q + k * i == k * (q + i)) by (nonlinear_arith);
}

/// The first tick has the sign of the lower end; of the others only those below zero
/// have one.
pub proof fn ticks_have_the_sign_of_their_value(
    t: Tick,
    step: int,
    max: int,
    most: nat,
    min: int,
    end: int,
    i: int,
)
    requires
        0 <= i,
    ensures
        ticks_between(min, end).len() > 0 ==> ticks_between(min, end)[0].negative == (min < 0),
        i == 0 && i < ticks_from(t, step, max, most).len() ==> ticks_from(t, step, max, most)[i]
            == t,
        i == 1 && i < ticks_from(t, step, max, most).len() ==> ticks_from(
            t,
            step,
            max,
            most,
        )[i].negative == (crate::binary::settled(signed(t.negative, t.size as int) + step) < 0),
{
    reveal_with_fuel(ticks_from, 3);
}

} // verus!
