//! Fade easing over exact fractions.
//!
//! Progress and opacity are values between zero and one. They are kept as
//! fractions of two integers, so every step of the fade is exact.

use vstd::prelude::*;

verus! {

/// Largest denominator a [`Fraction`] may carry (2^120): a colour channel
/// times such a fraction's numerator still fits in `u128`.
pub const MAX_DENOMINATOR: u128 = 0x0100_0000_0000_0000_0000_0000_0000_0000;

/// The third power of an integer.
pub open spec fn cube(x: int) -> int {
    x * x * x
}

/// Numerator of ease-out-cubic at `num / den`, over the denominator `cube(den)`:
/// `1 - (1 - t)^3` with `t = num / den`.
pub open spec fn ease_num(num: int, den: int) -> int {
    cube(den) - cube(den - num)
}

/// Numerator of the opacity at fade step `step` of `frames`, over the
/// denominator `cube(frames)`: one minus the eased progress.
pub open spec fn fade_alpha_num(step: int, frames: int) -> int {
    cube(frames) - ease_num(step, frames)
}

/// The opacity at fade step `step` of `frames`, as a fraction over
/// `cube(frames)`.
pub open spec fn fade_alpha_spec(step: u32, frames: u32) -> Fraction {
    Fraction {
        num: fade_alpha_num(step as int, frames as int) as u128,
        den: cube(frames as int) as u128,
    }
}

/// A value between zero and one, `num / den`.
#[derive(Clone, Copy, Debug, PartialEq, Eq, Structural)]
pub struct Fraction {
    pub num: u128,
    pub den: u128,
}

impl Fraction {
    /// The fraction lies in `[0, 1]` and its denominator is in range.
    pub open spec fn wf(&self) -> bool {
        0 < self.den <= MAX_DENOMINATOR && self.num <= self.den
    }

    /// The fraction `num / den`, if it lies in `[0, 1]` and `den` is in range.
    pub fn new(num: u128, den: u128) -> (r: Option<Fraction>)
        ensures
            r == if 0 < den <= MAX_DENOMINATOR && num <= den {
                Some(Fraction { num, den })
            } else {
                None
            },
            r is Some ==> r->0.wf(),
    {
        if 0 < den && den <= MAX_DENOMINATOR && num <= den {
            Some(Fraction { num, den })
        } else {
            None
        }
    }

    /// Zero, as `0 / 1`.
    pub fn zero() -> (r: Fraction)
        ensures
            r == (Fraction { num: 0, den: 1 }),
            r.wf(),
    {
        Fraction { num: 0, den: 1 }
    }

    /// One, as `1 / 1`.
    pub fn one() -> (r: Fraction)
        ensures
            r == (Fraction { num: 1, den: 1 }),
            r.wf(),
    {
        Fraction { num: 1, den: 1 }
    }

    /// Whether the fraction equals one.
    pub fn is_one(&self) -> (r: bool)
        ensures
            r == (self.num == self.den),
    {
        self.num == self.den
    }
}

/// Squares and cubes keep the order of non-negative integers.
pub proof fn lemma_cube_monotone(a: int, b: int)
    requires
        0 <= a <= b,
    ensures
        0 <= a * a <= b * b,
        0 <= cube(a) <= cube(b),
        a < b ==> cube(a) < cube(b),
{
    assert(0 <= a * a <= b * b) by (nonlinear_arith)
        requires
            0 <= a <= b,
    ;
    let a2 = a * a;
    let b2 = b * b;
    assert(0 <= a2 * a <= b2 * b) by (nonlinear_arith)
        requires
            0 <= a <= b,
            0 <= a2 <= b2,
    ;
    if a < b {
        assert(a2 * a < b2 * b) by (nonlinear_arith)
            requires
                0 <= a < b,
                0 <= a2 <= b2,
                b2 == b * b,
        ;
    }
}

/// A cube dominates its base and its square from one upwards.
pub proof fn lemma_cube_dominates(d: int)
    requires
        1 <= d,
    ensures
        d <= d * d <= cube(d),
{
    assert(d <= d * d) by (nonlinear_arith)
        requires
            1 <= d,
    ;
    let d2 = d * d;
    assert(d2 <= d2 * d) by (nonlinear_arith)
        requires
            1 <= d,
            0 <= d2,
    ;
}

/// Ease-out-cubic, `1 - (1 - t)^3`, computed exactly.
///
/// The denominator of `t` must be small enough for its cube to be a valid
/// denominator.
pub fn ease(t: &Fraction) -> (r: Fraction)
    requires
        t.wf(),
        cube(t.den as int) <= MAX_DENOMINATOR,
    ensures
        r.wf(),
        r.den == cube(t.den as int),
        r.num == ease_num(t.num as int, t.den as int),
{
    let d: u128 = t.den;
    let rest: u128 = d - t.num;
    proof {
        lemma_cube_dominates(d as int);
        lemma_cube_monotone(rest as int, d as int);
    }
    let d3: u128 = d * d * d;
    let rest3: u128 = rest * rest * rest;
    Fraction { num: d3 - rest3, den: d3 }
}

/// Largest denominator whose cube is still a valid denominator (2^40).
pub const MAX_EASED_DENOMINATOR: u128 = 0x0100_0000_0000;

/// [`ease`] for any fraction: `None` where the fraction is not in `[0, 1]`
/// or the cube of its denominator is out of range.
pub fn try_ease(t: &Fraction) -> (r: Option<Fraction>)
    ensures
        r is Some <==> t.wf() && cube(t.den as int) <= MAX_DENOMINATOR,
        r is Some ==> r->0.wf() && r->0.den == cube(t.den as int) && r->0.num == ease_num(
            t.num as int,
            t.den as int,
        ),
{
    proof {
        assert(cube(MAX_EASED_DENOMINATOR as int) == MAX_DENOMINATOR) by (nonlinear_arith);
        if t.den <= MAX_EASED_DENOMINATOR {
            lemma_cube_monotone(t.den as int, MAX_EASED_DENOMINATOR as int);
        } else {
            lemma_cube_monotone(MAX_EASED_DENOMINATOR as int, t.den as int);
        }
    }
    if 0 < t.den && t.num <= t.den && t.den <= MAX_EASED_DENOMINATOR {
        Some(ease(t))
    } else {
        None
    }
}

/// Opacity at fade step `step` of `frames`: one minus the eased progress
/// `step / frames`, which is `((frames - step) / frames)^3`.
pub fn fade_alpha(step: u32, frames: u32) -> (r: Fraction)
    requires
        0 < frames,
        step <= frames,
    ensures
        r.wf(),
        r == fade_alpha_spec(step, frames),
        r.den == cube(frames as int),
        r.num == fade_alpha_num(step as int, frames as int),
        r.num == cube(frames - step),
{
    proof {
        lemma_cube_monotone(frames as int, 0xFFFF_FFFF);
        assert(cube(0xFFFF_FFFF) <= MAX_DENOMINATOR) by (nonlinear_arith);
    }
    let t = Fraction { num: step as u128, den: frames as u128 };
    let eased = ease(&t);
    Fraction { num: eased.den - eased.num, den: eased.den }
}

/// Easing starts at zero and ends at one.
pub proof fn lemma_ease_endpoints(den: int)
    requires
        0 < den,
    ensures
        ease_num(0, den) == 0,
        ease_num(den, den) == cube(den),
{
}

/// Easing keeps the order of its arguments, strictly: for `a / b` and `c / d`
/// in `[0, 1]`, `a / b <= c / d` gives `ease(a / b) <= ease(c / d)`, and the
/// same with `<`.
pub proof fn lemma_ease_monotone(a: int, b: int, c: int, d: int)
    requires
        0 <= a <= b,
        0 < b,
        0 <= c <= d,
        0 < d,
        a * d <= c * b,
    ensures
        ease_num(a, b) * cube(d) <= ease_num(c, d) * cube(b),
        a * d < c * b ==> ease_num(a, b) * cube(d) < ease_num(c, d) * cube(b),
{
    // (d - c) * b <= (b - a) * d, and cubing keeps that.
    let x = (d - c) * b;
    let y = (b - a) * d;
    assert(0 <= x <= y && (a * d < c * b ==> x < y)) by (nonlinear_arith)
        requires
            0 <= a <= b,
            0 <= c <= d,
            0 < b,
            a * d <= c * b,
            x == (d - c) * b,
            y == (b - a) * d,
    ;
    lemma_cube_monotone(x, y);
    assert(cube(x) == cube(d - c) * cube(b)) by (nonlinear_arith)
        requires
            x == (d - c) * b,
    ;
    assert(cube(y) == cube(b - a) * cube(d)) by (nonlinear_arith)
        requires
            y == (b - a) * d,
    ;
    let cb = cube(b);
    let cd = cube(d);
    let cdc = cube(d - c);
    let cba = cube(b - a);
    assert((cb - cba) * cd == cb * cd - cba * cd) by (nonlinear_arith);
    assert((cd - cdc) * cb == cb * cd - cdc * cb) by (nonlinear_arith);
}

/// Over the steps of a fade the opacity falls strictly: a later step is
/// more transparent than an earlier one. Step zero counts as the opaque
/// frame before the fade.
pub proof fn lemma_fade_alpha_decreasing(frames: int, j: int, k: int)
    requires
        0 <= j < k <= frames,
    ensures
        fade_alpha_num(k, frames) < fade_alpha_num(j, frames),
{
    lemma_cube_monotone(frames - k, frames - j);
}

/// Every step of a fade is less than opaque, none is less than transparent,
/// and the last one is transparent.
pub proof fn lemma_fade_alpha_range(frames: int, k: int)
    requires
        1 <= k <= frames,
    ensures
        0 <= fade_alpha_num(k, frames) < cube(frames),
        fade_alpha_num(0, frames) == cube(frames),
        fade_alpha_num(frames, frames) == 0,
{
    lemma_cube_monotone(frames - k, frames);
    lemma_cube_monotone(0, frames - k);
}

} // verus!
