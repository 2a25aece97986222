//! Scaling a premultiplied pixel buffer to an opacity.
//!
//! Every byte of the buffer, the alpha channel included, is multiplied by the
//! opacity and truncated toward zero. The source buffer is never touched.

use vstd::prelude::*;
use vstd::arithmetic::div_mod::{
    lemma_div_is_ordered,
    lemma_div_multiples_vanish,
    lemma_fundamental_div_mod,
    lemma_fundamental_div_mod_converse,
};
use crate::easing::Fraction;

verus! {

/// A channel value `c` times `num / den`, truncated toward zero.
pub open spec fn scaled_channel(c: int, num: int, den: int) -> int {
    (c * num) / den
}

/// A channel value `c` times `num / den`, rounded to the nearest integer
/// (halves upward).
pub open spec fn rounded_channel(c: int, num: int, den: int) -> int {
    (2 * (c * num) + den) / (2 * den)
}

/// A pixel buffer with every byte scaled to `alpha`.
pub open spec fn scaled_pixels(src: Seq<u8>, alpha: Fraction) -> Seq<u8> {
    Seq::new(
        src.len(),
        |i: int| scaled_channel(src[i] as int, alpha.num as int, alpha.den as int) as u8,
    )
}

/// A scaled channel lies between zero and the channel it came from.
pub proof fn lemma_scaled_channel_bounds(c: int, num: int, den: int)
    requires
        0 <= c,
        0 <= num <= den,
        0 < den,
    ensures
        0 <= scaled_channel(c, num, den) <= c,
        0 <= c * num <= c * den,
{
    assert(0 <= c * num <= c * den) by (nonlinear_arith)
        requires
            0 <= c,
            0 <= num <= den,
    ;
    lemma_div_is_ordered(0, c * num, den);
    lemma_div_is_ordered(c * num, c * den, den);
    lemma_div_multiples_vanish(c, den);
    assert(c * den == den * c) by (nonlinear_arith);
}

/// Scaling by one changes nothing.
pub proof fn lemma_scaled_by_one(c: int, den: int)
    requires
        0 < den,
    ensures
        scaled_channel(c, den, den) == c,
{
    lemma_div_multiples_vanish(c, den);
    assert(c * den == den * c) by (nonlinear_arith);
}

/// Truncation and rounding agree wherever the fractional part of the product
/// is below one half; elsewhere rounding gives one more.
pub proof fn lemma_scaled_channel_rounds(c: int, num: int, den: int)
    requires
        0 <= c,
        0 <= num <= den,
        0 < den,
    ensures
        2 * ((c * num) % den) < den ==> scaled_channel(c, num, den) == rounded_channel(
            c,
            num,
            den,
        ),
        2 * ((c * num) % den) >= den ==> scaled_channel(c, num, den) + 1 == rounded_channel(
            c,
            num,
            den,
        ),
{
    let p = c * num;
    let q = p / den;
    let r = p % den;
    lemma_fundamental_div_mod(p, den);
    assert(0 <= r < den);
    if 2 * r < den {
        assert(2 * p + den == q * (2 * den) + (2 * r + den)) by (nonlinear_arith)
            requires
                p == den * q + r,
        ;
        lemma_fundamental_div_mod_converse(2 * p + den, 2 * den, q, 2 * r + den);
    } else {
        assert(2 * p + den == (q + 1) * (2 * den) + (2 * r - den)) by (nonlinear_arith)
            requires
                p == den * q + r,
        ;
        lemma_fundamental_div_mod_converse(2 * p + den, 2 * den, q + 1, 2 * r - den);
    }
}

/// Every byte of a scaled buffer is the source byte times the opacity,
/// truncated toward zero. That is the product rounded to the nearest integer
/// wherever the product's fractional part is below one half.
pub proof fn lemma_scaled_pixels_bytes(src: Seq<u8>, alpha: Fraction, i: int)
    requires
        alpha.wf(),
        0 <= i < src.len(),
    ensures
        scaled_pixels(src, alpha).len() == src.len(),
        scaled_pixels(src, alpha)[i] as int == scaled_channel(
            src[i] as int,
            alpha.num as int,
            alpha.den as int,
        ),
        2 * ((src[i] as int * alpha.num as int) % (alpha.den as int)) < alpha.den
            ==> scaled_pixels(src, alpha)[i] as int == rounded_channel(
            src[i] as int,
            alpha.num as int,
            alpha.den as int,
        ),
{
    lemma_scaled_channel_bounds(src[i] as int, alpha.num as int, alpha.den as int);
    lemma_scaled_channel_rounds(src[i] as int, alpha.num as int, alpha.den as int);
}

/// A buffer scaled to the opacity one is the buffer itself.
pub proof fn lemma_scaled_pixels_by_one(src: Seq<u8>, alpha: Fraction)
    requires
        alpha.wf(),
        alpha.num == alpha.den,
    ensures
        scaled_pixels(src, alpha) == src,
{
    assert forall|j: int| 0 <= j < src.len() implies scaled_pixels(src, alpha)[j] == src[j] by {
        lemma_scaled_by_one(src[j] as int, alpha.den as int);
    }
    assert(scaled_pixels(src, alpha) =~= src);
}

/// One channel value scaled to `alpha`, truncated toward zero.
pub fn scale_channel(c: u8, alpha: &Fraction) -> (r: u8)
    requires
        alpha.wf(),
    ensures
        r as int == scaled_channel(c as int, alpha.num as int, alpha.den as int),
        r <= c,
{
    proof {
        lemma_scaled_channel_bounds(c as int, alpha.num as int, alpha.den as int);
        assert(c * alpha.den <= 255 * 0x0100_0000_0000_0000_0000_0000_0000_0000) by (nonlinear_arith)
            requires
                0 <= c <= 255,
                0 <= alpha.den <= 0x0100_0000_0000_0000_0000_0000_0000_0000,
        ;
    }
    let product: u128 = (c as u128) * alpha.num;
    (product / alpha.den) as u8
}

/// A new buffer holding `src` scaled to `alpha`. An opacity of one gives an
/// exact copy.
pub fn scale_pixels(src: &Vec<u8>, alpha: &Fraction) -> (r: Vec<u8>)
    requires
        alpha.wf(),
    ensures
        r@ == scaled_pixels(src@, *alpha),
        r@.len() == src@.len(),
        alpha.num == alpha.den ==> r@ == src@,
{
    let n: usize = src.len();
    let mut out: Vec<u8> = Vec::with_capacity(n);
    let mut i: usize = 0;
    while i < n
        invariant
            alpha.wf(),
            n == src@.len(),
            i <= n,
            out@.len() == i,
            forall|j: int| 0 <= j < i ==> out@[j] == scaled_pixels(src@, *alpha)[j],
        decreases n - i,
    {
        let scaled: u8 = scale_channel(src[i], alpha);
        out.push(scaled);
        i += 1;
    }
    proof {
        assert(out@ =~= scaled_pixels(src@, *alpha));
        if alpha.num == alpha.den {
            lemma_scaled_pixels_by_one(src@, *alpha);
        }
    }
    out
}

} // verus!
