use vstd::prelude::*;

verus! {

/// One pixel with 8-bit red, green, blue and alpha channels.
#[derive(Clone, Copy, Debug, PartialEq, Eq, Structural)]
pub struct Pixel {
    pub r: u8,
    pub g: u8,
    pub b: u8,
    pub a: u8,
}

/// Source-over blending of one 8-bit channel: the source channel weighted
/// by `alpha / 255`, the destination channel by the complement, the result
/// truncated to an integer.
pub open spec fn spec_blend_channel(src: int, dst: int, alpha: int) -> int {
    (src * alpha + dst * (255 - alpha)) / 255
}

/// Source-over blending of a whole pixel.  A fully transparent source
/// leaves the destination unchanged; a fully opaque source replaces it.
/// In between, each color channel is blended with the source alpha, and
/// the alpha channel is blended with itself as the weight; that value
/// never exceeds 255, so no clamping is needed.
pub open spec fn spec_blend(dst: Pixel, src: Pixel) -> Pixel {
    if src.a == 0 {
        dst
    } else if src.a == 255 {
        Pixel { r: src.r, g: src.g, b: src.b, a: 255 }
    } else {
        Pixel {
            r: spec_blend_channel(src.r as int, dst.r as int, src.a as int) as u8,
            g: spec_blend_channel(src.g as int, dst.g as int, src.a as int) as u8,
            b: spec_blend_channel(src.b as int, dst.b as int, src.a as int) as u8,
            a: spec_blend_channel(src.a as int, dst.a as int, src.a as int) as u8,
        }
    }
}

/// The blended channel value stays within the 8-bit range.
pub proof fn lemma_blend_channel_in_range(src: int, dst: int, alpha: int)
    requires
        0 <= src <= 255,
        0 <= dst <= 255,
        0 <= alpha <= 255,
    ensures
        0 <= spec_blend_channel(src, dst, alpha) <= 255,
{
    assert(src * alpha + dst * (255 - alpha) <= 255 * 255) by (nonlinear_arith)
        requires
            0 <= src <= 255,
            0 <= dst <= 255,
            0 <= alpha <= 255,
    ;
    assert(src * alpha + dst * (255 - alpha) >= 0) by (nonlinear_arith)
        requires
            0 <= src <= 255,
            0 <= dst <= 255,
            0 <= alpha <= 255,
    ;
}

/// Blending a channel with alpha 128 over a black destination scales the
/// source channel by about one half: the result differs from `src / 2` by
/// at most one unit of integer truncation.
pub proof fn lemma_blend_half_over_black(src: int)
    requires
        0 <= src <= 255,
    ensures
        src / 2 <= spec_blend_channel(src, 0, 128) <= src / 2 + 1,
{
    let q = src / 2;
    let r = src % 2;
    vstd::arithmetic::div_mod::lemma_fundamental_div_mod(src, 2);
    assert(src == 2 * q + r);
    assert(0 <= r < 2);
    vstd::arithmetic::div_mod::lemma_div_is_ordered(src, 255, 2);
    assert(q <= 127);
    assert(spec_blend_channel(src, 0, 128) == (128 * src) / 255);
    assert(128 * src >= 255 * q);
    assert((255 * q) / 255 == q) by {
        vstd::arithmetic::div_mod::lemma_div_multiples_vanish(q, 255);
    }
    vstd::arithmetic::div_mod::lemma_div_is_ordered(255 * q, 128 * src, 255);
    assert(128 * src <= 255 * (q + 1));
    vstd::arithmetic::div_mod::lemma_multiply_divide_le(128 * src, 255, q + 1);
}

fn blend_channel(src: u8, dst: u8, alpha: u8) -> (out: u8)
    ensures
        out == spec_blend_channel(src as int, dst as int, alpha as int),
{
    proof {
        lemma_blend_channel_in_range(src as int, dst as int, alpha as int);
        assert(src as u32 * alpha as u32 + dst as u32 * (255 - alpha as u32)
            == src as int * alpha as int + dst as int * (255 - alpha as int)) by (nonlinear_arith)
            requires
                0 <= src <= 255,
                0 <= dst <= 255,
                0 <= alpha <= 255,
        ;
    }
    let wide: u32 = src as u32 * alpha as u32 + dst as u32 * (255 - alpha as u32);
    (wide / 255) as u8
}

/// Blend the source pixel over the destination pixel.
pub fn blend(dst: Pixel, src: Pixel) -> (out: Pixel)
    ensures
        out == spec_blend(dst, src),
{
    if src.a == 0 {
        dst
    } else if src.a == 255 {
        Pixel { r: src.r, g: src.g, b: src.b, a: 255 }
    } else {
        Pixel {
            r: blend_channel(src.r, dst.r, src.a),
            g: blend_channel(src.g, dst.g, src.a),
            b: blend_channel(src.b, dst.b, src.a),
            a: blend_channel(src.a, dst.a, src.a),
        }
    }
}

} // verus!
