use vstd::prelude::*;
use vstd::arithmetic::div_mod::{lemma_div_is_ordered, lemma_div_pos_is_pos, lemma_div_multiples_vanish};

verus! {

/// One RGBA pixel, eight bits per channel, alpha not premultiplied.
#[derive(Clone, Copy, PartialEq, Eq, Structural, Debug)]
pub struct Rgba {
    pub r: u8,
    pub g: u8,
    pub b: u8,
    pub a: u8,
}

/// One color channel of source `s` blended over destination `d` with source
/// alpha `a`, by the standard "over" rule `out = src*srcA + dst*(1 - srcA)`
/// on channels scaled to `0..=255`.
pub open spec fn blend_channel_spec(s: int, d: int, a: int) -> int {
    (s * a + d * (255 - a)) / 255
}

/// Alpha accumulation of the "over" rule: `out = srcA + dstA*(1 - srcA)`.
pub open spec fn blend_alpha_spec(sa: int, da: int) -> int {
    sa + da * (255 - sa) / 255
}

pub proof fn lemma_blend_channel_bounds(s: int, d: int, a: int)
    requires
        0 <= s <= 255,
        0 <= d <= 255,
        0 <= a <= 255,
    ensures
        0 <= blend_channel_spec(s, d, a) <= 255,
{
    assert(0 <= s * a + d * (255 - a) <= 255 * 255) by (nonlinear_arith)
        requires
            0 <= s <= 255,
            0 <= d <= 255,
            0 <= a <= 255,
    ;
    lemma_div_pos_is_pos(s * a + d * (255 - a), 255);
    lemma_div_is_ordered(s * a + d * (255 - a), 65025, 255);
}

pub proof fn lemma_blend_alpha_bounds(sa: int, da: int)
    requires
        0 <= sa <= 255,
        0 <= da <= 255,
    ensures
        sa <= blend_alpha_spec(sa, da) <= 255,
{
    assert(0 <= da * (255 - sa) <= 255 * (255 - sa)) by (nonlinear_arith)
        requires
            0 <= sa <= 255,
            0 <= da <= 255,
    ;
    lemma_div_pos_is_pos(da * (255 - sa), 255);
    lemma_div_is_ordered(da * (255 - sa), 255 * (255 - sa), 255);
    lemma_div_multiples_vanish(255 - sa, 255);
}

/// Source pixel `s` blended over destination pixel `d`.
pub open spec fn blend_px_spec(s: Rgba, d: Rgba) -> Rgba {
    Rgba {
        r: blend_channel_spec(s.r as int, d.r as int, s.a as int) as u8,
        g: blend_channel_spec(s.g as int, d.g as int, s.a as int) as u8,
        b: blend_channel_spec(s.b as int, d.b as int, s.a as int) as u8,
        a: blend_alpha_spec(s.a as int, d.a as int) as u8,
    }
}

fn blend_channel(s: u8, d: u8, a: u8) -> (r: u8)
    ensures
        r == blend_channel_spec(s as int, d as int, a as int),
{
    proof {
        lemma_blend_channel_bounds(s as int, d as int, a as int);
    }
    let num: u32 = s as u32 * a as u32 + d as u32 * (255 - a as u32);
    (num / 255) as u8
}

/// Blend pixel `s` over pixel `d` by the "over" rule.
pub fn blend_px(s: Rgba, d: Rgba) -> (r: Rgba)
    ensures
        r == blend_px_spec(s, d),
{
    proof {
        lemma_blend_alpha_bounds(s.a as int, d.a as int);
    }
    let acc: u32 = d.a as u32 * (255 - s.a as u32) / 255;
    Rgba {
        r: blend_channel(s.r, d.r, s.a),
        g: blend_channel(s.g, d.g, s.a),
        b: blend_channel(s.b, d.b, s.a),
        a: s.a + acc as u8,
    }
}

/// A fully opaque source pixel replaces the destination outright: such pixels
/// are fixed points of the "over" operator, whatever lies beneath them.
pub proof fn lemma_blend_opaque_src(s: Rgba, d: Rgba)
    requires
        s.a == 255,
    ensures
        blend_px_spec(s, d) == s,
{
    lemma_div_multiples_vanish(s.r as int, 255);
    lemma_div_multiples_vanish(s.g as int, 255);
    lemma_div_multiples_vanish(s.b as int, 255);
    assert(s.r as int * 255 == 255 * (s.r as int)) by (nonlinear_arith);
    assert(s.g as int * 255 == 255 * (s.g as int)) by (nonlinear_arith);
    assert(s.b as int * 255 == 255 * (s.b as int)) by (nonlinear_arith);
}

} // verus!
