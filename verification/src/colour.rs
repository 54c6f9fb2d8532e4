//! Colours for markers, labels and feedback overlays, with an exact
//! integer-arithmetic linear interpolation.

use vstd::prelude::*;

verus! {

/// An opaque colour with 8-bit channels.
#[derive(Clone, Copy, Debug, PartialEq, Eq, Structural)]
pub struct Rgb {
    pub r: u8,
    pub g: u8,
    pub b: u8,
}

/// A colour with 8-bit channels and an alpha given in per-mille
/// (1000 means fully opaque).
#[derive(Clone, Copy, Debug, PartialEq, Eq, Structural)]
pub struct Rgba {
    pub r: u8,
    pub g: u8,
    pub b: u8,
    pub alpha_pm: u16,
}

/// One channel of a linear interpolation by the fraction `num / den`,
/// rounding down.
pub open spec fn lerp_channel(start: int, end: int, num: int, den: int) -> int {
    (start * (den - num) + end * num) / den
}

/// A weighted mean of two channel values stays within the channel range.
proof fn lemma_lerp_channel_in_range(start: int, end: int, num: int, den: int)
    requires
        0 <= start <= 255,
        0 <= end <= 255,
        0 <= num <= den,
        0 < den,
    ensures
        0 <= lerp_channel(start, end, num, den) <= 255,
{
    assert(0 <= start * (den - num) + end * num <= 255 * den) by (nonlinear_arith)
        requires
            0 <= start <= 255,
            0 <= end <= 255,
            0 <= num <= den,
            0 < den,
    ;
    assert(0 <= (start * (den - num) + end * num) / den <= 255) by (nonlinear_arith)
        requires
            0 <= start * (den - num) + end * num <= 255 * den,
            0 < den,
    ;
}

/// A channel value weighted by an interpolation factor stays far from the
/// 64-bit bounds.
proof fn lemma_channel_product_bound(ch: int, w: int)
    requires
        0 <= ch <= 255,
        0 <= w <= 0x10_0000_0000,
    ensures
        0 <= ch * w <= 255 * 0x10_0000_0000,
{
    assert(0 <= ch * w <= 255 * 0x10_0000_0000) by (nonlinear_arith)
        requires
            0 <= ch <= 255,
            0 <= w <= 0x10_0000_0000,
    ;
}

/// Mixes two colours: `num / den` of the way from `start` to `end`,
/// channel by channel.
pub fn lerp_colour(start: &Rgb, end: &Rgb, num: i64, den: i64) -> (c: Rgb)
    requires
        0 <= num <= den,
        0 < den <= 0x10_0000_0000,
    ensures
        c.r == lerp_channel(start.r as int, end.r as int, num as int, den as int),
        c.g == lerp_channel(start.g as int, end.g as int, num as int, den as int),
        c.b == lerp_channel(start.b as int, end.b as int, num as int, den as int),
{
    proof {
        lemma_lerp_channel_in_range(start.r as int, end.r as int, num as int, den as int);
        lemma_lerp_channel_in_range(start.g as int, end.g as int, num as int, den as int);
        lemma_lerp_channel_in_range(start.b as int, end.b as int, num as int, den as int);
        lemma_channel_product_bound(start.r as int, den - num);
        lemma_channel_product_bound(start.g as int, den - num);
        lemma_channel_product_bound(start.b as int, den - num);
        lemma_channel_product_bound(end.r as int, num as int);
        lemma_channel_product_bound(end.g as int, num as int);
        lemma_channel_product_bound(end.b as int, num as int);
    }
    let r: i64 = ((start.r as i64) * (den - num) + (end.r as i64) * num) / den;
    let g: i64 = ((start.g as i64) * (den - num) + (end.g as i64) * num) / den;
    let b: i64 = ((start.b as i64) * (den - num) + (end.b as i64) * num) / den;
    Rgb { r: r as u8, g: g as u8, b: b as u8 }
}

} // verus!
