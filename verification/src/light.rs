//! Content-light-level metadata for the single-layer HDR path.
//!
//! Per-pixel luminance values arrive as the nits-derived integers the HDR
//! branch computes from the pre-quantization linear BT.2100 triples; this
//! module aggregates them into the frame's `maxCLL` (maximum) and `maxPALL`
//! (rounded mean), computed once per image.

use vstd::prelude::*;
use vstd::arithmetic::div_mod::{lemma_div_is_ordered, lemma_div_multiples_vanish_fancy};
use vstd::arithmetic::mul::{lemma_mul_inequality, lemma_mul_upper_bound};

use crate::pack::{build_hdr16, spec_rgba16_byte};
use crate::pixel::Rgba16;

verus! {

/// The sum of a luminance sequence.
pub open spec fn spec_sum(s: Seq<u16>) -> int
    decreases s.len(),
{
    if s.len() == 0 {
        0
    } else {
        spec_sum(s.drop_last()) + s.last()
    }
}

/// The maximum of a luminance sequence (0 when empty).
pub open spec fn spec_max(s: Seq<u16>) -> int
    decreases s.len(),
{
    if s.len() == 0 {
        0
    } else if s.last() >= spec_max(s.drop_last()) {
        s.last() as int
    } else {
        spec_max(s.drop_last())
    }
}

/// The mean of a non-empty luminance sequence, rounded half away from zero.
pub open spec fn spec_round_mean(s: Seq<u16>) -> int
    recommends
        s.len() > 0,
{
    (2 * spec_sum(s) + s.len()) / (2 * s.len() as int)
}

/// The sum never exceeds the length times the maximum, every element is at
/// most the maximum, and both stay within the 16-bit range.
pub proof fn lemma_luminance_stats(s: Seq<u16>)
    ensures
        0 <= spec_sum(s) <= s.len() * spec_max(s),
        0 <= spec_max(s) <= 65535,
        forall|i: int| 0 <= i < s.len() ==> s[i] <= spec_max(s),
    decreases s.len(),
{
    if s.len() == 0 {
    } else {
        let d = s.drop_last();
        lemma_luminance_stats(d);
        assert(forall|i: int| 0 <= i < d.len() ==> s[i] == d[i]);
        lemma_mul_inequality(spec_max(d), spec_max(s), d.len() as int);
        assert(d.len() as int * spec_max(d) == spec_max(d) * d.len());
        assert(d.len() as int * spec_max(s) == spec_max(s) * d.len());
        assert(spec_sum(s) == spec_sum(d) + s.last());
        assert(s.len() * spec_max(s) == d.len() * spec_max(s) + spec_max(s)) by (nonlinear_arith)
            requires
                s.len() == d.len() + 1,
        ;
    }
}

/// The `maxCLL` and `maxPALL` fields an HDR container carries: maximum and
/// average per-pixel luminance across the frame, in nits-derived units.
#[derive(Clone, Copy, Debug, PartialEq, Eq, Structural)]
pub struct ContentLightLevel {
    pub max_cll: u16,
    pub max_pall: u16,
}

/// Aggregates per-pixel luminance into the frame's light-level metadata:
/// `max_cll` is the maximum, `max_pall` the mean rounded half away from
/// zero. The average never exceeds the maximum.
pub fn content_light_level(brightness: &Vec<u16>) -> (r: ContentLightLevel)
    requires
        brightness.len() > 0,
    ensures
        r.max_cll == spec_max(brightness@),
        r.max_pall == spec_round_mean(brightness@),
        r.max_pall <= r.max_cll,
{
    let n = brightness.len();
    let mut mx: u16 = 0;
    let mut sum: u128 = 0;
    let mut i: usize = 0;
    while i < n
        invariant
            n == brightness.len(),
            i <= n,
            mx == spec_max(brightness@.take(i as int)),
            sum == spec_sum(brightness@.take(i as int)),
            sum <= i * 65535,
        decreases n - i,
    {
        let v = brightness[i];
        proof {
            assert(brightness@.take(i + 1).drop_last() =~= brightness@.take(i as int));
            assert(brightness@.take(i + 1).last() == brightness@[i as int]);
            lemma_mul_upper_bound(i + 1, usize::MAX as int, 65535, 65535);
        }
        if v > mx {
            mx = v;
        }
        sum = sum + (v as u128);
        i = i + 1;
    }
    proof {
        assert(brightness@.take(n as int) =~= brightness@);
        lemma_luminance_stats(brightness@);
        lemma_div_multiples_vanish_fancy(
            spec_max(brightness@),
            n as int,
            2 * n as int,
        );
        assert(2 * spec_sum(brightness@) + n <= 2 * n as int * spec_max(brightness@) + n)
            by (nonlinear_arith)
            requires
                spec_sum(brightness@) <= n as int * spec_max(brightness@),
        ;
        lemma_div_is_ordered(
            2 * spec_sum(brightness@) + n,
            2 * n as int * spec_max(brightness@) + n,
            2 * n as int,
        );
        lemma_div_is_ordered(0, 2 * spec_sum(brightness@) + n, 2 * n as int);
    }
    let pall: u128 = (2 * sum + n as u128) / (2 * (n as u128));
    ContentLightLevel { max_cll: mx, max_pall: pall as u16 }
}

/// For a frame whose per-pixel luminance is uniform, the maximum equals the
/// rounded mean: `maxCLL == maxPALL`.
pub proof fn lemma_uniform_luminance(s: Seq<u16>, v: u16)
    requires
        s.len() > 0,
        forall|i: int| 0 <= i < s.len() ==> s[i] == v,
    ensures
        spec_max(s) == v,
        spec_round_mean(s) == v,
        spec_max(s) == spec_round_mean(s),
{
    lemma_uniform_sum(s, v);
    lemma_div_multiples_vanish_fancy(v as int, s.len() as int, 2 * s.len() as int);
    assert(2 * spec_sum(s) + s.len() == 2 * s.len() as int * v + s.len()) by (nonlinear_arith)
        requires
            spec_sum(s) == s.len() as int * v,
    ;
}

/// A uniform luminance sequence sums to its length times the common value,
/// and its maximum is that value.
proof fn lemma_uniform_sum(s: Seq<u16>, v: u16)
    requires
        s.len() > 0,
        forall|i: int| 0 <= i < s.len() ==> s[i] == v,
    ensures
        spec_sum(s) == s.len() as int * v,
        spec_max(s) == v,
    decreases s.len(),
{
    assert(s.last() == v);
    if s.len() == 1 {
        assert(s.drop_last().len() == 0);
        assert(spec_sum(s.drop_last()) == 0);
        assert(spec_max(s.drop_last()) == 0);
        assert(s.len() as int * v == v) by (nonlinear_arith)
            requires
                s.len() == 1,
        ;
    } else {
        let d = s.drop_last();
        assert(forall|i: int| 0 <= i < d.len() ==> d[i] == v);
        lemma_uniform_sum(d, v);
        assert(spec_sum(s) == spec_sum(d) + v);
        assert(spec_max(s) == v);
        assert(s.len() as int * v == d.len() as int * v + v) by (nonlinear_arith)
            requires
                s.len() == d.len() + 1,
        ;
    }
}

/// The single-layer HDR frame handed to the encoder: the 16-bit pixel
/// buffer and its light-level metadata.
pub struct SingleLayerImage {
    pub pixels: Vec<u8>,
    pub width: u32,
    pub height: u32,
    pub light: ContentLightLevel,
}

/// Assembles the single-layer HDR frame from the quantized pixels and their
/// per-pixel luminance, both in raster order.
pub fn pack_single_layer(
    pixels: &Vec<Rgba16>,
    brightness: &Vec<u16>,
    width: u32,
    height: u32,
) -> (r: SingleLayerImage)
    requires
        pixels.len() == width * height,
        brightness.len() == pixels.len(),
        pixels.len() > 0,
    ensures
        r.width == width,
        r.height == height,
        r.pixels.len() == 8 * pixels.len(),
        forall|t: int|
            0 <= t < r.pixels.len() ==> r.pixels[t] == spec_rgba16_byte(pixels[t / 8], t % 8),
        r.light.max_cll == spec_max(brightness@),
        r.light.max_pall == spec_round_mean(brightness@),
        r.light.max_pall <= r.light.max_cll,
{
    let buf = build_hdr16(pixels);
    let light = content_light_level(brightness);
    SingleLayerImage { pixels: buf, width, height, light }
}

} // verus!
