//! Assembly of the device buffers the encoder consumes.
//!
//! All builders preserve raster order: byte group `i` of an output buffer
//! comes from pixel `i` of the input. This correspondence is load-bearing:
//! the encoder pairs pixel `i` of the base buffer with pixel `i` of the
//! gain-map buffer.

use vstd::prelude::*;

use crate::pixel::{GainPixel, Rgba16, Rgba8};

verus! {

/// The packed 32-bit word of a gain-map pixel: R in bits 0–9, G in bits
/// 10–19, B in bits 20–29, A in bits 30–31.
pub open spec fn spec_gain_word(p: GainPixel) -> u32
    recommends
        p.valid(),
{
    (p.r + 1024 * p.g + 1048576 * p.b + 1073741824 * p.a) as u32
}

/// Byte `k` of a 32-bit word in little-endian order.
pub open spec fn spec_le32_byte(w: u32, k: int) -> u8 {
    if k == 0 {
        (w % 256) as u8
    } else if k == 1 {
        ((w / 256) % 256) as u8
    } else if k == 2 {
        ((w / 65536) % 256) as u8
    } else {
        (w / 16777216) as u8
    }
}

/// Byte `k` of an SDR base pixel in (R, G, B, A) order.
pub open spec fn spec_sdr_byte(p: Rgba8, k: int) -> u8 {
    if k == 0 {
        p.r
    } else if k == 1 {
        p.g
    } else if k == 2 {
        p.b
    } else {
        p.a
    }
}

/// Byte `k` of a 16-bit-per-channel pixel, channels in (R, G, B, A) order,
/// each channel little-endian.
pub open spec fn spec_rgba16_byte(p: Rgba16, k: int) -> u8 {
    if k == 0 {
        (p.r % 256) as u8
    } else if k == 1 {
        (p.r / 256) as u8
    } else if k == 2 {
        (p.g % 256) as u8
    } else if k == 3 {
        (p.g / 256) as u8
    } else if k == 4 {
        (p.b % 256) as u8
    } else if k == 5 {
        (p.b / 256) as u8
    } else if k == 6 {
        (p.a % 256) as u8
    } else {
        (p.a / 256) as u8
    }
}

/// Packs one quantized gain-map pixel into its 32-bit word.
pub fn pack_rgba1010102(p: &GainPixel) -> (w: u32)
    requires
        p.valid(),
    ensures
        w == spec_gain_word(*p),
{
    let w: u32 = (p.r as u32) | ((p.g as u32) << 10u32) | ((p.b as u32) << 20u32) | ((
    p.a as u32) << 30u32);
    proof {
        let (r, g, b, a) = (p.r, p.g, p.b, p.a);
        assert(((r as u32) | ((g as u32) << 10u32) | ((b as u32) << 20u32) | ((a as u32)
            << 30u32)) == (r as u32) + 1024 * (g as u32) + 1048576 * (b as u32) + 1073741824 * (
        a as u32)) by (bit_vector)
            requires
                r < 1024 && g < 1024 && b < 1024 && a < 4,
        ;
    }
    w
}

/// Emits the SDR base buffer: 4 bytes per pixel, (R, G, B, A), raster order.
pub fn build_sdr_base(pixels: &Vec<Rgba8>) -> (r: Vec<u8>)
    ensures
        r.len() == 4 * pixels.len(),
        forall|t: int| 0 <= t < r.len() ==> r[t] == spec_sdr_byte(pixels[t / 4], t % 4),
{
    let mut out: Vec<u8> = Vec::new();
    let mut i: usize = 0;
    while i < pixels.len()
        invariant
            i <= pixels.len(),
            out.len() == 4 * i,
            forall|t: int| 0 <= t < out.len() ==> out[t] == spec_sdr_byte(pixels[t / 4], t % 4),
        decreases pixels.len() - i,
    {
        let p = pixels[i];
        out.push(p.r);
        out.push(p.g);
        out.push(p.b);
        out.push(p.a);
        i = i + 1;
    }
    out
}

/// Emits the gain-map buffer: one packed little-endian 32-bit word per
/// pixel, raster order.
pub fn build_gain_map(pixels: &Vec<GainPixel>) -> (r: Vec<u8>)
    requires
        forall|i: int| 0 <= i < pixels.len() ==> pixels[i].valid(),
    ensures
        r.len() == 4 * pixels.len(),
        forall|t: int|
            0 <= t < r.len() ==> r[t] == spec_le32_byte(spec_gain_word(pixels[t / 4]), t % 4),
{
    let mut out: Vec<u8> = Vec::new();
    let mut i: usize = 0;
    while i < pixels.len()
        invariant
            i <= pixels.len(),
            out.len() == 4 * i,
            forall|i: int| 0 <= i < pixels.len() ==> pixels[i].valid(),
            forall|t: int|
                0 <= t < out.len() ==> out[t] == spec_le32_byte(spec_gain_word(pixels[t / 4]), t % 4),
        decreases pixels.len() - i,
    {
        let w = pack_rgba1010102(&pixels[i]);
        out.push((w % 256) as u8);
        out.push(((w / 256) % 256) as u8);
        out.push(((w / 65536) % 256) as u8);
        out.push((w / 16777216) as u8);
        i = i + 1;
    }
    out
}

/// Emits the single-layer HDR buffer: 8 bytes per pixel, channels
/// (R, G, B, A) each little-endian, raster order.
pub fn build_hdr16(pixels: &Vec<Rgba16>) -> (r: Vec<u8>)
    ensures
        r.len() == 8 * pixels.len(),
        forall|t: int| 0 <= t < r.len() ==> r[t] == spec_rgba16_byte(pixels[t / 8], t % 8),
{
    let mut out: Vec<u8> = Vec::new();
    let mut i: usize = 0;
    while i < pixels.len()
        invariant
            i <= pixels.len(),
            out.len() == 8 * i,
            forall|t: int| 0 <= t < out.len() ==> out[t] == spec_rgba16_byte(pixels[t / 8], t % 8),
        decreases pixels.len() - i,
    {
        let p = pixels[i];
        out.push((p.r % 256) as u8);
        out.push((p.r / 256) as u8);
        out.push((p.g % 256) as u8);
        out.push((p.g / 256) as u8);
        out.push((p.b % 256) as u8);
        out.push((p.b / 256) as u8);
        out.push((p.a % 256) as u8);
        out.push((p.a / 256) as u8);
        i = i + 1;
    }
    out
}

/// The two aligned layers of a gain-map frame: the 8-bit SDR base buffer
/// and the packed 10-bit HDR gain-map buffer, pixel `i` of one matching
/// pixel `i` of the other.
pub struct GainMapImage {
    pub base: Vec<u8>,
    pub gain_map: Vec<u8>,
    pub width: u32,
    pub height: u32,
}

/// Assembles both layers of a gain-map frame from the two quantized pixel
/// arrays, which describe the same pixels in the same raster order.
pub fn pack_gain_map(
    sdr: &Vec<Rgba8>,
    hdr: &Vec<GainPixel>,
    width: u32,
    height: u32,
) -> (r: GainMapImage)
    requires
        sdr.len() == width * height,
        hdr.len() == sdr.len(),
        forall|i: int| 0 <= i < hdr.len() ==> hdr[i].valid(),
    ensures
        r.width == width,
        r.height == height,
        r.base.len() == 4 * sdr.len(),
        r.gain_map.len() == 4 * hdr.len(),
        forall|t: int| 0 <= t < r.base.len() ==> r.base[t] == spec_sdr_byte(sdr[t / 4], t % 4),
        forall|t: int|
            0 <= t < r.gain_map.len() ==> r.gain_map[t] == spec_le32_byte(
                spec_gain_word(hdr[t / 4]),
                t % 4,
            ),
{
    let base = build_sdr_base(sdr);
    let gain_map = build_gain_map(hdr);
    GainMapImage { base, gain_map, width, height }
}

/// A pixel-uniform frame packs to identical gain-map words: the packer
/// preserves per-pixel uniformity.
pub proof fn lemma_uniform_gain_words(ps: Seq<GainPixel>, p: GainPixel)
    requires
        forall|i: int| 0 <= i < ps.len() ==> ps[i] == p,
    ensures
        forall|i: int| 0 <= i < ps.len() ==> spec_gain_word(ps[i]) == spec_gain_word(p),
{
}

} // verus!
