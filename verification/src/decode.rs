//! Interpretation of raw capture bytes as flat pixel arrays.

use vstd::prelude::*;

use crate::pixel::{HalfPixel, Rgba8};

verus! {

/// The pixel that a 4-byte (B, G, R, A) group decodes to.
pub open spec fn spec_sdr_pixel(bytes: Seq<u8>, i: int) -> Rgba8 {
    Rgba8 {
        r: bytes[4 * i + 2],
        g: bytes[4 * i + 1],
        b: bytes[4 * i],
        a: bytes[4 * i + 3],
    }
}

/// The pixel that an 8-byte group of four little-endian half-float channel
/// encodings (R, G, B, A) decodes to.
pub open spec fn spec_hdr_pixel(bytes: Seq<u8>, i: int) -> HalfPixel {
    HalfPixel {
        r: (bytes[8 * i] + 256 * bytes[8 * i + 1]) as u16,
        g: (bytes[8 * i + 2] + 256 * bytes[8 * i + 3]) as u16,
        b: (bytes[8 * i + 4] + 256 * bytes[8 * i + 5]) as u16,
        a: (bytes[8 * i + 6] + 256 * bytes[8 * i + 7]) as u16,
    }
}

/// Decodes an 8-bit BGRA buffer of exactly `count` pixels into (R, G, B, A)
/// channel order, preserving raster order.
pub fn decode_sdr_bgra(bytes: &Vec<u8>, count: usize) -> (r: Vec<Rgba8>)
    requires
        bytes.len() == 4 * count,
    ensures
        r.len() == count,
        forall|i: int| 0 <= i < count ==> r[i] == spec_sdr_pixel(bytes@, i),
{
    let mut out: Vec<Rgba8> = Vec::new();
    let mut i: usize = 0;
    while i < count
        invariant
            bytes.len() == 4 * count,
            i <= count,
            out.len() == i,
            forall|j: int| 0 <= j < i ==> out[j] == spec_sdr_pixel(bytes@, j),
        decreases count - i,
    {
        let base: usize = 4 * i;
        let px = Rgba8 {
            r: bytes[base + 2],
            g: bytes[base + 1],
            b: bytes[base],
            a: bytes[base + 3],
        };
        out.push(px);
        i = i + 1;
    }
    out
}

/// Decodes a half-float RGBA buffer of exactly `count` pixels, assembling
/// each 16-bit channel encoding from its two little-endian bytes and
/// preserving raster order.
pub fn decode_hdr_half(bytes: &Vec<u8>, count: usize) -> (r: Vec<HalfPixel>)
    requires
        bytes.len() == 8 * count,
    ensures
        r.len() == count,
        forall|i: int| 0 <= i < count ==> r[i] == spec_hdr_pixel(bytes@, i),
{
    let mut out: Vec<HalfPixel> = Vec::new();
    let mut i: usize = 0;
    while i < count
        invariant
            bytes.len() == 8 * count,
            i <= count,
            out.len() == i,
            forall|j: int| 0 <= j < i ==> out[j] == spec_hdr_pixel(bytes@, j),
        decreases count - i,
    {
        let base: usize = 8 * i;
        let px = HalfPixel {
            r: bytes[base] as u16 + 256 * (bytes[base + 1] as u16),
            g: bytes[base + 2] as u16 + 256 * (bytes[base + 3] as u16),
            b: bytes[base + 4] as u16 + 256 * (bytes[base + 5] as u16),
            a: bytes[base + 6] as u16 + 256 * (bytes[base + 7] as u16),
        };
        out.push(px);
        i = i + 1;
    }
    out
}

/// A byte-periodic raw buffer decodes to a pixel-uniform frame: when every
/// 8-byte group repeats the first one, every decoded half-float pixel
/// equals pixel 0, so decoding preserves uniformity.
pub proof fn lemma_uniform_raw_decodes_uniform(bytes: Seq<u8>, count: int)
    requires
        0 <= count,
        bytes.len() == 8 * count,
        forall|j: int| 0 <= j < bytes.len() ==> #[trigger] bytes[j] == bytes[j % 8],
    ensures
        forall|i: int|
            0 <= i < count ==> #[trigger] spec_hdr_pixel(bytes, i) == spec_hdr_pixel(bytes, 0),
{
    assert forall|i: int| 0 <= i < count implies #[trigger] spec_hdr_pixel(bytes, i)
        == spec_hdr_pixel(
        bytes,
        0,
    ) by {
        lemma_mod8(i, 0);
        lemma_mod8(i, 1);
        lemma_mod8(i, 2);
        lemma_mod8(i, 3);
        lemma_mod8(i, 4);
        lemma_mod8(i, 5);
        lemma_mod8(i, 6);
        lemma_mod8(i, 7);
        assert(bytes[8 * i] == bytes[0]);
        assert(bytes[8 * i + 1] == bytes[1]);
        assert(bytes[8 * i + 2] == bytes[2]);
        assert(bytes[8 * i + 3] == bytes[3]);
        assert(bytes[8 * i + 4] == bytes[4]);
        assert(bytes[8 * i + 5] == bytes[5]);
        assert(bytes[8 * i + 6] == bytes[6]);
        assert(bytes[8 * i + 7] == bytes[7]);
    }
}

/// Within an 8-byte group, the offset of a byte is its index modulo 8.
proof fn lemma_mod8(i: int, k: int)
    by (nonlinear_arith)
    requires
        0 <= i,
        0 <= k < 8,
    ensures
        (8 * i + k) % 8 == k,
{
}

} // verus!
