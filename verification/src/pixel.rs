//! Per-pixel value types exchanged between the decoder, the host's color
//! transforms, and the packers.

use vstd::prelude::*;

verus! {

/// One 8-bit pixel in channel order (R, G, B, A), sRGB gamma-encoded with
/// linear alpha. Produced by the decoder for SDR buffers and consumed as the
/// SDR base layer.
#[derive(Clone, Copy, Debug, PartialEq, Eq, Structural)]
pub struct Rgba8 {
    pub r: u8,
    pub g: u8,
    pub b: u8,
    pub a: u8,
}

/// One pixel of a half-float buffer, each channel kept as the 16-bit
/// encoding of the half-precision value, in channel order (R, G, B, A).
#[derive(Clone, Copy, Debug, PartialEq, Eq, Structural)]
pub struct HalfPixel {
    pub r: u16,
    pub g: u16,
    pub b: u16,
    pub a: u16,
}

/// One 16-bit-per-channel pixel of the single-layer HDR output: R, G, B are
/// PQ-encoded BT.2020 values scaled to `[0, 65535]`, alpha is linear on the
/// same scale.
#[derive(Clone, Copy, Debug, PartialEq, Eq, Structural)]
pub struct Rgba16 {
    pub r: u16,
    pub g: u16,
    pub b: u16,
    pub a: u16,
}

/// One quantized gain-map pixel before bit packing: 10-bit PQ-encoded
/// BT.2020 channels and a 2-bit alpha.
#[derive(Clone, Copy, Debug, PartialEq, Eq, Structural)]
pub struct GainPixel {
    pub r: u16,
    pub g: u16,
    pub b: u16,
    pub a: u8,
}

impl GainPixel {
    /// Each channel fits its field of the packed 32-bit word.
    pub open spec fn valid(self) -> bool {
        self.r < 1024 && self.g < 1024 && self.b < 1024 && self.a < 4
    }
}

} // verus!
