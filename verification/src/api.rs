//! The captured frame and the operations a caller performs on it.

use vstd::prelude::*;
use vstd::arithmetic::div_mod::{
    lemma_fundamental_div_mod, lemma_fundamental_div_mod_converse, lemma_mod_multiples_basic,
};
use vstd::arithmetic::mul::lemma_mul_upper_bound;

use crate::decode::{decode_hdr_half, decode_sdr_bgra, spec_hdr_pixel, spec_sdr_pixel};
use crate::error::ShotError;
use crate::mode::CaptureMode;
use crate::pixel::{HalfPixel, Rgba8};

verus! {

/// One raw frame as a capture provider hands it over: the bytes, the
/// dimensions, and the format tag that alone determines how the bytes are
/// read.
pub struct CaptureResult {
    pub mode: String,
    pub raw_data: Vec<u8>,
    pub frame_width: u32,
    pub frame_height: u32,
}

/// The flat pixel array a raw buffer decodes to, in raster order
/// (row-major, top-to-bottom, left-to-right).
pub enum DecodedImage {
    /// 8-bit pixels, reordered from BGRA to RGBA.
    Sdr(Vec<Rgba8>),
    /// Half-float pixels, each channel as its 16-bit encoding.
    Hdr(Vec<HalfPixel>),
}

/// The byte length a buffer of the given geometry must have.
pub open spec fn spec_expected_len(width: u32, height: u32, m: CaptureMode) -> int {
    width * height * m.spec_bytes_per_pixel()
}

/// The flat source position that byte `j` of a `width`-pixel-wide crop at
/// `(x, y)` reads, in a source buffer `frame_width` pixels wide with `bpp`
/// bytes per pixel.
pub open spec fn spec_crop_src_index(
    frame_width: int,
    bpp: int,
    x: int,
    y: int,
    width: int,
    j: int,
) -> int {
    ((y + j / (width * bpp)) * frame_width + x) * bpp + j % (width * bpp)
}

impl CaptureResult {
    /// The mode the frame's tag denotes, if it is recognized.
    pub open spec fn spec_mode(self) -> Option<CaptureMode> {
        CaptureMode::spec_of_tag(self.mode@)
    }

    /// The buffer's length matches its declared geometry under mode `m`.
    pub open spec fn spec_size_matches(self, m: CaptureMode) -> bool {
        self.raw_data.len() == spec_expected_len(self.frame_width, self.frame_height, m)
    }

    /// Checks the format tag and the buffer length, yielding the mode.
    ///
    /// A length mismatch is a terminal error: the buffer is never silently
    /// truncated or zero-padded.
    pub fn checked_mode(&self) -> (r: Result<CaptureMode, ShotError>)
        ensures
            match self.spec_mode() {
                Some(m) => r == if self.spec_size_matches(m) {
                    Ok::<CaptureMode, ShotError>(m)
                } else {
                    Err::<CaptureMode, ShotError>(ShotError::InvalidBufferSize)
                },
                None => r == Err::<CaptureMode, ShotError>(ShotError::UnsupportedMode),
            },
    {
        let m = match CaptureMode::of_tag(&self.mode) {
            Ok(m) => m,
            Err(e) => {
                return Err(e);
            },
        };
        let bpp = m.bytes_per_pixel();
        proof {
            lemma_mul_upper_bound(
                self.frame_width as int,
                0xffff_ffff,
                self.frame_height as int,
                0xffff_ffff,
            );
            lemma_mul_upper_bound(
                self.frame_width * self.frame_height,
                0xffff_ffffint * 0xffff_ffffint,
                bpp as int,
                8,
            );
        }
        let expected: u128 = (self.frame_width as u128) * (self.frame_height as u128) * (
        bpp as u128);
        if (self.raw_data.len() as u128) != expected {
            return Err(ShotError::InvalidBufferSize);
        }
        Ok(m)
    }

    /// Decodes the raw buffer into a flat pixel array.
    ///
    /// Succeeds exactly when the tag is recognized and the byte length
    /// equals `width * height * bytes_per_pixel(mode)`; a shorter or longer
    /// buffer yields `InvalidBufferSize`, an unrecognized tag
    /// `UnsupportedMode`.
    pub fn decode(&self) -> (r: Result<DecodedImage, ShotError>)
        ensures
            r is Ok <==> (self.spec_mode() is Some && self.spec_size_matches(
                self.spec_mode()->Some_0,
            )),
            self.spec_mode() is None ==> r == Err::<DecodedImage, ShotError>(
                ShotError::UnsupportedMode,
            ),
            (self.spec_mode() is Some && !self.spec_size_matches(self.spec_mode()->Some_0))
                ==> r == Err::<DecodedImage, ShotError>(ShotError::InvalidBufferSize),
            r matches Ok(DecodedImage::Sdr(ps)) ==> {
                &&& self.spec_mode() == Some(CaptureMode::Sdr8Bgra)
                &&& ps.len() == self.frame_width * self.frame_height
                &&& forall|i: int| 0 <= i < ps.len() ==> ps[i] == spec_sdr_pixel(self.raw_data@, i)
            },
            r matches Ok(DecodedImage::Hdr(ps)) ==> {
                &&& self.spec_mode() == Some(CaptureMode::Hdr16FloatRgba)
                &&& ps.len() == self.frame_width * self.frame_height
                &&& forall|i: int| 0 <= i < ps.len() ==> ps[i] == spec_hdr_pixel(self.raw_data@, i)
            },
            r matches Ok(img) ==> (img is Sdr <==> self.spec_mode() == Some(
                CaptureMode::Sdr8Bgra,
            )),
    {
        let m = self.checked_mode()?;
        let len = self.raw_data.len();
        match m {
            CaptureMode::Sdr8Bgra => {
                let count = len / 4;
                proof {
                    lemma_mod_multiples_basic(
                        self.frame_width * self.frame_height as int,
                        4int,
                    );
                    lemma_fundamental_div_mod(len as int, 4int);
                }
                Ok(DecodedImage::Sdr(decode_sdr_bgra(&self.raw_data, count)))
            },
            CaptureMode::Hdr16FloatRgba => {
                let count = len / 8;
                proof {
                    lemma_mod_multiples_basic(
                        self.frame_width * self.frame_height as int,
                        8int,
                    );
                    lemma_fundamental_div_mod(len as int, 8int);
                }
                Ok(DecodedImage::Hdr(decode_hdr_half(&self.raw_data, count)))
            },
        }
    }

    /// Extracts the `width × height` region whose top-left corner is
    /// `(x, y)`, keeping the mode and raster order. This is pure byte
    /// slicing and carries no color semantics.
    ///
    /// Fails with `CropOutOfBounds` exactly when the region exceeds the
    /// source dimensions.
    #[verifier::loop_isolation(false)]
    pub fn crop(&self, x: u32, y: u32, width: u32, height: u32) -> (r: Result<
        CaptureResult,
        ShotError,
    >)
        ensures
            r is Ok <==> (self.spec_mode() is Some && self.spec_size_matches(
                self.spec_mode()->Some_0,
            ) && x + width <= self.frame_width && y + height <= self.frame_height),
            self.spec_mode() is None ==> r == Err::<CaptureResult, ShotError>(
                ShotError::UnsupportedMode,
            ),
            (self.spec_mode() is Some && !self.spec_size_matches(self.spec_mode()->Some_0))
                ==> r == Err::<CaptureResult, ShotError>(ShotError::InvalidBufferSize),
            (self.spec_mode() is Some && self.spec_size_matches(self.spec_mode()->Some_0) && !(x
                + width <= self.frame_width && y + height <= self.frame_height)) ==> r == Err::<
                CaptureResult,
                ShotError,
            >(ShotError::CropOutOfBounds),
            r matches Ok(c) ==> {
                let bpp = self.spec_mode()->Some_0.spec_bytes_per_pixel();
                &&& c.mode@ == self.mode@
                &&& c.frame_width == width
                &&& c.frame_height == height
                &&& c.raw_data.len() == width * height * bpp
                &&& forall|j: int|
                    0 <= j < c.raw_data.len() ==> c.raw_data[j] == self.raw_data[
                        spec_crop_src_index(
                            self.frame_width as int,
                            bpp,
                            x as int,
                            y as int,
                            width as int,
                            j,
                        )
                    ]
            },
    {
        let m = self.checked_mode()?;
        if !(x <= self.frame_width && width <= self.frame_width - x && y <= self.frame_height
            && height <= self.frame_height - y) {
            return Err(ShotError::CropOutOfBounds);
        }
        let bpp: u8 = m.bytes_per_pixel();
        proof {
            lemma_mul_upper_bound(width as int, 0xffff_ffffint, bpp as int, 8int);
        }
        let row_len: u64 = (width as u64) * (bpp as u64);
        let fw: u64 = self.frame_width as u64;
        let mut out: Vec<u8> = Vec::new();
        let mut row: u32 = 0;
        while row < height
            invariant
                row <= height,
                out.len() == row * (row_len as int),
                forall|t: int|
                    0 <= t < out.len() ==> out[t] == self.raw_data[
                        spec_crop_src_index(
                            self.frame_width as int,
                            bpp as int,
                            x as int,
                            y as int,
                            width as int,
                            t,
                        )
                    ],
            decreases height - row,
        {
            let mut j: u64 = 0;
            while j < row_len
                invariant
                    j <= row_len,
                    out.len() == row * (row_len as int) + j,
                    forall|t: int|
                        0 <= t < out.len() ==> out[t] == self.raw_data[
                            spec_crop_src_index(
                                self.frame_width as int,
                                bpp as int,
                                x as int,
                                y as int,
                                width as int,
                                t,
                            )
                        ],
                decreases row_len - j,
            {
                proof {
                    lemma_crop_src_in_bounds(
                        self.frame_width as int,
                        self.frame_height as int,
                        bpp as int,
                        x as int,
                        y as int,
                        width as int,
                        row as int,
                        j as int,
                    );
                }
                let pos: u64 = (y as u64 + row as u64) * fw + x as u64;
                let src: u64 = pos * (bpp as u64) + j;
                out.push(self.raw_data[src as usize]);
                proof {
                    let t = out.len() - 1;
                    lemma_fundamental_div_mod_converse(
                        t as int,
                        row_len as int,
                        row as int,
                        j as int,
                    );
                }
                j = j + 1;
            }
            proof {
                assert((row + 1) * (row_len as int) == row * (row_len as int) + row_len)
                    by (nonlinear_arith);
            }
            row = row + 1;
        }
        proof {
            assert((height as int) * (row_len as int) == width * height * (bpp as int))
                by (nonlinear_arith)
                requires
                    row_len == width * bpp,
            ;
        }
        Ok(
            CaptureResult {
                mode: self.mode.clone(),
                raw_data: out,
                frame_width: width,
                frame_height: height,
            },
        )
    }
}

/// Every byte a crop reads lies inside the source buffer: for row `row` of
/// the region and offset `j` within that row, the source position is
/// below `frame_width * frame_height * bpp`.
proof fn lemma_crop_src_in_bounds(
    fw: int,
    fh: int,
    bpp: int,
    x: int,
    y: int,
    w: int,
    row: int,
    j: int,
)
    by (nonlinear_arith)
    requires
        0 <= x,
        0 <= y,
        0 <= row,
        0 < bpp,
        0 <= j < w * bpp,
        y + row < fh,
        x + w <= fw,
        fw <= 0xffff_ffff,
        fh <= 0xffff_ffff,
        bpp <= 8,
    ensures
        0 <= (y + row) * fw,
        (y + row) * fw + x < fw * fh,
        fw * fh <= 0xffff_ffffint * 0xffff_ffffint,
        0 <= ((y + row) * fw + x) * bpp + j < fw * fh * bpp,
        ((y + row) * fw + x) * bpp <= ((y + row) * fw + x) * bpp + j,
{
}

} // verus!
