//! Capture format tags and their byte-level geometry.

use vstd::prelude::*;

use crate::error::ShotError;

verus! {

/// The two raw-buffer encodings the pipeline accepts. The tag fully
/// determines how the bytes are interpreted: the buffer itself carries no
/// color-space metadata.
#[derive(Clone, Copy, Debug, PartialEq, Eq, Structural)]
pub enum CaptureMode {
    /// 8-bit integer channels in byte order (B, G, R, A), sRGB gamma-encoded.
    Sdr8Bgra,
    /// 16-bit half-float channels in order (R, G, B, A), linear scRGB where
    /// 1.0 is SDR reference white.
    Hdr16FloatRgba,
}

impl CaptureMode {
    /// How many bytes one pixel occupies in the raw buffer.
    pub open spec fn spec_bytes_per_pixel(self) -> int {
        match self {
            CaptureMode::Sdr8Bgra => 4,
            CaptureMode::Hdr16FloatRgba => 8,
        }
    }

    /// Executable counterpart of [`Self::spec_bytes_per_pixel`].
    pub fn bytes_per_pixel(&self) -> (r: u8)
        ensures
            r as int == self.spec_bytes_per_pixel(),
    {
        match self {
            CaptureMode::Sdr8Bgra => 4,
            CaptureMode::Hdr16FloatRgba => 8,
        }
    }

    /// Which mode a capture provider's format tag denotes, if any.
    ///
    /// The Windows provider captures half-float frames under the tag
    /// `full_screen`; the macOS provider distinguishes `hdr_macos` and
    /// `sdr_macos`.
    pub open spec fn spec_of_tag(tag: Seq<char>) -> Option<CaptureMode> {
        if tag == "full_screen"@ || tag == "hdr_macos"@ {
            Some(CaptureMode::Hdr16FloatRgba)
        } else if tag == "sdr_macos"@ {
            Some(CaptureMode::Sdr8Bgra)
        } else {
            None
        }
    }

    /// Parses a format tag, rejecting anything unrecognized.
    pub fn of_tag(tag: &String) -> (r: Result<CaptureMode, ShotError>)
        ensures
            match CaptureMode::spec_of_tag(tag@) {
                Some(m) => r == Ok::<CaptureMode, ShotError>(m),
                None => r == Err::<CaptureMode, ShotError>(ShotError::UnsupportedMode),
            },
    {
        let full_screen: String = "full_screen".to_owned();
        let hdr_macos: String = "hdr_macos".to_owned();
        let sdr_macos: String = "sdr_macos".to_owned();
        if *tag == full_screen || *tag == hdr_macos {
            Ok(CaptureMode::Hdr16FloatRgba)
        } else if *tag == sdr_macos {
            Ok(CaptureMode::Sdr8Bgra)
        } else {
            Err(ShotError::UnsupportedMode)
        }
    }
}

} // verus!
