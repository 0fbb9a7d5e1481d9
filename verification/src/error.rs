//! Typed errors reported by the conversion pipeline.

use vstd::prelude::*;

verus! {

/// Every failure the pipeline can report. No error is downgraded to a
/// default image: any failure aborts the whole conversion for the request.
#[derive(Clone, Copy, Debug, PartialEq, Eq, Structural)]
pub enum ShotError {
    /// The raw buffer's length does not match `width * height * bytes_per_pixel`.
    InvalidBufferSize,
    /// The buffer's format tag is not one of the recognized modes.
    UnsupportedMode,
    /// The underlying codec could not be constructed.
    EncoderInitFailure,
    /// The codec rejected an image descriptor or the encode step failed.
    EncodeFailure,
    /// A requested crop region exceeds the source dimensions.
    CropOutOfBounds,
    /// The capture provider could not produce a buffer on this platform.
    CaptureFailed,
}

impl ShotError {
    /// The fixed description for each error kind.
    pub open spec fn spec_message(self) -> Seq<char> {
        match self {
            ShotError::InvalidBufferSize => "buffer length does not match dimensions"@,
            ShotError::UnsupportedMode => "unrecognized capture format tag"@,
            ShotError::EncoderInitFailure => "encoder could not be constructed"@,
            ShotError::EncodeFailure => "encoder rejected the image"@,
            ShotError::CropOutOfBounds => "crop region exceeds source dimensions"@,
            ShotError::CaptureFailed => "screen capture failed on this platform"@,
        }
    }

    /// A human-readable description of the error.
    pub fn message(&self) -> (r: &'static str)
        ensures
            r@ == self.spec_message(),
    {
        match self {
            ShotError::InvalidBufferSize => "buffer length does not match dimensions",
            ShotError::UnsupportedMode => "unrecognized capture format tag",
            ShotError::EncoderInitFailure => "encoder could not be constructed",
            ShotError::EncodeFailure => "encoder rejected the image",
            ShotError::CropOutOfBounds => "crop region exceeds source dimensions",
            ShotError::CaptureFailed => "screen capture failed on this platform",
        }
    }
}

} // verus!
