//! The Linux provider: capture is not implemented on this platform.

use vstd::prelude::*;

use crate::api::CaptureResult;
use crate::error::ShotError;

verus! {

/// Always fails: Linux screen capture is not implemented.
pub fn take_full_screen_internal() -> (r: Result<CaptureResult, ShotError>)
    ensures
        r == Err::<CaptureResult, ShotError>(ShotError::CaptureFailed),
{
    Err(ShotError::CaptureFailed)
}

/// Screen capture is not available on Linux.
pub fn is_supported() -> (r: bool)
    ensures
        !r,
{
    false
}

/// This provider's platform name.
pub fn platform_name() -> (r: &'static str)
    ensures
        r@ == "linux"@,
{
    "linux"
}

} // verus!
