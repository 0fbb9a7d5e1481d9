//! The error-reporting provider for platforms without screen capture.

use vstd::prelude::*;

use crate::api::CaptureResult;
use crate::error::ShotError;

verus! {

/// Always fails: this platform has no capture provider.
pub fn take_full_screen_internal() -> (r: Result<CaptureResult, ShotError>)
    ensures
        r == Err::<CaptureResult, ShotError>(ShotError::CaptureFailed),
{
    Err(ShotError::CaptureFailed)
}

/// Screen capture is not available here.
pub fn is_supported() -> (r: bool)
    ensures
        !r,
{
    false
}

/// The fallback provider reports an unknown platform.
pub fn platform_name() -> (r: &'static str)
    ensures
        r@ == "unknown"@,
{
    "unknown"
}

} // verus!
