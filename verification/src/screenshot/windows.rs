//! The Windows provider's verifiable surface.
//!
//! The host integration drives the Windows graphics-capture API; the
//! session handler's state and the platform facts live here.

use vstd::prelude::*;

use crate::error::ShotError;

verus! {

/// Values the host hands the capture handler when a session starts.
pub struct CaptureFlags {
    /// The format tag the resulting frame will carry.
    pub mode: String,
}

/// The state of one capture session's frame handler.
pub struct Capture {
    /// Present until the session's single frame has been delivered.
    pub flags: Option<CaptureFlags>,
}

impl Capture {
    /// Builds the handler from the session's flags; construction never
    /// fails.
    pub fn new(flags: CaptureFlags) -> (r: Result<Capture, ShotError>)
        ensures
            r matches Ok(c) && c.flags matches Some(f) && f.mode@ == flags.mode@,
    {
        Ok(Capture { flags: Some(flags) })
    }
}

/// Screen capture is available on Windows.
pub fn is_supported() -> (r: bool)
    ensures
        r,
{
    true
}

/// This provider's platform name.
pub fn platform_name() -> (r: &'static str)
    ensures
        r@ == "windows"@,
{
    "windows"
}

} // verus!
