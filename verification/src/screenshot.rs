//! Capture providers, one per platform.
//!
//! Each provider reports its name and whether capture is available; the
//! host selects one at startup. The Windows and macOS providers drive their
//! platform's capture API from the host integration; the Linux and
//! fallback providers only report failure.

use vstd::prelude::*;

pub mod fallback;
pub mod linux;
pub mod macos;
pub mod windows;

verus! {

/// The platform the host selected at startup.
#[derive(Clone, Copy, Debug, PartialEq, Eq, Structural)]
pub enum Platform {
    Windows,
    MacOs,
    Linux,
    Unknown,
}

/// The name each platform's provider reports.
pub open spec fn spec_platform_name(p: Platform) -> Seq<char> {
    match p {
        Platform::Windows => "windows"@,
        Platform::MacOs => "macos"@,
        Platform::Linux => "linux"@,
        Platform::Unknown => "unknown"@,
    }
}

/// Whether the selected platform has a working capture provider.
pub fn is_supported(p: Platform) -> (r: bool)
    ensures
        r == (p == Platform::Windows || p == Platform::MacOs),
{
    match p {
        Platform::Windows => windows::is_supported(),
        Platform::MacOs => macos::is_supported(),
        Platform::Linux => linux::is_supported(),
        Platform::Unknown => fallback::is_supported(),
    }
}

/// The selected platform provider's name.
pub fn platform_name(p: Platform) -> (r: String)
    ensures
        r@ == spec_platform_name(p),
{
    let s = match p {
        Platform::Windows => windows::platform_name(),
        Platform::MacOs => macos::platform_name(),
        Platform::Linux => linux::platform_name(),
        Platform::Unknown => fallback::platform_name(),
    };
    s.to_owned()
}

} // verus!
