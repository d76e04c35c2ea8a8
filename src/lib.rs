//! Display brightness as a percentage, over two device back ends.
//!
//! The `linux` module holds the logic of the backlight back end: devices
//! listed under the kernel's backlight registry, values read from their
//! attribute files, and brightness set through the login manager's
//! `SetBrightness` method with a direct attribute write as fallback.
//!
//! The `windows` module holds the logic of the display-configuration back
//! end: logical monitors, their physical monitors and their display-device
//! records correlated by position, and brightness read and written either
//! through DDC/CI (external monitors) or through the video IOCTLs (internal
//! panels).
//!
//! Everything here works on plain values: the system calls are made by the
//! caller, which hands their results in and carries out the actions that the
//! library decides on.
use vstd::prelude::*;

pub mod blocking;
pub mod linux;
pub mod windows;

verus! {

/// The platform-specific cause behind an [`Error`].
#[derive(Clone, Debug, PartialEq, Eq)]
pub enum Cause {
    Backlight(linux::SysError),
    Display(windows::SysError),
}

/// The three kinds of failure that callers branch on.
#[derive(Clone, Debug, PartialEq, Eq)]
pub enum Error {
    /// Getting a list of brightness devices failed.
    ListingDevicesFailed(Cause),
    /// Getting device information failed.
    GettingDeviceInfoFailed { device: String, source: Cause },
    /// Setting brightness failed.
    SettingBrightnessFailed { device: String, source: Cause },
}

} // verus!
