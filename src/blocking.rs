//! The device facade: one type for a resolved device of either back end,
//! and the listing of such devices from what the system reported.
use crate::linux::{self, BacklightDevice, BacklightEntry};
use crate::windows::{self, DisplayDevice, ModeInfo, MonitorRecord};
use crate::Error;
use vstd::prelude::*;

verus! {

/// A resolved device of one of the two back ends.
#[derive(Clone, Debug, PartialEq, Eq)]
pub enum DeviceImpl {
    Backlight(BacklightDevice),
    Display(DisplayDevice),
}

/// A brightness device.
#[derive(Clone, Debug, PartialEq, Eq)]
pub struct BrightnessDevice(pub DeviceImpl);

/// What the system reported, for the back end that it runs.
#[derive(Debug)]
pub enum SystemScan {
    /// The listing of the backlight registry, or why it could not be read.
    Backlight(Result<Vec<Result<BacklightEntry, String>>, String>),
    /// The display configuration and the logical monitors.
    Display {
        config: Result<Vec<ModeInfo>, windows::SysError>,
        monitors: Result<Vec<MonitorRecord>, u32>,
    },
}

/// The name of a device.
pub open spec fn device_name_spec(d: BrightnessDevice) -> String {
    match d.0 {
        DeviceImpl::Backlight(b) => b.device,
        DeviceImpl::Display(w) => w.device_name,
    }
}

/// A backlight result as the facade hands it out.
pub open spec fn from_backlight(x: Result<BacklightDevice, linux::SysError>) -> Result<
    BrightnessDevice,
    Error,
> {
    match x {
        Ok(d) => Ok(BrightnessDevice(DeviceImpl::Backlight(d))),
        Err(e) => Err(linux::error_of(e)),
    }
}

/// A display result as the facade hands it out.
pub open spec fn from_display(x: Result<DisplayDevice, windows::SysError>) -> Result<
    BrightnessDevice,
    Error,
> {
    match x {
        Ok(d) => Ok(BrightnessDevice(DeviceImpl::Display(d))),
        Err(e) => Err(windows::error_of(e)),
    }
}

/// The devices that a scan shows, in the back end's order, each failure
/// turned into its caller-visible kind.
pub open spec fn scan_devices(scan: SystemScan) -> Seq<Result<BrightnessDevice, Error>> {
    match scan {
        SystemScan::Backlight(listing) => linux::listing_devices(
            match listing {
                Ok(entries) => Ok(entries@),
                Err(reason) => Err(reason),
            },
        ).map_values(|x| from_backlight(x)),
        SystemScan::Display { config, monitors } => windows::devices_spec(
            match config {
                Ok(modes) => Ok(modes@),
                Err(e) => Err(e),
            },
            match monitors {
                Ok(ms) => Ok(ms@),
                Err(code) => Err(code),
            },
        ).map_values(|x| from_display(x)),
    }
}

impl BrightnessDevice {
    /// The device's name.
    pub fn device_name(&self) -> (r: Result<String, Error>)
        ensures
            r == Ok::<String, Error>(device_name_spec(*self)),
    {
        match &self.0 {
            DeviceImpl::Backlight(b) => Ok(b.device.clone()),
            DeviceImpl::Display(w) => Ok(w.device_name.clone()),
        }
    }
}

/// The brightness devices that a scan of the system shows.
pub fn brightness_devices(scan: SystemScan) -> (r: Vec<Result<BrightnessDevice, Error>>)
    ensures
        r@ == scan_devices(scan),
{
    let ghost expected = scan_devices(scan);
    let mut out: Vec<Result<BrightnessDevice, Error>> = Vec::new();
    match scan {
        SystemScan::Backlight(listing) => {
            let mut found = linux::brightness_devices(listing);
            let ghost all = found@;
            let ghost mut k: int = 0;
            while found.len() > 0
                invariant
                    0 <= k <= all.len(),
                    expected == all.map_values(|x| from_backlight(x)),
                    found@ == all.subrange(k, all.len() as int),
                    out@ == all.subrange(0, k).map_values(|x| from_backlight(x)),
                decreases found.len(),
            {
                let x = found.remove(0);
                match x {
                    Ok(d) => out.push(Ok(BrightnessDevice(DeviceImpl::Backlight(d)))),
                    Err(e) => out.push(Err(Error::from(e))),
                }
                proof {
                    assert(all[k] == x);
                    assert(out@ =~= all.subrange(0, k + 1).map_values(|x| from_backlight(x)));
                    k = k + 1;
                    assert(found@ =~= all.subrange(k, all.len() as int));
                }
            }
            proof {
                assert(all.subrange(0, k) =~= all);
            }
        },
        SystemScan::Display { config, monitors } => {
            let mut found = windows::brightness_devices(config, monitors);
            let ghost all = found@;
            let ghost mut k: int = 0;
            while found.len() > 0
                invariant
                    0 <= k <= all.len(),
                    expected == all.map_values(|x| from_display(x)),
                    found@ == all.subrange(k, all.len() as int),
                    out@ == all.subrange(0, k).map_values(|x| from_display(x)),
                decreases found.len(),
            {
                let x = found.remove(0);
                match x {
                    Ok(d) => out.push(Ok(BrightnessDevice(DeviceImpl::Display(d)))),
                    Err(e) => out.push(Err(Error::from(e))),
                }
                proof {
                    assert(all[k] == x);
                    assert(out@ =~= all.subrange(0, k + 1).map_values(|x| from_display(x)));
                    k = k + 1;
                    assert(found@ =~= all.subrange(k, all.len() as int));
                }
            }
            proof {
                assert(all.subrange(0, k) =~= all);
            }
        },
    }
    out
}

} // verus!
