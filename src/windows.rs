//! Logic of the display-configuration back end.
//!
//! A logical monitor holds physical monitors (the DDC/CI channels) and
//! display-device records (the interfaces that the video IOCTLs go
//! through). The system offers no key to join the two lists, so they are
//! paired by position, and a logical monitor whose two lists differ in
//! length is refused as a whole. A device is internal or external by the
//! output technology that the display configuration gives for its interface
//! path; internal panels go through the IOCTLs, external monitors through
//! DDC/CI.
//!
//! Status codes are plain `u32` values: Win32 error codes where a function
//! reports one, `HRESULT` values where the system hands back an error object.
use crate::{Cause, Error};
use vstd::prelude::*;

verus! {

/// The Win32 code of success.
pub const ERROR_SUCCESS: u32 = 0;

/// The Win32 code of a denied access.
pub const ERROR_ACCESS_DENIED: u32 = 5;

/// The `HRESULT` of a denied access.
pub const E_ACCESSDENIED: u32 = 0x8007_0005;

/// The state flag of an active display device.
pub const DISPLAY_DEVICE_ACTIVE: u32 = 0x1;

/// The mode-information type of a target mode.
pub const DISPLAYCONFIG_MODE_INFO_TYPE_TARGET: u32 = 2;

/// The output technology of an internal panel.
pub const DISPLAYCONFIG_OUTPUT_TECHNOLOGY_INTERNAL: u32 = 0x8000_0000;

/// The display policy under which the AC value is in force.
pub const DISPLAYPOLICY_AC: u8 = 1;

/// The display policy under which the DC value is in force.
pub const DISPLAYPOLICY_DC: u8 = 2;

/// The display policy that sets both values.
pub const DISPLAYPOLICY_BOTH: u8 = 3;

/// A failure of the display-configuration back end.
#[derive(Clone, Debug, PartialEq, Eq)]
pub enum SysError {
    EnumDisplayMonitorsFailed(u32),
    GetDisplayConfigBufferSizesFailed(u32),
    QueryDisplayConfigFailed(u32),
    DisplayConfigGetDeviceInfoFailed(u32),
    GetMonitorInfoFailed(u32),
    GetPhysicalMonitorsFailed(u32),
    /// The physical monitors and the active display devices of a logical
    /// monitor differ in number; monitors may have come or gone meanwhile.
    EnumerationMismatch,
    /// No display configuration entry has the device's interface path.
    DeviceInfoMissing,
    OpeningMonitorDeviceInterfaceHandleFailed { device_name: String, code: u32 },
    IoctlQuerySupportedBrightnessFailed { device_name: String, code: u32 },
    IoctlQueryDisplayBrightnessFailed { device_name: String, code: u32 },
    IoctlQueryDisplayBrightnessUnexpectedResponse { device_name: String },
    GettingMonitorBrightnessFailed { device_name: String, code: u32 },
    IoctlSetBrightnessFailed { device_name: String, code: u32 },
    SettingBrightnessFailed { device_name: String, code: u32 },
}

/// The caller-visible error for a failure of this back end.
pub open spec fn error_of(e: SysError) -> Error {
    match e {
        SysError::IoctlQuerySupportedBrightnessFailed { device_name, .. } =>
            Error::GettingDeviceInfoFailed { device: device_name, source: Cause::Display(e) },
        SysError::IoctlQueryDisplayBrightnessFailed { device_name, .. } =>
            Error::GettingDeviceInfoFailed { device: device_name, source: Cause::Display(e) },
        SysError::IoctlQueryDisplayBrightnessUnexpectedResponse { device_name } =>
            Error::GettingDeviceInfoFailed { device: device_name, source: Cause::Display(e) },
        SysError::GettingMonitorBrightnessFailed { device_name, .. } =>
            Error::GettingDeviceInfoFailed { device: device_name, source: Cause::Display(e) },
        SysError::IoctlSetBrightnessFailed { device_name, .. } =>
            Error::SettingBrightnessFailed { device: device_name, source: Cause::Display(e) },
        SysError::SettingBrightnessFailed { device_name, .. } =>
            Error::SettingBrightnessFailed { device: device_name, source: Cause::Display(e) },
        _ => Error::ListingDevicesFailed(Cause::Display(e)),
    }
}

impl From<SysError> for Error {
    fn from(e: SysError) -> Error {
        match &e {
            SysError::IoctlQuerySupportedBrightnessFailed { device_name, .. }
            | SysError::IoctlQueryDisplayBrightnessFailed { device_name, .. }
            | SysError::IoctlQueryDisplayBrightnessUnexpectedResponse { device_name }
            | SysError::GettingMonitorBrightnessFailed { device_name, .. } => {
                let device = device_name.clone();
                Error::GettingDeviceInfoFailed { device, source: Cause::Display(e) }
            },
            SysError::IoctlSetBrightnessFailed { device_name, .. }
            | SysError::SettingBrightnessFailed { device_name, .. } => {
                let device = device_name.clone();
                Error::SettingBrightnessFailed { device, source: Cause::Display(e) }
            },
            _ => Error::ListingDevicesFailed(Cause::Display(e)),
        }
    }
}

impl vstd::std_specs::convert::FromSpecImpl<SysError> for Error {
    open spec fn obeys_from_spec() -> bool {
        true
    }

    open spec fn from_spec(v: SysError) -> Error {
        error_of(v)
    }
}

/// Whether every bit of `flag` is set in `t`.
pub fn flag_set(t: u32, flag: u32) -> (r: bool)
    ensures
        r == (t & flag == flag),
{
    t & flag == flag
}

/// The Win32 code that a status return stands for.
pub fn to_win32_error(status: i32) -> (r: u32)
    ensures
        r == status as u32,
{
    status as u32
}

/// Success where the status is `ERROR_SUCCESS`, else its code.
pub fn check_status(status: i32) -> (r: Result<(), u32>)
    ensures
        r is Ok <==> status as u32 == ERROR_SUCCESS,
        r is Err ==> r->Err_0 == status as u32,
{
    let code = to_win32_error(status);
    if code == ERROR_SUCCESS {
        Ok(())
    } else {
        Err(code)
    }
}

/// A DDC/CI brightness reading: the monitor's minimum, current and maximum
/// raw values.
#[derive(Clone, Copy, Debug, Default, PartialEq, Eq)]
pub struct DdcciBrightnessValues {
    pub min: u32,
    pub current: u32,
    pub max: u32,
}

/// The percentage that a DDC/CI reading stands for: the current value's
/// place between minimum and maximum, times 100, rounded half up; the
/// current value is first held to the range, and a reading with no range
/// stands for 0.
pub open spec fn ddcci_percentage(min: int, current: int, max: int) -> int {
    if max <= min {
        0
    } else {
        let c = if current < min {
            min
        } else if current > max {
            max
        } else {
            current
        };
        ((c - min) * 200 + (max - min)) / (2 * (max - min))
    }
}

/// The raw value that stands for `percentage` on a monitor with the range
/// [`min`, `max`]: the minimum plus `min(percentage, 100)` hundredths of the
/// range, rounded half up; the minimum where there is no range.
pub open spec fn ddcci_raw(min: int, max: int, percentage: int) -> int {
    if max <= min {
        min
    } else {
        min + (2 * crate::linux::clamp_percentage(percentage) * (max - min) + 100) / 200
    }
}

impl DdcciBrightnessValues {
    /// The percentage that the reading stands for.
    pub fn get_current_percentage(&self) -> (r: u32)
        ensures
            r == ddcci_percentage(self.min as int, self.current as int, self.max as int),
            r <= 100,
    {
        if self.max <= self.min {
            0
        } else {
            let c: u32 = if self.current < self.min {
                self.min
            } else if self.current > self.max {
                self.max
            } else {
                self.current
            };
            let x: u64 = (c - self.min) as u64;
            let y: u64 = (self.max - self.min) as u64;
            proof {
                assert((x * 200 + y) / (2 * y) <= 100) by (nonlinear_arith)
                    requires
                        x <= y,
                        y > 0,
                ;
            }
            ((x * 200 + y) / (2 * y)) as u32
        }
    }

    /// The raw value to write for `percentage`, from this reading's range.
    /// The percentage is first held to 100.
    pub fn percentage_to_current(&self, percentage: u32) -> (r: u32)
        ensures
            r == ddcci_raw(self.min as int, self.max as int, percentage as int),
            self.min < self.max ==> self.min <= r <= self.max,
    {
        if self.max <= self.min {
            self.min
        } else {
            let p: u64 = if percentage > 100 {
                100
            } else {
                percentage as u64
            };
            let d: u64 = (self.max - self.min) as u64;
            proof {
                assert(2 * p * d + 100 <= 200 * d + 100) by (nonlinear_arith)
                    requires
                        p <= 100,
                ;
                assert((2 * p * d + 100) / 200 <= d) by (nonlinear_arith)
                    requires
                        p <= 100,
                ;
            }
            self.min + ((2 * p * d + 100) / 200) as u32
        }
    }
}

/// The distance between a level and a percentage.
pub open spec fn level_distance(level: u8, percentage: u32) -> int {
    if level as int >= percentage as int {
        level as int - percentage as int
    } else {
        percentage as int - level as int
    }
}

/// Whether index `i` of `levels` is the first of those nearest to
/// `percentage`.
pub open spec fn is_first_nearest(levels: Seq<u8>, percentage: u32, i: int) -> bool {
    &&& 0 <= i < levels.len()
    &&& forall|j: int|
        0 <= j < levels.len() ==> level_distance(levels[i], percentage) <= level_distance(
            #[trigger] levels[j],
            percentage,
        )
    &&& forall|j: int|
        0 <= j < i ==> level_distance(levels[i], percentage) < level_distance(
            #[trigger] levels[j],
            percentage,
        )
}

/// The brightness levels that an internal panel supports, each from 0 to
/// 100, in the order that the panel reported them.
#[derive(Clone, Debug, PartialEq, Eq)]
pub struct IoctlSupportedBrightnessLevels(pub Vec<u8>);

impl IoctlSupportedBrightnessLevels {
    /// The level nearest to `percentage`; of several at the same distance,
    /// the first in the panel's order; 0 where no level is known.
    pub fn get_nearest(&self, percentage: u32) -> (r: u8)
        ensures
            self.0@.len() == 0 ==> r == 0,
            self.0@.len() > 0 ==> exists|i: int|
                is_first_nearest(self.0@, percentage, i) && r == self.0@[i],
    {
        let levels = &self.0;
        if levels.len() == 0 {
            return 0;
        }
        let mut best: usize = 0;
        let mut best_distance: u32 = distance(levels[0], percentage);
        let mut i: usize = 1;
        while i < levels.len()
            invariant
                1 <= i <= levels.len(),
                best < i,
                best_distance == level_distance(levels@[best as int], percentage),
                forall|j: int|
                    0 <= j < i ==> level_distance(levels@[best as int], percentage)
                        <= level_distance(#[trigger] levels@[j], percentage),
                forall|j: int|
                    0 <= j < best ==> level_distance(levels@[best as int], percentage)
                        < level_distance(#[trigger] levels@[j], percentage),
            decreases levels.len() - i,
        {
            let d = distance(levels[i], percentage);
            if d < best_distance {
                best = i;
                best_distance = d;
            }
            i = i + 1;
        }
        proof {
            assert(is_first_nearest(levels@, percentage, best as int));
        }
        levels[best]
    }
}

fn distance(level: u8, percentage: u32) -> (r: u32)
    ensures
        r == level_distance(level, percentage),
{
    let l = level as u32;
    if l >= percentage {
        l - percentage
    } else {
        percentage - l
    }
}

/// The brightness record of the video IOCTLs: a policy and the values for
/// mains (AC) and battery (DC) power.
#[derive(Clone, Copy, Debug, Default, PartialEq, Eq)]
pub struct DisplayBrightness {
    pub policy: u8,
    pub ac: u8,
    pub dc: u8,
}

/// The percentage that an IOCTL brightness record gives: the AC value under
/// the AC policy, the DC value under the DC policy, and an unexpected
/// response under any other.
pub open spec fn ioctl_percentage(device_name: String, b: DisplayBrightness) -> Result<u32, SysError> {
    if b.policy == DISPLAYPOLICY_AC {
        Ok(b.ac as u32)
    } else if b.policy == DISPLAYPOLICY_DC {
        Ok(b.dc as u32)
    } else {
        Err(SysError::IoctlQueryDisplayBrightnessUnexpectedResponse { device_name })
    }
}

/// The IOCTL record that sets `value` under both policies at once.
pub open spec fn ioctl_request(value: u8) -> DisplayBrightness {
    DisplayBrightness { policy: DISPLAYPOLICY_BOTH, ac: value, dc: value }
}

/// The text that `String::from_utf16_lossy` decodes from `units`.
pub uninterp spec fn utf16_lossy(units: Seq<u16>) -> Seq<char>;

/// Relies on `String::from_utf16_lossy`: the UTF-16 text decoded, with
/// invalid data replaced; nothing decodes to nothing.
#[verifier::external_body]
fn decode_utf16_lossy(units: &[u16]) -> (r: String)
    ensures
        r@ == utf16_lossy(units@),
        units@.len() == 0 ==> r@.len() == 0,
{
    String::from_utf16_lossy(units)
}

/// The units of `s` before its first NUL, or all of them.
pub open spec fn until_nul(s: Seq<u16>) -> Seq<u16>
    decreases s.len(),
{
    if s.len() == 0 {
        s
    } else if s[0] == 0 {
        seq![]
    } else {
        seq![s[0]].add(until_nul(s.drop_first()))
    }
}

/// The text of a NUL-terminated wide-character buffer, as the system fills
/// the name fields of its records.
pub fn wchar_to_string(s: &[u16]) -> (r: String)
    ensures
        r@ == utf16_lossy(until_nul(s@)),
{
    let mut end: usize = 0;
    proof {
        assert(s@.subrange(0, s@.len() as int) =~= s@);
        assert(s@.subrange(0, 0) + s@ =~= s@);
    }
    while end < s.len() && s[end] != 0
        invariant
            end <= s@.len(),
            forall|k: int| 0 <= k < end ==> s@[k] != 0,
            until_nul(s@) == s@.subrange(0, end as int) + until_nul(s@.subrange(end as int, s@.len() as int)),
        decreases s.len() - end,
    {
        proof {
            let rest = s@.subrange(end as int, s@.len() as int);
            assert(rest.drop_first() =~= s@.subrange(end + 1, s@.len() as int));
            assert(s@.subrange(0, end + 1) =~= s@.subrange(0, end as int) + seq![s@[end as int]]);
        }
        end = end + 1;
    }
    proof {
        let rest = s@.subrange(end as int, s@.len() as int);
        assert(until_nul(rest) =~= seq![]);
        assert(s@.subrange(0, end as int) + seq![] =~= s@.subrange(0, end as int));
    }
    let truncated = &s[0..end];
    decode_utf16_lossy(truncated)
}

/// A mode of the active display configuration, with the answer of the
/// target-name query made for it: the query's status, the target's
/// interface path and its output technology. The answer is read only for
/// target modes.
#[derive(Clone, Debug, PartialEq, Eq)]
pub struct ModeInfo {
    pub info_type: u32,
    pub status: i32,
    pub device_path: String,
    pub output_technology: u32,
}

/// An entry of the display configuration: an interface path and the output
/// technology behind it.
#[derive(Clone, Debug, PartialEq, Eq)]
pub struct TargetInfo {
    pub device_path: String,
    pub output_technology: u32,
}

/// What one mode contributes to the configuration: nothing for a mode that
/// is no target, or whose query was denied (the process has no access to
/// the desktop, or runs in a remote session); an entry where the query
/// succeeded; a failure otherwise.
pub open spec fn mode_entry(m: ModeInfo) -> Option<Result<TargetInfo, SysError>> {
    if m.info_type != DISPLAYCONFIG_MODE_INFO_TYPE_TARGET {
        None
    } else if m.status as u32 == ERROR_SUCCESS {
        Some(Ok(TargetInfo { device_path: m.device_path, output_technology: m.output_technology }))
    } else if m.status as u32 == ERROR_ACCESS_DENIED {
        None
    } else {
        Some(Err(SysError::DisplayConfigGetDeviceInfoFailed(m.status as u32)))
    }
}

/// The configuration entries of `modes`, in order, or the first failure.
pub open spec fn device_info_spec(modes: Seq<ModeInfo>) -> Result<Seq<TargetInfo>, SysError>
    decreases modes.len(),
{
    if modes.len() == 0 {
        Ok(seq![])
    } else {
        match device_info_spec(modes.drop_last()) {
            Err(e) => Err(e),
            Ok(entries) => match mode_entry(modes.last()) {
                None => Ok(entries),
                Some(Ok(t)) => Ok(entries.push(t)),
                Some(Err(e)) => Err(e),
            },
        }
    }
}

/// The technology that the configuration gives for `path`: that of the
/// last entry with this path, as a later entry replaces an earlier one.
pub open spec fn technology_of(entries: Seq<TargetInfo>, path: Seq<char>) -> Option<u32>
    decreases entries.len(),
{
    if entries.len() == 0 {
        None
    } else if entries.last().device_path@ == path {
        Some(entries.last().output_technology)
    } else {
        technology_of(entries.drop_last(), path)
    }
}

/// The display configuration's entries, built from its modes.
pub fn get_device_info_map(modes: &Vec<ModeInfo>) -> (r: Result<Vec<TargetInfo>, SysError>)
    ensures
        match r {
            Ok(v) => device_info_spec(modes@) == Ok::<Seq<TargetInfo>, SysError>(v@),
            Err(e) => device_info_spec(modes@) == Err::<Seq<TargetInfo>, SysError>(e),
        },
{
    let mut entries: Vec<TargetInfo> = Vec::new();
    let mut i: usize = 0;
    while i < modes.len()
        invariant
            i <= modes.len(),
            device_info_spec(modes@.subrange(0, i as int)) == Ok::<Seq<TargetInfo>, SysError>(
                entries@,
            ),
        decreases modes.len() - i,
    {
        proof {
            assert(modes@.subrange(0, i + 1).drop_last() =~= modes@.subrange(0, i as int));
        }
        let m = &modes[i];
        if m.info_type == DISPLAYCONFIG_MODE_INFO_TYPE_TARGET {
            let code = to_win32_error(m.status);
            if code == ERROR_SUCCESS {
                entries.push(
                    TargetInfo {
                        device_path: m.device_path.clone(),
                        output_technology: m.output_technology,
                    },
                );
            } else if code != ERROR_ACCESS_DENIED {
                proof {
                    assert(modes@.subrange(0, i + 1).last() == *m);
                    lemma_info_error_stays(modes@, i as int + 1);
                }
                return Err(SysError::DisplayConfigGetDeviceInfoFailed(code));
            }
        }
        i = i + 1;
    }
    proof {
        assert(modes@.subrange(0, i as int) =~= modes@);
    }
    Ok(entries)
}

/// A failure among the first `n` modes is the failure of them all.
proof fn lemma_info_error_stays(modes: Seq<ModeInfo>, n: int)
    requires
        0 <= n <= modes.len(),
        device_info_spec(modes.subrange(0, n)) is Err,
    ensures
        device_info_spec(modes) == device_info_spec(modes.subrange(0, n)),
    decreases modes.len() - n,
{
    if n < modes.len() {
        assert(modes.subrange(0, n + 1).drop_last() =~= modes.subrange(0, n));
        lemma_info_error_stays(modes, n + 1);
    } else {
        assert(modes.subrange(0, n) =~= modes);
    }
}

/// The output technology that the configuration gives for `path`.
pub fn lookup_technology(entries: &Vec<TargetInfo>, path: &String) -> (r: Option<u32>)
    ensures
        r == technology_of(entries@, path@),
{
    let mut i: usize = entries.len();
    proof {
        assert(entries@.subrange(0, i as int) =~= entries@);
    }
    while i > 0
        invariant
            i <= entries.len(),
            technology_of(entries@, path@) == technology_of(entries@.subrange(0, i as int), path@),
        decreases i,
    {
        proof {
            assert(entries@.subrange(0, i as int).drop_last() =~= entries@.subrange(0, i - 1));
        }
        if entries[i - 1].device_path.eq(path) {
            return Some(entries[i - 1].output_technology);
        }
        i = i - 1;
    }
    None
}

/// How opening a display device's interface ended: with a handle, or with
/// the `HRESULT` of the failure.
#[derive(Clone, Copy, Debug, PartialEq, Eq)]
pub enum OpenOutcome {
    Opened(u64),
    Failed(u32),
}

/// A display-device record of a logical monitor, as the system listed it,
/// with the outcome of opening its interface path.
#[derive(Clone, Debug, PartialEq, Eq)]
pub struct DisplayDeviceRecord {
    pub device_name: String,
    pub device_string: String,
    pub device_key: String,
    pub device_id: String,
    pub state_flags: u32,
    pub open: OpenOutcome,
}

impl DisplayDeviceRecord {
    /// A copy of the record.
    pub fn duplicate(&self) -> (r: Self)
        ensures
            r == *self,
    {
        DisplayDeviceRecord {
            device_name: self.device_name.clone(),
            device_string: self.device_string.clone(),
            device_key: self.device_key.clone(),
            device_id: self.device_id.clone(),
            state_flags: self.state_flags,
            open: self.open,
        }
    }
}

/// What the system reported of one logical monitor: its physical monitor
/// handles, or the code of the failure to get them; its display-device
/// records, or the code of the failure to get its monitor information.
#[derive(Debug, PartialEq, Eq)]
pub struct MonitorRecord {
    pub physical_monitors: Result<Vec<u64>, u32>,
    pub display_devices: Result<Vec<DisplayDeviceRecord>, u32>,
}

/// A resolved display device: its physical monitor handle (for DDC/CI), its
/// interface handle (for the IOCTLs), its names and its output technology.
#[derive(Clone, Debug, PartialEq, Eq)]
pub struct DisplayDevice {
    pub physical_monitor: u64,
    pub file_handle: u64,
    pub device_name: String,
    /// Not unique: monitors of one model share it.
    pub device_description: String,
    pub device_key: String,
    pub device_path: String,
    pub output_technology: u32,
}

/// Whether a record is of an active display device.
pub open spec fn is_active(r: DisplayDeviceRecord) -> bool {
    r.state_flags & DISPLAY_DEVICE_ACTIVE == DISPLAY_DEVICE_ACTIVE
}

/// The active records of `records`, in order.
pub open spec fn active_records(records: Seq<DisplayDeviceRecord>) -> Seq<DisplayDeviceRecord>
    decreases records.len(),
{
    if records.len() == 0 {
        seq![]
    } else if is_active(records.last()) {
        active_records(records.drop_last()).push(records.last())
    } else {
        active_records(records.drop_last())
    }
}

/// What the physical monitor `handle` paired with `record` yields: nothing
/// where opening the interface was denied (a virtual display, such as a
/// remote session's); a failure where opening failed otherwise, or where
/// the configuration has no entry for the interface path; else the device.
pub open spec fn pair_devices(entries: Seq<TargetInfo>, handle: u64, record: DisplayDeviceRecord) -> Seq<
    Result<DisplayDevice, SysError>,
> {
    match record.open {
        OpenOutcome::Failed(code) => if code == E_ACCESSDENIED {
            seq![]
        } else {
            seq![
                Err(
                    SysError::OpeningMonitorDeviceInterfaceHandleFailed {
                        device_name: record.device_name,
                        code,
                    },
                ),
            ]
        },
        OpenOutcome::Opened(file_handle) => match technology_of(entries, record.device_id@) {
            None => seq![Err(SysError::DeviceInfoMissing)],
            Some(t) => seq![
                Ok(
                    DisplayDevice {
                        physical_monitor: handle,
                        file_handle,
                        device_name: record.device_name,
                        device_description: record.device_string,
                        device_key: record.device_key,
                        device_path: record.device_id,
                        output_technology: t,
                    },
                ),
            ],
        },
    }
}

/// What the first `n` pairs of `handles` and `records` yield, in order.
pub open spec fn pairs_devices(
    entries: Seq<TargetInfo>,
    handles: Seq<u64>,
    records: Seq<DisplayDeviceRecord>,
    n: int,
) -> Seq<Result<DisplayDevice, SysError>>
    decreases n,
{
    if n <= 0 {
        seq![]
    } else {
        pairs_devices(entries, handles, records, n - 1) + pair_devices(
            entries,
            handles[n - 1],
            records[n - 1],
        )
    }
}

/// What one logical monitor yields: one failure alone where its physical
/// monitors or its records could not be had, or where they differ in
/// number from its active records; else what each pair yields.
pub open spec fn monitor_devices(entries: Seq<TargetInfo>, m: MonitorRecord) -> Seq<
    Result<DisplayDevice, SysError>,
> {
    match m.physical_monitors {
        Err(code) => seq![Err(SysError::GetPhysicalMonitorsFailed(code))],
        Ok(handles) => match m.display_devices {
            Err(code) => seq![Err(SysError::GetMonitorInfoFailed(code))],
            Ok(records) => {
                let active = active_records(records@);
                if active.len() != handles@.len() {
                    seq![Err(SysError::EnumerationMismatch)]
                } else {
                    pairs_devices(entries, handles@, active, active.len() as int)
                }
            },
        },
    }
}

/// What the logical monitors yield, one after the other.
pub open spec fn monitors_devices(entries: Seq<TargetInfo>, ms: Seq<MonitorRecord>) -> Seq<
    Result<DisplayDevice, SysError>,
>
    decreases ms.len(),
{
    if ms.len() == 0 {
        seq![]
    } else {
        monitors_devices(entries, ms.drop_last()) + monitor_devices(entries, ms.last())
    }
}

/// The devices that the system's reports yield: one failure alone where the
/// display configuration or the list of logical monitors could not be had;
/// else what each logical monitor yields.
pub open spec fn devices_spec(
    config: Result<Seq<ModeInfo>, SysError>,
    monitors: Result<Seq<MonitorRecord>, u32>,
) -> Seq<Result<DisplayDevice, SysError>> {
    match config {
        Err(e) => seq![Err(e)],
        Ok(modes) => match device_info_spec(modes) {
            Err(e) => seq![Err(e)],
            Ok(entries) => match monitors {
                Err(code) => seq![Err(SysError::EnumDisplayMonitorsFailed(code))],
                Ok(ms) => monitors_devices(entries, ms),
            },
        },
    }
}

/// The active records among `records`, in order.
pub fn active_display_devices(records: &Vec<DisplayDeviceRecord>) -> (r: Vec<DisplayDeviceRecord>)
    ensures
        r@ == active_records(records@),
{
    let mut out: Vec<DisplayDeviceRecord> = Vec::new();
    let mut i: usize = 0;
    while i < records.len()
        invariant
            i <= records.len(),
            out@ == active_records(records@.subrange(0, i as int)),
        decreases records.len() - i,
    {
        proof {
            assert(records@.subrange(0, i + 1).drop_last() =~= records@.subrange(0, i as int));
        }
        if flag_set(records[i].state_flags, DISPLAY_DEVICE_ACTIVE) {
            out.push(records[i].duplicate());
        }
        i = i + 1;
    }
    proof {
        assert(records@.subrange(0, i as int) =~= records@);
    }
    out
}

/// The interface handle of a record, where opening it succeeded; nothing
/// where it was denied; the failure otherwise.
pub fn get_file_handle_for_display_device(record: &DisplayDeviceRecord) -> (r: Result<
    Option<u64>,
    SysError,
>)
    ensures
        r == (match record.open {
            OpenOutcome::Opened(h) => Ok(Some(h)),
            OpenOutcome::Failed(code) => if code == E_ACCESSDENIED {
                Ok(None)
            } else {
                Err(
                    SysError::OpeningMonitorDeviceInterfaceHandleFailed {
                        device_name: record.device_name,
                        code,
                    },
                )
            },
        }),
{
    match record.open {
        OpenOutcome::Opened(h) => Ok(Some(h)),
        OpenOutcome::Failed(code) => if code == E_ACCESSDENIED {
            Ok(None)
        } else {
            Err(
                SysError::OpeningMonitorDeviceInterfaceHandleFailed {
                    device_name: record.device_name.clone(),
                    code,
                },
            )
        },
    }
}

/// The devices of one logical monitor.
pub fn monitor_display_devices(entries: &Vec<TargetInfo>, monitor: &MonitorRecord) -> (r: Vec<
    Result<DisplayDevice, SysError>,
>)
    ensures
        r@ == monitor_devices(entries@, *monitor),
{
    let handles = match &monitor.physical_monitors {
        Err(code) => {
            let mut out = Vec::new();
            out.push(Err(SysError::GetPhysicalMonitorsFailed(*code)));
            proof {
                assert(out@ =~= monitor_devices(entries@, *monitor));
            }
            return out;
        },
        Ok(handles) => handles,
    };
    let records = match &monitor.display_devices {
        Err(code) => {
            let mut out = Vec::new();
            out.push(Err(SysError::GetMonitorInfoFailed(*code)));
            proof {
                assert(out@ =~= monitor_devices(entries@, *monitor));
            }
            return out;
        },
        Ok(records) => records,
    };
    let active = active_display_devices(records);
    let mut out: Vec<Result<DisplayDevice, SysError>> = Vec::new();
    if active.len() != handles.len() {
        out.push(Err(SysError::EnumerationMismatch));
        proof {
            assert(out@ =~= monitor_devices(entries@, *monitor));
        }
        return out;
    }
    let mut i: usize = 0;
    while i < active.len()
        invariant
            i <= active.len(),
            active.len() == handles.len(),
            out@ == pairs_devices(entries@, handles@, active@, i as int),
        decreases active.len() - i,
    {
        let record = &active[i];
        match get_file_handle_for_display_device(record) {
            Ok(None) => {},
            Err(e) => {
                out.push(Err(e));
            },
            Ok(Some(file_handle)) => match lookup_technology(entries, &record.device_id) {
                None => {
                    out.push(Err(SysError::DeviceInfoMissing));
                },
                Some(t) => {
                    out.push(
                        Ok(
                            DisplayDevice {
                                physical_monitor: handles[i],
                                file_handle,
                                device_name: record.device_name.clone(),
                                device_description: record.device_string.clone(),
                                device_key: record.device_key.clone(),
                                device_path: record.device_id.clone(),
                                output_technology: t,
                            },
                        ),
                    );
                },
            },
        }
        proof {
            assert(out@ =~= pairs_devices(entries@, handles@, active@, i + 1));
        }
        i = i + 1;
    }
    out
}

/// The devices that the system's reports yield: the display configuration
/// (its modes, or the failure to query it) and the logical monitors (their
/// reports, or the code of the failure to enumerate them).
pub fn brightness_devices(
    config: Result<Vec<ModeInfo>, SysError>,
    monitors: Result<Vec<MonitorRecord>, u32>,
) -> (r: Vec<Result<DisplayDevice, SysError>>)
    ensures
        r@ == devices_spec(
            match config {
                Ok(modes) => Ok(modes@),
                Err(e) => Err(e),
            },
            match monitors {
                Ok(ms) => Ok(ms@),
                Err(code) => Err(code),
            },
        ),
{
    let mut out: Vec<Result<DisplayDevice, SysError>> = Vec::new();
    let modes = match config {
        Err(e) => {
            out.push(Err(e));
            proof {
                assert(out@ =~= seq![Err(e)]);
            }
            return out;
        },
        Ok(modes) => modes,
    };
    let entries = match get_device_info_map(&modes) {
        Err(e) => {
            out.push(Err(e));
            proof {
                assert(out@ =~= seq![Err(e)]);
            }
            return out;
        },
        Ok(entries) => entries,
    };
    let ms = match monitors {
        Err(code) => {
            out.push(Err(SysError::EnumDisplayMonitorsFailed(code)));
            proof {
                assert(out@ =~= seq![Err(SysError::EnumDisplayMonitorsFailed(code))]);
            }
            return out;
        },
        Ok(ms) => ms,
    };
    let mut i: usize = 0;
    while i < ms.len()
        invariant
            i <= ms.len(),
            out@ == monitors_devices(entries@, ms@.subrange(0, i as int)),
        decreases ms.len() - i,
    {
        proof {
            assert(ms@.subrange(0, i + 1).drop_last() =~= ms@.subrange(0, i as int));
        }
        let mut found = monitor_display_devices(&entries, &ms[i]);
        out.append(&mut found);
        i = i + 1;
    }
    proof {
        assert(ms@.subrange(0, i as int) =~= ms@);
    }
    out
}

/// Whether `level` is what the nearest-level rule picks from `levels` for
/// `percentage`: the first of the nearest, or 0 where there is none.
pub open spec fn is_nearest_level(levels: Seq<u8>, percentage: u32, level: u8) -> bool {
    &&& levels.len() == 0 ==> level == 0
    &&& levels.len() > 0 ==> exists|i: int|
        is_first_nearest(levels, percentage, i) && level == levels[i]
}

/// A brightness reading, taken through the protocol of the device: the
/// IOCTL record of an internal panel, or the DDC/CI values of an external
/// monitor; each with the code of the failure to take it.
#[derive(Clone, Copy, Debug, PartialEq, Eq)]
pub enum Reading {
    Panel(Result<DisplayBrightness, u32>),
    Monitor(Result<DdcciBrightnessValues, u32>),
}

/// What a request to set brightness needs, taken through the protocol of
/// the device: the supported levels of an internal panel, or a fresh DDC/CI
/// reading of an external monitor; each with the code of the failure to
/// take it.
#[derive(Debug, PartialEq, Eq)]
pub enum SetInput {
    Levels(Result<Vec<u8>, u32>),
    Monitor(Result<DdcciBrightnessValues, u32>),
}

/// The command that sets brightness: an IOCTL record for an internal panel,
/// a raw DDC/CI value for an external monitor.
#[derive(Clone, Copy, Debug, PartialEq, Eq)]
pub enum Command {
    Panel(DisplayBrightness),
    Monitor(u32),
}

/// The percentage that `reading` gives for the device named `device_name`:
/// the IOCTL record's value under its policy, or the DDC/CI reading's place
/// in its range; or the failure to take the reading.
pub open spec fn reading_percentage(device_name: String, reading: Reading) -> Result<u32, SysError> {
    match reading {
        Reading::Panel(Err(code)) => Err(
            SysError::IoctlQueryDisplayBrightnessFailed { device_name, code },
        ),
        Reading::Panel(Ok(b)) => ioctl_percentage(device_name, b),
        Reading::Monitor(Err(code)) => Err(
            SysError::GettingMonitorBrightnessFailed { device_name, code },
        ),
        Reading::Monitor(Ok(v)) => Ok(
            ddcci_percentage(v.min as int, v.current as int, v.max as int) as u32,
        ),
    }
}

impl DisplayDevice {
    /// Whether the device is an internal panel.
    pub fn is_internal(&self) -> (r: bool)
        ensures
            r == (self.output_technology == DISPLAYCONFIG_OUTPUT_TECHNOLOGY_INTERNAL),
    {
        self.output_technology == DISPLAYCONFIG_OUTPUT_TECHNOLOGY_INTERNAL
    }

    /// The brightness percentage that a reading gives.
    pub fn percentage(&self, reading: Reading) -> (r: Result<u32, SysError>)
        ensures
            r == reading_percentage(self.device_name, reading),
    {
        match reading {
            Reading::Panel(Err(code)) => Err(
                SysError::IoctlQueryDisplayBrightnessFailed {
                    device_name: self.device_name.clone(),
                    code,
                },
            ),
            Reading::Panel(Ok(b)) => {
                if b.policy == DISPLAYPOLICY_AC {
                    Ok(b.ac as u32)
                } else if b.policy == DISPLAYPOLICY_DC {
                    Ok(b.dc as u32)
                } else {
                    Err(
                        SysError::IoctlQueryDisplayBrightnessUnexpectedResponse {
                            device_name: self.device_name.clone(),
                        },
                    )
                }
            },
            Reading::Monitor(Err(code)) => Err(
                SysError::GettingMonitorBrightnessFailed {
                    device_name: self.device_name.clone(),
                    code,
                },
            ),
            Reading::Monitor(Ok(v)) => Ok(v.get_current_percentage()),
        }
    }

    /// The command that sets the device to `percentage`, held to 100 first:
    /// on a panel, the supported level nearest to it, under both policies;
    /// on a monitor, the raw value that stands for it in the fresh range.
    pub fn set_command(&self, input: SetInput, percentage: u32) -> (r: Result<Command, SysError>)
        ensures
            match input {
                SetInput::Levels(Err(code)) => r == Err::<Command, SysError>(
                    SysError::IoctlQuerySupportedBrightnessFailed {
                        device_name: self.device_name,
                        code,
                    },
                ),
                SetInput::Levels(Ok(levels)) => exists|level: u8|
                    is_nearest_level(
                        levels@,
                        crate::linux::clamp_percentage(percentage as int) as u32,
                        level,
                    ) && r == Ok::<Command, SysError>(Command::Panel(ioctl_request(level))),
                SetInput::Monitor(Err(code)) => r == Err::<Command, SysError>(
                    SysError::GettingMonitorBrightnessFailed { device_name: self.device_name, code },
                ),
                SetInput::Monitor(Ok(v)) => r == Ok::<Command, SysError>(
                    Command::Monitor(
                        ddcci_raw(v.min as int, v.max as int, percentage as int) as u32,
                    ),
                ),
            },
    {
        match input {
            SetInput::Levels(Err(code)) => Err(
                SysError::IoctlQuerySupportedBrightnessFailed {
                    device_name: self.device_name.clone(),
                    code,
                },
            ),
            SetInput::Levels(Ok(levels)) => {
                let p: u32 = if percentage > 100 {
                    100
                } else {
                    percentage
                };
                let supported = IoctlSupportedBrightnessLevels(levels);
                let level = supported.get_nearest(p);
                let r = Ok(
                    Command::Panel(
                        DisplayBrightness { policy: DISPLAYPOLICY_BOTH, ac: level, dc: level },
                    ),
                );
                proof {
                    assert(p == crate::linux::clamp_percentage(percentage as int) as u32);
                    assert(is_nearest_level(supported.0@, p, level) && r == Ok::<Command, SysError>(
                        Command::Panel(ioctl_request(level)),
                    ));
                }
                r
            },
            SetInput::Monitor(Err(code)) => Err(
                SysError::GettingMonitorBrightnessFailed {
                    device_name: self.device_name.clone(),
                    code,
                },
            ),
            SetInput::Monitor(Ok(v)) => Ok(Command::Monitor(v.percentage_to_current(percentage))),
        }
    }

    /// The outcome of carrying out `command`, from the status it ended with.
    pub fn command_outcome(&self, command: &Command, status: Result<(), u32>) -> (r: Result<
        (),
        SysError,
    >)
        ensures
            r == (match status {
                Ok(()) => Ok(()),
                Err(code) => Err(
                    match command {
                        Command::Panel(_) => SysError::IoctlSetBrightnessFailed {
                            device_name: self.device_name,
                            code,
                        },
                        Command::Monitor(_) => SysError::SettingBrightnessFailed {
                            device_name: self.device_name,
                            code,
                        },
                    },
                ),
            }),
    {
        match status {
            Ok(()) => Ok(()),
            Err(code) => {
                let device_name = self.device_name.clone();
                match command {
                    Command::Panel(_) => Err(SysError::IoctlSetBrightnessFailed { device_name, code }),
                    Command::Monitor(_) => Err(SysError::SettingBrightnessFailed { device_name, code }),
                }
            },
        }
    }
}

/// Information that only display devices of this back end carry.
pub trait BrightnessExt {
    /// The device's description.
    spec fn description_spec(&self) -> String;

    /// The device's registry key.
    spec fn registry_key_spec(&self) -> String;

    /// The device's interface path.
    spec fn path_spec(&self) -> String;

    /// Returns the device description.
    fn device_description(&self) -> (r: Result<String, Error>)
        ensures
            r == Ok::<String, Error>(self.description_spec()),
    ;

    /// Returns the device registry key.
    fn device_registry_key(&self) -> (r: Result<String, Error>)
        ensures
            r == Ok::<String, Error>(self.registry_key_spec()),
    ;

    /// Returns the device path.
    fn device_path(&self) -> (r: Result<String, Error>)
        ensures
            r == Ok::<String, Error>(self.path_spec()),
    ;
}

impl BrightnessExt for DisplayDevice {
    open spec fn description_spec(&self) -> String {
        self.device_description
    }

    open spec fn registry_key_spec(&self) -> String {
        self.device_key
    }

    open spec fn path_spec(&self) -> String {
        self.device_path
    }

    fn device_description(&self) -> (r: Result<String, Error>) {
        Ok(self.device_description.clone())
    }

    fn device_registry_key(&self) -> (r: Result<String, Error>) {
        Ok(self.device_key.clone())
    }

    fn device_path(&self) -> (r: Result<String, Error>) {
        Ok(self.device_path.clone())
    }
}

/// On a monitor whose range spans at least 100 raw steps, setting a
/// percentage and reading it back gives that percentage within one unit
/// (here, exactly), though each direction rounds on its own.
pub proof fn lemma_ddcci_round_trip(min: u32, max: u32, percentage: u32)
    requires
        max - min >= 100,
        percentage <= 100,
    ensures
        min <= ddcci_raw(min as int, max as int, percentage as int) <= max,
        ddcci_percentage(min as int, ddcci_raw(min as int, max as int, percentage as int), max as int)
            - percentage <= 1,
        percentage - ddcci_percentage(
            min as int,
            ddcci_raw(min as int, max as int, percentage as int),
            max as int,
        ) <= 1,
        ddcci_percentage(min as int, ddcci_raw(min as int, max as int, percentage as int), max as int)
            == percentage,
{
    let d: int = max - min;
    let p: int = percentage as int;
    let x: int = (2 * p * d + 100) / 200;
    assert(0 <= x <= d) by (nonlinear_arith)
        requires
            0 <= p <= 100,
            d >= 100,
            x == (2 * p * d + 100) / 200,
    ;
    assert(ddcci_raw(min as int, max as int, p) == min + x);
    assert((x * 200 + d) / (2 * d) == p) by (nonlinear_arith)
        requires
            0 <= p <= 100,
            d >= 100,
            x == (2 * p * d + 100) / 200,
    {
        assert(200 * x <= 2 * p * d + 100);
        assert(2 * p * d + 100 < 200 * x + 200);
        assert(x * 200 + d >= 2 * d * p);
        assert(x * 200 + d < 2 * d * (p + 1));
    }
}

/// On an external monitor, a request above 100 sets what a request of 100
/// sets. (On a panel, `set_command` picks its level for the held
/// percentage by its own contract.)
pub proof fn lemma_ddcci_set_clamps(min: u32, max: u32, percentage: u32)
    ensures
        ddcci_raw(min as int, max as int, percentage as int) == ddcci_raw(
            min as int,
            max as int,
            crate::linux::clamp_percentage(percentage as int),
        ),
{
}

/// Reading a device twice, with no change between the readings, gives the
/// same result both times: the result depends on the device's name and the
/// reading alone, and reading changes nothing.
pub proof fn lemma_display_get_is_stable(device: DisplayDevice, first: Reading, second: Reading)
    requires
        first == second,
    ensures
        reading_percentage(device.device_name, first) == reading_percentage(
            device.device_name,
            second,
        ),
{
}

} // verus!
