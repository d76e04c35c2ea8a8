//! Logic of the backlight back end.
//!
//! A device is a directory of the backlight registry that holds both an
//! `actual_brightness` and a `max_brightness` attribute. Its brightness is
//! set through the login manager's session object; where that service lacks
//! the method, the raw value is written to the `brightness` attribute.
use crate::{Cause, Error};
use vstd::prelude::*;

verus! {

/// The kernel's backlight registry.
pub const BACKLIGHT_DIR: &'static str = "/sys/class/backlight";

/// The bus name of the login manager.
pub const USER_DBUS_NAME: &'static str = "org.freedesktop.login1";

/// The object path of the caller's own session.
pub const SESSION_OBJECT_PATH: &'static str = "/org/freedesktop/login1/session/auto";

/// The interface that holds the brightness method.
pub const SESSION_INTERFACE: &'static str = "org.freedesktop.login1.Session";

/// The method that sets a device's brightness.
pub const SET_BRIGHTNESS_METHOD: &'static str = "SetBrightness";

/// The subsystem name handed to the method.
pub const SUBSYSTEM: &'static str = "backlight";

/// The writable attribute that the fallback writes.
pub const BRIGHTNESS_ATTRIBUTE: &'static str = "brightness";

/// The D-Bus error name of a reply that says the method does not exist.
pub const UNKNOWN_METHOD_ERROR: &'static str = "org.freedesktop.DBus.Error.UnknownMethod";

/// A readable attribute of a backlight device.
#[derive(Clone, Copy, Debug, PartialEq, Eq)]
pub enum Value {
    Actual,
    Max,
}

impl Value {
    /// The attribute's file name.
    pub fn as_str(&self) -> (r: &'static str)
        ensures
            r@ == value_name(*self),
    {
        match self {
            Value::Actual => "actual_brightness",
            Value::Max => "max_brightness",
        }
    }
}

/// The file name of an attribute.
pub open spec fn value_name(v: Value) -> Seq<char> {
    match v {
        Value::Actual => "actual_brightness"@,
        Value::Max => "max_brightness"@,
    }
}

/// A failure of the backlight back end. `reason` holds the text of the
/// underlying cause.
#[derive(Clone, Debug, PartialEq, Eq)]
pub enum SysError {
    ReadingBacklightDirFailed { reason: String },
    ReadingBacklightDeviceFailed { device: String, path: String, reason: String },
    ParsingBacklightInfoFailed { device: String, path: String, reason: String },
    WritingBrightnessFailed { device: String, path: String, reason: String },
    CallingServiceFailed { device: String, reason: String },
}

/// The caller-visible error for a failure of this back end.
pub open spec fn error_of(e: SysError) -> Error {
    match e {
        SysError::ReadingBacklightDirFailed { .. } => Error::ListingDevicesFailed(Cause::Backlight(e)),
        SysError::ReadingBacklightDeviceFailed { device, .. } => Error::GettingDeviceInfoFailed {
            device,
            source: Cause::Backlight(e),
        },
        SysError::ParsingBacklightInfoFailed { device, .. } => Error::GettingDeviceInfoFailed {
            device,
            source: Cause::Backlight(e),
        },
        SysError::WritingBrightnessFailed { device, .. } => Error::SettingBrightnessFailed {
            device,
            source: Cause::Backlight(e),
        },
        SysError::CallingServiceFailed { device, .. } => Error::SettingBrightnessFailed {
            device,
            source: Cause::Backlight(e),
        },
    }
}

impl From<SysError> for Error {
    fn from(e: SysError) -> Error {
        match &e {
            SysError::ReadingBacklightDirFailed { .. } => Error::ListingDevicesFailed(
                Cause::Backlight(e),
            ),
            SysError::ReadingBacklightDeviceFailed { device, .. }
            | SysError::ParsingBacklightInfoFailed { device, .. } => {
                let device = device.clone();
                Error::GettingDeviceInfoFailed { device, source: Cause::Backlight(e) }
            },
            SysError::WritingBrightnessFailed { device, .. }
            | SysError::CallingServiceFailed { device, .. } => {
                let device = device.clone();
                Error::SettingBrightnessFailed { device, source: Cause::Backlight(e) }
            },
        }
    }
}

impl vstd::std_specs::convert::FromSpecImpl<SysError> for Error {
    open spec fn obeys_from_spec() -> bool {
        true
    }

    open spec fn from_spec(v: SysError) -> Error {
        error_of(v)
    }
}

/// A requested percentage with everything above 100 taken as 100.
pub open spec fn clamp_percentage(p: int) -> int {
    if p > 100 {
        100
    } else {
        p
    }
}

/// The percentage that the raw pair (`actual`, `max`) stands for: the floor
/// of `actual * 100 / max`, held to 100, and 0 on a device whose maximum
/// is 0.
pub open spec fn backlight_percentage(actual: int, max: int) -> int {
    if max == 0 {
        0
    } else {
        clamp_percentage(actual * 100 / max)
    }
}

/// The raw value that stands for `percentage` on a device whose maximum is
/// `max`: the floor of `min(percentage, 100) * max / 100`.
pub open spec fn backlight_raw(percentage: int, max: int) -> int {
    clamp_percentage(percentage) * max / 100
}

/// The brightness percentage of a device whose attributes read `actual` and
/// `max`.
pub fn percentage_of(actual: u32, max: u32) -> (r: u32)
    ensures
        r == backlight_percentage(actual as int, max as int),
        r <= 100,
{
    if max == 0 {
        0
    } else {
        let p: u64 = (actual as u64) * 100 / (max as u64);
        if p > 100 {
            100
        } else {
            p as u32
        }
    }
}

/// The raw value to write for `percentage` on a device whose maximum is
/// `max`. The percentage is first held to 100.
pub fn raw_for_percentage(percentage: u32, max: u32) -> (r: u32)
    ensures
        r == backlight_raw(percentage as int, max as int),
        r <= max,
{
    let p: u64 = if percentage > 100 {
        100
    } else {
        percentage as u64
    };
    let m: u64 = max as u64;
    proof {
        assert(p * m <= 100 * m) by (nonlinear_arith)
            requires
                p <= 100,
        ;
        assert(p * m / 100 <= m) by (nonlinear_arith)
            requires
                p <= 100,
        ;
    }
    (p * m / 100) as u32
}

/// The path of an attribute file of a device: the registry, the device's
/// directory and the file name, joined by `/`.
pub open spec fn attribute_path_spec(device: Seq<char>, file: Seq<char>) -> Seq<char> {
    BACKLIGHT_DIR@ + "/"@ + device + "/"@ + file
}

/// The path of the attribute file `file` of `device`.
pub fn attribute_path(device: &String, file: &str) -> (r: String)
    ensures
        r@ == attribute_path_spec(device@, file@),
{
    let mut path = String::from_str(BACKLIGHT_DIR);
    path.append("/");
    path.append(device.as_str());
    path.append("/");
    path.append(file);
    path
}

/// Whether `c` is white space in the sense of Unicode's `White_Space`
/// property.
pub open spec fn is_white_space(c: char) -> bool {
    let u = c as u32;
    (0x9 <= u <= 0xd) || u == 0x20 || u == 0x85 || u == 0xa0 || u == 0x1680 || (0x2000 <= u
        <= 0x200a) || u == 0x2028 || u == 0x2029 || u == 0x202f || u == 0x205f || u == 0x3000
}

/// `s` without its leading white space.
pub open spec fn trim_start_spec(s: Seq<char>) -> Seq<char>
    decreases s.len(),
{
    if s.len() > 0 && is_white_space(s[0]) {
        trim_start_spec(s.drop_first())
    } else {
        s
    }
}

/// `s` without its trailing white space.
pub open spec fn trim_end_spec(s: Seq<char>) -> Seq<char>
    decreases s.len(),
{
    if s.len() > 0 && is_white_space(s.last()) {
        trim_end_spec(s.drop_last())
    } else {
        s
    }
}

/// `s` without its leading and trailing white space.
pub open spec fn trimmed(s: Seq<char>) -> Seq<char> {
    trim_end_spec(trim_start_spec(s))
}

/// Whether every character of `d` is an ASCII digit.
pub open spec fn all_digits(d: Seq<char>) -> bool {
    forall|k: int| 0 <= k < d.len() ==> '0' <= #[trigger] d[k] <= '9'
}

/// The number that the decimal digits `d` write.
pub open spec fn digits_value(d: Seq<char>) -> int
    decreases d.len(),
{
    if d.len() == 0 {
        0
    } else {
        digits_value(d.drop_last()) * 10 + (d.last() as int - '0' as int)
    }
}

/// `s` without one leading `+`.
pub open spec fn unsigned_digits(s: Seq<char>) -> Seq<char> {
    if s.len() > 0 && s[0] == '+' {
        s.drop_first()
    } else {
        s
    }
}

/// Whether `s` is a decimal numeral of a `u32`: an optional `+` and one or
/// more ASCII digits whose value fits.
pub open spec fn parses_as_u32(s: Seq<char>) -> bool {
    let d = unsigned_digits(s);
    d.len() > 0 && all_digits(d) && digits_value(d) <= u32::MAX
}

/// Relies on `str::trim`: the text without leading and trailing white space.
#[verifier::external_body]
fn trim_text(s: &str) -> (r: &str)
    ensures
        r@ == trimmed(s@),
{
    s.trim()
}

/// Relies on `u32`'s `FromStr`: an optional `+` and digits only, with a
/// value that fits; the error is handed back as its message.
#[verifier::external_body]
fn parse_u32(s: &str) -> (r: Result<u32, String>)
    ensures
        r is Ok <==> parses_as_u32(s@),
        r is Ok ==> r->Ok_0 == digits_value(unsigned_digits(s@)),
{
    s.parse::<u32>().map_err(|e| e.to_string())
}

/// The value of an attribute file of `device` at `path`, from the text that
/// was read from it: the text without surrounding white space, as a decimal
/// `u32`.
pub fn parse_value(device: &String, path: &String, text: &str) -> (r: Result<u32, SysError>)
    ensures
        r is Ok <==> parses_as_u32(trimmed(text@)),
        r is Ok ==> r->Ok_0 == digits_value(unsigned_digits(trimmed(text@))),
        r is Err ==> (match r->Err_0 {
            SysError::ParsingBacklightInfoFailed { device: d, path: p, .. } => d == *device && p
                == *path,
            _ => false,
        }),
{
    match parse_u32(trim_text(text)) {
        Ok(v) => Ok(v),
        Err(reason) => Err(
            SysError::ParsingBacklightInfoFailed {
                device: device.clone(),
                path: path.clone(),
                reason,
            },
        ),
    }
}

/// A backlight device, named by its directory in the registry.
#[derive(Clone, Debug, PartialEq, Eq)]
pub struct BacklightDevice {
    pub device: String,
}

impl BacklightDevice {
    /// The device's name.
    pub fn device_name(&self) -> (r: String)
        ensures
            r == self.device,
    {
        self.device.clone()
    }

    /// The path of the attribute that `value` names.
    pub fn value_path(&self, value: Value) -> (r: String)
        ensures
            r@ == attribute_path_spec(self.device@, value_name(value)),
    {
        attribute_path(&self.device, value.as_str())
    }

    /// The path of the writable `brightness` attribute.
    pub fn brightness_path(&self) -> (r: String)
        ensures
            r@ == attribute_path_spec(self.device@, BRIGHTNESS_ATTRIBUTE@),
    {
        attribute_path(&self.device, BRIGHTNESS_ATTRIBUTE)
    }
}

/// What the login manager answered to a `SetBrightness` call, or why no
/// answer came.
#[derive(Clone, Debug, PartialEq, Eq)]
pub enum ServiceResponse {
    /// The call succeeded.
    Accepted,
    /// The service answered with the D-Bus error `name`.
    ErrorReply { name: String, reason: String },
    /// No answer came: the bus could not be reached or the call failed on
    /// the way.
    Failed { reason: String },
}

/// The next step of setting a backlight device's brightness: what the caller
/// performs next, or the outcome. The caller first reads the device's
/// maximum, and hands it to `set_after_max`.
#[derive(Debug, PartialEq, Eq)]
pub enum SetStep {
    /// Call the login manager's `SetBrightness` with this raw value.
    CallService { desired: u32 },
    /// Write this raw value to the `brightness` attribute.
    WriteAttribute { value: u32 },
    /// Setting is over, with this outcome.
    Finished(Result<(), Error>),
}

/// Whether a response says that the service lacks the method.
pub open spec fn is_method_not_found(response: ServiceResponse) -> bool {
    match response {
        ServiceResponse::ErrorReply { name, .. } => name@ == UNKNOWN_METHOD_ERROR@,
        _ => false,
    }
}

/// The step that follows `response` to the call that asked `device` to take
/// the raw value `desired`.
pub open spec fn service_step(device: String, desired: u32, response: ServiceResponse) -> SetStep {
    match response {
        ServiceResponse::Accepted => SetStep::Finished(Ok(())),
        ServiceResponse::ErrorReply { name, reason } => if name@ == UNKNOWN_METHOD_ERROR@ {
            SetStep::WriteAttribute { value: desired }
        } else {
            SetStep::Finished(Err(error_of(SysError::CallingServiceFailed { device, reason })))
        },
        ServiceResponse::Failed { reason } => SetStep::Finished(
            Err(error_of(SysError::CallingServiceFailed { device, reason })),
        ),
    }
}

/// The step after reading the maximum of a device that is to take
/// `percentage`: the service call with the raw value for the percentage
/// held to 100, or the failure to read.
pub fn set_after_max(percentage: u32, max: Result<u32, SysError>) -> (r: SetStep)
    ensures
        r == (match max {
            Ok(m) => SetStep::CallService { desired: backlight_raw(percentage as int, m as int) as u32 },
            Err(e) => SetStep::Finished(Err(error_of(e))),
        }),
{
    match max {
        Ok(m) => SetStep::CallService { desired: raw_for_percentage(percentage, m) },
        Err(e) => SetStep::Finished(Err(Error::from(e))),
    }
}

/// The step after the `SetBrightness` call for `device` with the raw value
/// `desired`: done when it was accepted, a direct write of the same value
/// when the service lacks the method, and a setting failure otherwise.
pub fn after_service_call(device: &String, desired: u32, response: ServiceResponse) -> (r: SetStep)
    ensures
        r == service_step(*device, desired, response),
        r is WriteAttribute <==> is_method_not_found(response),
        r is WriteAttribute ==> r->value == desired,
{
    match response {
        ServiceResponse::Accepted => SetStep::Finished(Ok(())),
        ServiceResponse::ErrorReply { name, reason } => {
            let unknown = String::from_str(UNKNOWN_METHOD_ERROR);
            if name.eq(&unknown) {
                SetStep::WriteAttribute { value: desired }
            } else {
                SetStep::Finished(
                    Err(Error::from(SysError::CallingServiceFailed { device: device.clone(), reason })),
                )
            }
        },
        ServiceResponse::Failed { reason } => SetStep::Finished(
            Err(Error::from(SysError::CallingServiceFailed { device: device.clone(), reason })),
        ),
    }
}

/// The step after the direct write: setting is over, with the write's
/// failure as a setting failure.
pub fn set_after_write(written: Result<(), SysError>) -> (r: SetStep)
    ensures
        r == SetStep::Finished(
            match written {
                Ok(()) => Ok(()),
                Err(e) => Err(error_of(e)),
            },
        ),
{
    match written {
        Ok(()) => SetStep::Finished(Ok(())),
        Err(e) => SetStep::Finished(Err(Error::from(e))),
    }
}

/// What the registry listing showed of one entry: its name, where it is
/// valid UTF-8, and whether it holds the two readable attributes.
#[derive(Clone, Debug, PartialEq, Eq)]
pub struct BacklightEntry {
    pub name: Option<String>,
    pub has_actual: bool,
    pub has_max: bool,
}

/// What one listed entry contributes: an error where the entry could not be
/// read, a device where it has a name and both attributes, nothing
/// otherwise.
pub open spec fn entry_devices(entry: Result<BacklightEntry, String>) -> Seq<
    Result<BacklightDevice, SysError>,
> {
    match entry {
        Err(reason) => seq![Err(SysError::ReadingBacklightDirFailed { reason })],
        Ok(info) => if info.name is Some && info.has_actual && info.has_max {
            seq![Ok(BacklightDevice { device: info.name->Some_0 })]
        } else {
            seq![]
        },
    }
}

/// What the entries contribute, in the order of the listing.
pub open spec fn entries_devices(entries: Seq<Result<BacklightEntry, String>>) -> Seq<
    Result<BacklightDevice, SysError>,
>
    decreases entries.len(),
{
    if entries.len() == 0 {
        seq![]
    } else {
        entries_devices(entries.drop_last()) + entry_devices(entries.last())
    }
}

/// The devices of a registry listing: one error alone where the registry
/// could not be listed, else what each entry contributes.
pub open spec fn listing_devices(listing: Result<Seq<Result<BacklightEntry, String>>, String>) -> Seq<
    Result<BacklightDevice, SysError>,
> {
    match listing {
        Err(reason) => seq![Err(SysError::ReadingBacklightDirFailed { reason })],
        Ok(entries) => entries_devices(entries),
    }
}

/// The devices that a listing of the backlight registry shows. Entries that
/// lack a UTF-8 name or either readable attribute are skipped.
pub fn brightness_devices(listing: Result<Vec<Result<BacklightEntry, String>>, String>) -> (r: Vec<
    Result<BacklightDevice, SysError>,
>)
    ensures
        r@ == listing_devices(
            match listing {
                Ok(entries) => Ok(entries@),
                Err(reason) => Err(reason),
            },
        ),
{
    match listing {
        Err(reason) => {
            let mut out = Vec::new();
            out.push(Err(SysError::ReadingBacklightDirFailed { reason }));
            proof {
                assert(out@ =~= seq![Err(SysError::ReadingBacklightDirFailed { reason })]);
            }
            out
        },
        Ok(entries) => {
            let mut out: Vec<Result<BacklightDevice, SysError>> = Vec::new();
            let mut i: usize = 0;
            while i < entries.len()
                invariant
                    i <= entries.len(),
                    out@ == entries_devices(entries@.subrange(0, i as int)),
                decreases entries.len() - i,
            {
                proof {
                    assert(entries@.subrange(0, i + 1).drop_last() =~= entries@.subrange(0, i as int));
                }
                match &entries[i] {
                    Err(reason) => {
                        out.push(Err(SysError::ReadingBacklightDirFailed { reason: reason.clone() }));
                    },
                    Ok(info) => {
                        if info.has_actual && info.has_max {
                            match &info.name {
                                Some(name) => {
                                    out.push(Ok(BacklightDevice { device: name.clone() }));
                                },
                                None => {},
                            }
                        }
                    },
                }
                proof {
                    assert(out@ =~= entries_devices(entries@.subrange(0, i + 1)));
                }
                i = i + 1;
            }
            proof {
                assert(entries@.subrange(0, i as int) =~= entries@);
            }
            out
        },
    }
}

/// On a device whose maximum is positive and not below its actual value, the
/// percentage is the floor of `actual * 100 / max`; on a device whose
/// maximum is 0 it is 0.
pub proof fn lemma_percentage_formula(actual: u32, max: u32)
    requires
        max > 0 ==> actual <= max,
    ensures
        max > 0 ==> backlight_percentage(actual as int, max as int) == actual as int * 100 / max as int,
        max == 0 ==> backlight_percentage(actual as int, max as int) == 0,
{
    if max > 0 {
        assert(actual as int * 100 / max as int <= 100) by (nonlinear_arith)
            requires
                0 <= actual <= max,
                max > 0,
        ;
    }
}

/// A request above 100 sets what a request of 100 sets: the raw value
/// depends on the requested percentage only through `min(percentage, 100)`.
pub proof fn lemma_set_clamps(percentage: u32, max: u32)
    ensures
        backlight_raw(percentage as int, max as int) == backlight_raw(
            clamp_percentage(percentage as int),
            max as int,
        ),
        percentage >= 100 ==> backlight_raw(percentage as int, max as int) == max,
{
}

/// Reading a device twice, with no write between the readings, gives the
/// same percentage both times: it depends on the two attribute values alone.
pub proof fn lemma_get_is_stable(actual: u32, max: u32, actual_again: u32, max_again: u32)
    requires
        actual == actual_again,
        max == max_again,
    ensures
        backlight_percentage(actual as int, max as int) == backlight_percentage(
            actual_again as int,
            max_again as int,
        ),
{
}

} // verus!
