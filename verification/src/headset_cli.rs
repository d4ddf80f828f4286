//! The report of the `headsetcontrol` command-line tool, the arguments the
//! tray passes to it and how its outcome is turned into a result. Running
//! the process and decoding its JSON report happen in the caller.

use vstd::prelude::*;

use crate::platform::{lossy_text, utf8_lossy};
use crate::text::{nat_text, nat_to_text};

verus! {

/// The battery part of a device report.
#[derive(Clone, Debug)]
pub struct BatteryInfo {
    pub status: String,
    pub level: Option<i32>,
    pub voltage_mv: Option<i32>,
    pub time_to_empty_min: Option<i32>,
    pub time_to_full_min: Option<i32>,
}

/// One device in the report.
#[derive(Clone, Debug)]
pub struct DeviceInfo {
    pub status: String,
    pub device: String,
    pub battery: Option<BatteryInfo>,
    pub id_vendor: String,
    pub id_product: String,
}

/// The whole report of `headsetcontrol -o json -b`.
#[derive(Clone, Debug)]
pub struct HeadsetControlOutput {
    pub devices: Vec<DeviceInfo>,
}

/// A device counts as connected when its status is `success`.
pub open spec fn device_connected(d: DeviceInfo) -> bool {
    d.status@ == "success"@
}

/// A battery counts as charging when its status is `BATTERY_CHARGING`.
pub open spec fn battery_charging(b: BatteryInfo) -> bool {
    b.status@ == "BATTERY_CHARGING"@
}

/// The first device of a report, if there is one.
pub open spec fn first_device_spec(o: HeadsetControlOutput) -> Option<DeviceInfo> {
    if o.devices@.len() > 0 {
        Some(o.devices@[0])
    } else {
        None
    }
}

impl BatteryInfo {
    /// Whether the battery is charging.
    pub fn is_charging(&self) -> (r: bool)
        ensures
            r == battery_charging(*self),
    {
        let charging = String::from_str("BATTERY_CHARGING");
        self.status == charging
    }
}

impl DeviceInfo {
    /// Whether the device is connected.
    pub fn is_connected(&self) -> (r: bool)
        ensures
            r == device_connected(*self),
    {
        let success = String::from_str("success");
        self.status == success
    }
}

impl HeadsetControlOutput {
    /// The first device of the report, if there is one.
    pub fn first_device(&self) -> (r: Option<&DeviceInfo>)
        ensures
            match r {
                Some(d) => first_device_spec(*self) == Some(*d),
                None => first_device_spec(*self) is None,
            },
    {
        if self.devices.len() > 0 {
            Some(&self.devices[0])
        } else {
            None
        }
    }
}

/// A setting the tray changes on the headset.
#[derive(Clone, Copy, Debug, PartialEq, Eq, Structural)]
pub enum Setting {
    Sidetone,
    InactiveTime,
}

/// The command-line flag of a setting.
pub open spec fn setting_flag(s: Setting) -> Seq<char> {
    match s {
        Setting::Sidetone => "-s"@,
        Setting::InactiveTime => "-i"@,
    }
}

/// How a setting is named in error messages.
pub open spec fn setting_name(s: Setting) -> Seq<char> {
    match s {
        Setting::Sidetone => "sidetone"@,
        Setting::InactiveTime => "inactive time"@,
    }
}

/// Arguments that ask for the JSON report with battery information.
pub fn status_args() -> (r: Vec<String>)
    ensures
        r@.len() == 3,
        r@[0]@ == "-o"@,
        r@[1]@ == "json"@,
        r@[2]@ == "-b"@,
{
    let mut r: Vec<String> = Vec::new();
    r.push(String::from_str("-o"));
    r.push(String::from_str("json"));
    r.push(String::from_str("-b"));
    r
}

/// Arguments that set `setting` to `value`: the flag, then the value in
/// decimal.
pub fn setting_args(setting: Setting, value: u8) -> (r: Vec<String>)
    ensures
        r@.len() == 2,
        r@[0]@ == setting_flag(setting),
        r@[1]@ == nat_text(value as nat),
{
    let mut r: Vec<String> = Vec::new();
    match setting {
        Setting::Sidetone => r.push(String::from_str("-s")),
        Setting::InactiveTime => r.push(String::from_str("-i")),
    }
    r.push(nat_to_text(value as u64));
    r
}

/// The message when the tool could not be started; `detail` is the
/// system's description of the failure.
pub fn launch_failure(detail: &str) -> (r: String)
    ensures
        r@ == "Failed to execute headsetcontrol: "@ + detail@,
{
    String::from_str("Failed to execute headsetcontrol: ").concat(detail)
}

/// The message when the report could not be decoded; `detail` is the
/// decoder's description of the failure.
pub fn parse_failure(detail: &str) -> (r: String)
    ensures
        r@ == "Failed to parse headsetcontrol output: "@ + detail@,
{
    String::from_str("Failed to parse headsetcontrol output: ").concat(detail)
}

/// The outcome of a status query that ran: an error carrying the tool's
/// error output when it did not succeed.
pub fn status_outcome(success: bool, stderr: &[u8]) -> (r: Result<(), String>)
    ensures
        success ==> r is Ok,
        !success ==> (r matches Err(e) && e@ == "headsetcontrol failed: "@ + utf8_lossy(stderr@)),
{
    if success {
        Ok(())
    } else {
        let text = lossy_text(stderr);
        Err(String::from_str("headsetcontrol failed: ").concat(text.as_str()))
    }
}

/// The message for a setting the tool failed to apply: in verbose mode the
/// tool's error output went to the terminal, otherwise it is appended.
pub open spec fn setting_failure_spec(setting: Setting, verbose: bool, stderr: Seq<u8>) -> Seq<char> {
    if verbose {
        "headsetcontrol failed to set "@ + setting_name(setting)
    } else {
        "headsetcontrol failed to set "@ + setting_name(setting) + ": "@ + utf8_lossy(stderr)
    }
}

/// The outcome of a setting command that ran.
pub fn setting_outcome(setting: Setting, verbose: bool, success: bool, stderr: &[u8]) -> (r: Result<
    (),
    String,
>)
    ensures
        success ==> r is Ok,
        !success ==> (r matches Err(e) && e@ == setting_failure_spec(setting, verbose, stderr@)),
{
    if success {
        return Ok(());
    }
    let name = match setting {
        Setting::Sidetone => "sidetone",
        Setting::InactiveTime => "inactive time",
    };
    let msg = String::from_str("headsetcontrol failed to set ").concat(name);
    if verbose {
        Err(msg)
    } else {
        let text = lossy_text(stderr);
        Err(msg.concat(": ").concat(text.as_str()))
    }
}

} // verus!
