//! What the tray shows: its icon, its tool tip and the contents of its menu,
//! and what choosing a menu entry does to the settings. Drawing the tray and
//! reacting to clicks is left to the caller, which also supplies the
//! estimated remaining time already written out in hours.

use vstd::prelude::*;

use crate::config::opt_text;
use crate::headset_cli::{
    battery_charging,
    device_connected,
    first_device_spec,
    DeviceInfo,
    HeadsetControlOutput,
};
use crate::text::{int_text, int_to_text};

verus! {

/// The device shown as connected: the first device of the last report, when
/// there is a report and that device's status is `success`.
pub open spec fn connected_device_spec(status: Option<HeadsetControlOutput>) -> Option<DeviceInfo> {
    match status {
        Some(o) => match first_device_spec(o) {
            Some(d) => if device_connected(d) {
                Some(d)
            } else {
                None
            },
            None => None,
        },
        None => None,
    }
}

/// The battery reading shown for the connected device: its level (0 when
/// the tool gave none) and whether it is charging.
pub open spec fn battery_reading_spec(status: Option<HeadsetControlOutput>) -> Option<(i32, bool)> {
    match connected_device_spec(status) {
        Some(d) => match d.battery {
            Some(b) => Some(
                (
                    match b.level {
                        Some(l) => l,
                        None => 0,
                    },
                    battery_charging(b),
                ),
            ),
            None => None,
        },
        None => None,
    }
}

/// The connected device of the last report, if any.
pub fn connected_device(status: &Option<HeadsetControlOutput>) -> (r: Option<&DeviceInfo>)
    ensures
        match r {
            Some(d) => connected_device_spec(*status) == Some(*d),
            None => connected_device_spec(*status) is None,
        },
{
    match status {
        Some(output) => match output.first_device() {
            Some(device) => if device.is_connected() {
                Some(device)
            } else {
                None
            },
            None => None,
        },
        None => None,
    }
}

/// The battery level and charging state of the connected device, if it
/// reports a battery.
pub fn battery_reading(status: &Option<HeadsetControlOutput>) -> (r: Option<(i32, bool)>)
    ensures
        r == battery_reading_spec(*status),
{
    match connected_device(status) {
        Some(device) => match &device.battery {
            Some(b) => {
                let level = match b.level {
                    Some(l) => l,
                    None => 0,
                };
                Some((level, b.is_charging()))
            },
            None => None,
        },
        None => None,
    }
}

/// The icon: a headset while a device is connected, headphones otherwise.
pub open spec fn icon_name_spec(status: Option<HeadsetControlOutput>) -> Seq<char> {
    if connected_device_spec(status) is Some {
        "audio-headset"@
    } else {
        "audio-headphones"@
    }
}

/// The name of the tray's icon.
pub fn icon_name(status: &Option<HeadsetControlOutput>) -> (r: String)
    ensures
        r@ == icon_name_spec(*status),
{
    match connected_device(status) {
        Some(_) => String::from_str("audio-headset"),
        None => String::from_str("audio-headphones"),
    }
}

/// The battery level as shown: the level followed by `%`.
pub open spec fn percentage_text(level: i32) -> Seq<char> {
    int_text(level as int) + "%"@
}

/// The charging state and, when known, the remaining time in hours, in
/// parentheses: `(Charging, ~1.5h to full)` or `(Discharging, ~3.0h)`.
pub open spec fn details_text(charging: bool, hours: Option<Seq<char>>) -> Seq<char> {
    let state = if charging {
        "Charging"@
    } else {
        "Discharging"@
    };
    let clause = match hours {
        Some(h) => ", ~"@ + h + "h"@ + (if charging {
            " to full"@
        } else {
            Seq::<char>::empty()
        }),
        None => Seq::<char>::empty(),
    };
    "("@ + state + clause + ")"@
}

/// The percentage and the details for a battery reading; `hours` is the
/// estimated remaining time already written out, if there is an estimate.
pub fn format_battery_info(level: i32, charging: bool, hours: Option<&str>) -> (r: (String, String))
    ensures
        r.0@ == percentage_text(level),
        r.1@ == details_text(charging, opt_text(hours)),
{
    let percentage = int_to_text(level).concat("%");
    let state = if charging {
        "Charging"
    } else {
        "Discharging"
    };
    let mut details = String::from_str("(").concat(state);
    let ghost base = details@;
    match hours {
        Some(h) => {
            details.append(", ~");
            details.append(h);
            details.append("h");
            if charging {
                details.append(" to full");
                assert(details@ =~= base + (", ~"@ + h@ + "h"@ + " to full"@));
            } else {
                assert(details@ =~= base + (", ~"@ + h@ + "h"@ + Seq::<char>::empty()));
            }
        },
        None => {
            assert(details@ =~= base + Seq::<char>::empty());
        },
    }
    details.append(")");
    (percentage, details)
}

/// The percentage and details shown for a connected device: `Unknown` and
/// nothing when it reports no battery.
pub open spec fn battery_texts(d: DeviceInfo, hours: Option<Seq<char>>) -> (Seq<char>, Seq<char>) {
    match d.battery {
        Some(b) => (
            percentage_text(
                match b.level {
                    Some(l) => l,
                    None => 0,
                },
            ),
            details_text(battery_charging(b), hours),
        ),
        None => ("Unknown"@, Seq::<char>::empty()),
    }
}

fn device_battery_texts(device: &DeviceInfo, hours: Option<&str>) -> (r: (String, String))
    ensures
        (r.0@, r.1@) == battery_texts(*device, opt_text(hours)),
{
    match &device.battery {
        Some(b) => {
            let level = match b.level {
                Some(l) => l,
                None => 0,
            };
            format_battery_info(level, b.is_charging(), hours)
        },
        None => (String::from_str("Unknown"), String::new()),
    }
}

/// The texts of the tray's tool tip.
pub struct ToolTipText {
    pub title: String,
    pub description: String,
    pub icon_name: String,
}

/// The tool tip's title: the device's name while connected.
pub open spec fn tool_tip_title(status: Option<HeadsetControlOutput>) -> Seq<char> {
    match connected_device_spec(status) {
        Some(d) => d.device@,
        None => "HeadsetControl"@,
    }
}

/// The tool tip's description: the connection and battery state.
pub open spec fn tool_tip_description(status: Option<HeadsetControlOutput>, hours: Option<Seq<char>>) -> Seq<
    char,
> {
    match connected_device_spec(status) {
        Some(d) => {
            let texts = battery_texts(d, hours);
            "Status: Connected\nBattery: "@ + texts.0 + " "@ + texts.1
        },
        None => "No headset connected"@,
    }
}

/// The tool tip for the last report; `hours` is the estimated remaining
/// time already written out, if there is an estimate.
pub fn tool_tip(status: &Option<HeadsetControlOutput>, hours: Option<&str>) -> (r: ToolTipText)
    ensures
        r.title@ == tool_tip_title(*status),
        r.description@ == tool_tip_description(*status, opt_text(hours)),
        r.icon_name@ == icon_name_spec(*status),
{
    let icon = icon_name(status);
    match connected_device(status) {
        Some(device) => {
            let (percentage, details) = device_battery_texts(device, hours);
            let description = String::from_str("Status: Connected\nBattery: ").concat(
                percentage.as_str(),
            ).concat(" ").concat(details.as_str());
            ToolTipText { title: device.device.clone(), description, icon_name: icon }
        },
        None => ToolTipText {
            title: String::from_str("HeadsetControl"),
            description: String::from_str("No headset connected"),
            icon_name: icon,
        },
    }
}

/// The disabled lines at the top of the menu: the device and its battery,
/// with the details on a line of their own when there are any.
pub open spec fn info_lines_spec(status: Option<HeadsetControlOutput>, hours: Option<Seq<char>>) -> Seq<
    Seq<char>,
> {
    match connected_device_spec(status) {
        Some(d) => {
            let texts = battery_texts(d, hours);
            let first = d.device@ + " — "@ + texts.0;
            if texts.1.len() == 0 {
                seq![first]
            } else {
                seq![first, texts.1]
            }
        },
        None => seq!["No headset connected"@],
    }
}

/// The view of a list of texts.
pub open spec fn texts_view(v: Seq<String>) -> Seq<Seq<char>> {
    v.map_values(|s: String| s@)
}

/// The information lines of the menu.
pub fn info_lines(status: &Option<HeadsetControlOutput>, hours: Option<&str>) -> (r: Vec<String>)
    ensures
        texts_view(r@) == info_lines_spec(*status, opt_text(hours)),
{
    let mut lines: Vec<String> = Vec::new();
    match connected_device(status) {
        Some(device) => {
            let (percentage, details) = device_battery_texts(device, hours);
            let first = device.device.clone().concat(" — ").concat(percentage.as_str());
            let has_details = !details.as_str().is_empty();
            lines.push(first);
            if has_details {
                lines.push(details);
            }
        },
        None => {
            lines.push(String::from_str("No headset connected"));
        },
    }
    assert(texts_view(lines@) =~= info_lines_spec(*status, opt_text(hours)));
    lines
}

/// The tool tip of a connected device with a battery shows its level and
/// the state its battery reports: `Charging` and `to full` when the
/// battery's status is `BATTERY_CHARGING`, `Discharging` otherwise; with no
/// estimate the time is left out. The menu's second line shows the same
/// details.
pub proof fn tool_tip_shows_the_battery_state(o: HeadsetControlOutput, l: i32, hours: Option<Seq<char>>)
    requires
        o.devices@.len() > 0,
        o.devices@[0].status@ == "success"@,
        o.devices@[0].battery is Some,
        o.devices@[0].battery.unwrap().level == Some(l),
    ensures
        ({
            let charging = o.devices@[0].battery.unwrap().status@ == "BATTERY_CHARGING"@;
            let details = match hours {
                Some(h) => if charging {
                    "("@ + "Charging"@ + ", ~"@ + h + "h"@ + " to full"@ + ")"@
                } else {
                    "("@ + "Discharging"@ + ", ~"@ + h + "h"@ + ")"@
                },
                None => if charging {
                    "("@ + "Charging"@ + ")"@
                } else {
                    "("@ + "Discharging"@ + ")"@
                },
            };
            &&& tool_tip_title(Some(o)) == o.devices@[0].device@
            &&& tool_tip_description(Some(o), hours) == "Status: Connected\nBattery: "@ + int_text(l as int)
                + "%"@ + " "@ + details
            &&& info_lines_spec(Some(o), hours) == seq![
                o.devices@[0].device@ + " — "@ + int_text(l as int) + "%"@,
                details,
            ]
            &&& icon_name_spec(Some(o)) == "audio-headset"@
        }),
{
    let charging = o.devices@[0].battery.unwrap().status@ == "BATTERY_CHARGING"@;
    let details = details_text(charging, hours);
    match hours {
        Some(h) => {
            if charging {
                assert(details =~= "("@ + "Charging"@ + ", ~"@ + h + "h"@ + " to full"@ + ")"@);
            } else {
                assert(details =~= "("@ + "Discharging"@ + ", ~"@ + h + "h"@ + ")"@);
            }
        },
        None => {
            if charging {
                assert(details =~= "("@ + "Charging"@ + ")"@);
            } else {
                assert(details =~= "("@ + "Discharging"@ + ")"@);
            }
        },
    }
    assert(details.len() > 0) by {
        reveal_strlit("(");
    }
    let d = o.devices@[0];
    let pct = int_text(l as int) + "%"@;
    assert(battery_texts(d, hours) == (pct, details));
    assert(tool_tip_description(Some(o), hours) =~= "Status: Connected\nBattery: "@ + int_text(l as int)
        + "%"@ + " "@ + details);
    assert(d.device@ + " — "@ + pct =~= d.device@ + " — "@ + int_text(l as int) + "%"@);
}

} // verus!
