use headsetcontrol_tray::headset_cli::{BatteryInfo, DeviceInfo, HeadsetControlOutput};
use headsetcontrol_tray::tray::{battery_reading, connected_device, format_battery_info, icon_name, info_lines, tool_tip};

fn report(status: &str, battery: Option<(&str, Option<i32>)>) -> Option<HeadsetControlOutput> {
    Some(HeadsetControlOutput {
        devices: vec![DeviceInfo {
            status: status.to_string(),
            device: "Arctis Nova 7".to_string(),
            battery: battery.map(|(s, level)| BatteryInfo {
                status: s.to_string(),
                level,
                voltage_mv: None,
                time_to_empty_min: None,
                time_to_full_min: None,
            }),
            id_vendor: "0x1038".to_string(),
            id_product: "0x2202".to_string(),
        }],
    })
}

#[test]
fn battery_info_texts() {
    assert_eq!(format_battery_info(55, true, Some("1.5")), ("55%".to_string(), "(Charging, ~1.5h to full)".to_string()));
    assert_eq!(format_battery_info(40, false, Some("3.0")), ("40%".to_string(), "(Discharging, ~3.0h)".to_string()));
    assert_eq!(format_battery_info(40, false, None), ("40%".to_string(), "(Discharging)".to_string()));
    assert_eq!(format_battery_info(100, true, None), ("100%".to_string(), "(Charging)".to_string()));
}

#[test]
fn icon_follows_connection() {
    assert_eq!(icon_name(&None), "audio-headphones");
    assert_eq!(icon_name(&Some(HeadsetControlOutput { devices: vec![] })), "audio-headphones");
    assert_eq!(icon_name(&report("failure", None)), "audio-headphones");
    assert_eq!(icon_name(&report("success", None)), "audio-headset");
}

#[test]
fn connected_device_and_reading() {
    assert!(connected_device(&report("failure", None)).is_none());
    assert_eq!(connected_device(&report("success", None)).unwrap().device, "Arctis Nova 7");
    assert_eq!(battery_reading(&report("success", Some(("BATTERY_CHARGING", Some(42))))), Some((42, true)));
    assert_eq!(battery_reading(&report("success", Some(("BATTERY_AVAILABLE", None)))), Some((0, false)));
    assert_eq!(battery_reading(&report("success", None)), None);
    assert_eq!(battery_reading(&report("failure", Some(("BATTERY_AVAILABLE", Some(42))))), None);
}

#[test]
fn tool_tip_when_connected() {
    let t = tool_tip(&report("success", Some(("BATTERY_AVAILABLE", Some(64)))), Some("5.2"));
    assert_eq!(t.title, "Arctis Nova 7");
    assert_eq!(t.description, "Status: Connected\nBattery: 64% (Discharging, ~5.2h)");
    assert_eq!(t.icon_name, "audio-headset");
}

#[test]
fn tool_tip_without_battery() {
    let t = tool_tip(&report("success", None), None);
    assert_eq!(t.description, "Status: Connected\nBattery: Unknown ");
}

#[test]
fn tool_tip_when_disconnected() {
    let t = tool_tip(&None, None);
    assert_eq!(t.title, "HeadsetControl");
    assert_eq!(t.description, "No headset connected");
    assert_eq!(t.icon_name, "audio-headphones");
    let t = tool_tip(&report("failure", None), Some("1.0"));
    assert_eq!(t.title, "HeadsetControl");
    assert_eq!(t.description, "No headset connected");
}

#[test]
fn info_lines_of_menu() {
    assert_eq!(info_lines(&None, None), vec!["No headset connected".to_string()]);
    assert_eq!(
        info_lines(&report("success", Some(("BATTERY_CHARGING", Some(90)))), Some("0.4")),
        vec!["Arctis Nova 7 — 90%".to_string(), "(Charging, ~0.4h to full)".to_string()]
    );
    assert_eq!(info_lines(&report("success", None), None), vec!["Arctis Nova 7 — Unknown".to_string()]);
}
