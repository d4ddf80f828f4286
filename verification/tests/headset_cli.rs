use headsetcontrol_tray::headset_cli::{
    launch_failure, parse_failure, setting_args, setting_outcome, status_args, status_outcome, BatteryInfo,
    DeviceInfo, HeadsetControlOutput, Setting,
};

fn device(status: &str, battery_status: Option<&str>) -> DeviceInfo {
    DeviceInfo {
        status: status.to_string(),
        device: "Arctis 7".to_string(),
        battery: battery_status.map(|s| BatteryInfo {
            status: s.to_string(),
            level: Some(50),
            voltage_mv: None,
            time_to_empty_min: None,
            time_to_full_min: None,
        }),
        id_vendor: "0x1038".to_string(),
        id_product: "0x12ad".to_string(),
    }
}

#[test]
fn command_arguments() {
    assert_eq!(status_args(), vec!["-o".to_string(), "json".to_string(), "-b".to_string()]);
    assert_eq!(setting_args(Setting::Sidetone, 64), vec!["-s".to_string(), "64".to_string()]);
    assert_eq!(setting_args(Setting::InactiveTime, 0), vec!["-i".to_string(), "0".to_string()]);
    assert_eq!(setting_args(Setting::Sidetone, 255), vec!["-s".to_string(), "255".to_string()]);
}

#[test]
fn failure_messages() {
    assert_eq!(launch_failure("No such file or directory (os error 2)"),
        "Failed to execute headsetcontrol: No such file or directory (os error 2)");
    assert_eq!(parse_failure("EOF while parsing a value at line 1 column 0"),
        "Failed to parse headsetcontrol output: EOF while parsing a value at line 1 column 0");
}

#[test]
fn status_outcome_carries_stderr() {
    assert_eq!(status_outcome(true, b"ignored"), Ok(()));
    assert_eq!(status_outcome(false, b"No supported device found\n"),
        Err("headsetcontrol failed: No supported device found\n".to_string()));
}

#[test]
fn invalid_utf8_is_replaced() {
    assert_eq!(status_outcome(false, &[b'a', 0xff, b'b']), Err("headsetcontrol failed: a\u{FFFD}b".to_string()));
}

#[test]
fn setting_outcomes() {
    assert_eq!(setting_outcome(Setting::Sidetone, false, true, b""), Ok(()));
    assert_eq!(setting_outcome(Setting::Sidetone, true, false, b"boom"),
        Err("headsetcontrol failed to set sidetone".to_string()));
    assert_eq!(setting_outcome(Setting::Sidetone, false, false, b"boom"),
        Err("headsetcontrol failed to set sidetone: boom".to_string()));
    assert_eq!(setting_outcome(Setting::InactiveTime, true, false, b""),
        Err("headsetcontrol failed to set inactive time".to_string()));
    assert_eq!(setting_outcome(Setting::InactiveTime, false, false, b"no device"),
        Err("headsetcontrol failed to set inactive time: no device".to_string()));
}

#[test]
fn status_words() {
    assert!(device("success", None).is_connected());
    assert!(!device("failure", None).is_connected());
    assert!(!device("Success", None).is_connected());
    let charging = device("success", Some("BATTERY_CHARGING"));
    assert!(charging.battery.as_ref().unwrap().is_charging());
    let available = device("success", Some("BATTERY_AVAILABLE"));
    assert!(!available.battery.as_ref().unwrap().is_charging());
}

#[test]
fn first_device_of_report() {
    let empty = HeadsetControlOutput { devices: vec![] };
    assert!(empty.first_device().is_none());
    let two = HeadsetControlOutput { devices: vec![device("success", None), device("failure", None)] };
    assert_eq!(two.first_device().unwrap().status, "success");
}
