use headsetcontrol_tray::config::Config;
use headsetcontrol_tray::notifications::{Notice, NotificationManager};

fn texts(n: Option<Notice>) -> Option<(String, String)> {
    n.map(|n| (n.summary, n.body))
}

fn pair(a: &str, b: &str) -> Option<(String, String)> {
    Some((a.to_string(), b.to_string()))
}

#[test]
fn connection_changes_are_announced() {
    let mut m = NotificationManager::new();
    assert_eq!(texts(m.check_connection(true, "Arctis 7", true)), pair("Headset Connected", "Arctis 7"));
    assert_eq!(texts(m.check_connection(true, "Arctis 7", true)), None);
    assert_eq!(texts(m.check_connection(false, "Headset", true)), pair("Headset Disconnected", "Headset"));
    assert_eq!(texts(m.check_connection(false, "Headset", true)), None);
}

#[test]
fn disabled_connection_notices_still_track_state() {
    let mut m = NotificationManager::new();
    assert_eq!(texts(m.check_connection(true, "Arctis 7", false)), None);
    // The state was recorded, so enabling afterwards does not replay the connect.
    assert_eq!(texts(m.check_connection(true, "Arctis 7", true)), None);
    assert_eq!(texts(m.check_connection(false, "Arctis 7", true)), pair("Headset Disconnected", "Arctis 7"));
}

#[test]
fn low_battery_is_announced_once_per_crossing() {
    let c = Config::default();
    let mut m = NotificationManager::new();
    assert_eq!(texts(m.check_battery(30, false, &c)), None);
    assert_eq!(texts(m.check_battery(20, false, &c)), pair("Headset Battery Low", "Battery level is at 20%"));
    assert_eq!(texts(m.check_battery(15, false, &c)), None);
    assert_eq!(texts(m.check_battery(10, false, &c)), None);
    // Rising above the threshold re-arms the notice.
    assert_eq!(texts(m.check_battery(21, true, &c)), None);
    assert_eq!(texts(m.check_battery(19, false, &c)), pair("Headset Battery Low", "Battery level is at 19%"));
}

#[test]
fn low_battery_is_not_announced_while_charging() {
    let c = Config::default();
    let mut m = NotificationManager::new();
    assert_eq!(texts(m.check_battery(5, true, &c)), None);
}

#[test]
fn charged_is_announced_once_per_crossing() {
    let c = Config::default();
    let mut m = NotificationManager::new();
    assert_eq!(texts(m.check_battery(79, true, &c)), None);
    assert_eq!(texts(m.check_battery(80, true, &c)), pair("Headset Battery Charged", "Battery level is at 80%"));
    assert_eq!(texts(m.check_battery(100, true, &c)), None);
    assert_eq!(texts(m.check_battery(90, false, &c)), None);
    assert_eq!(texts(m.check_battery(100, true, &c)), None);
    assert_eq!(texts(m.check_battery(70, false, &c)), None);
    assert_eq!(texts(m.check_battery(85, true, &c)), pair("Headset Battery Charged", "Battery level is at 85%"));
}

#[test]
fn disabled_thresholds_never_announce() {
    let mut c = Config::default();
    c.discharge_level = None;
    c.charge_level = None;
    let mut m = NotificationManager::new();
    assert_eq!(texts(m.check_battery(1, false, &c)), None);
    assert_eq!(texts(m.check_battery(100, true, &c)), None);
}

#[test]
fn disabled_notifications_are_silent_but_remembered() {
    let mut c = Config::default();
    c.notifications_enabled = false;
    let mut m = NotificationManager::new();
    assert_eq!(texts(m.check_battery(10, false, &c)), None);
    c.notifications_enabled = true;
    // Already below the threshold when enabled: no late notice.
    assert_eq!(texts(m.check_battery(9, false, &c)), None);
}

#[test]
fn negative_level_body() {
    let c = Config::default();
    let mut m = NotificationManager::new();
    assert_eq!(texts(m.check_battery(-1, false, &c)), pair("Headset Battery Low", "Battery level is at -1%"));
}

#[test]
fn low_battery_once_per_drop_across_many_readings() {
    let c = Config::default();
    let mut m = NotificationManager::new();
    assert_eq!(texts(m.check_battery(18, false, &c)), pair("Headset Battery Low", "Battery level is at 18%"));
    assert_eq!(texts(m.check_battery(19, true, &c)), None);
    assert_eq!(texts(m.check_connection(false, "Headset", true)), None);
    assert_eq!(texts(m.check_battery(20, true, &c)), None);
    assert_eq!(texts(m.check_battery(12, false, &c)), None);
    assert_eq!(texts(m.check_battery(3, false, &c)), None);
}

#[test]
fn charged_once_per_rise_across_many_readings() {
    let c = Config::default();
    let mut m = NotificationManager::new();
    assert_eq!(texts(m.check_battery(81, true, &c)), pair("Headset Battery Charged", "Battery level is at 81%"));
    assert_eq!(texts(m.check_battery(80, false, &c)), None);
    assert_eq!(texts(m.check_battery(95, true, &c)), None);
    assert_eq!(texts(m.check_battery(100, true, &c)), None);
}
