use headsetcontrol_tray::battery_rate::{BatteryRateTracker, RateSample};
use headsetcontrol_tray::config::Config;
use headsetcontrol_tray::headset_cli::{BatteryInfo, DeviceInfo, HeadsetControlOutput};
use headsetcontrol_tray::monitor::{poll_step, TrayWatchdog};
use headsetcontrol_tray::notifications::NotificationManager;

fn report(status: &str, battery: Option<(&str, Option<i32>)>) -> HeadsetControlOutput {
    HeadsetControlOutput {
        devices: vec![DeviceInfo {
            status: status.to_string(),
            device: "Arctis 7".to_string(),
            battery: battery.map(|(s, level)| BatteryInfo {
                status: s.to_string(),
                level,
                voltage_mv: None,
                time_to_empty_min: None,
                time_to_full_min: None,
            }),
            id_vendor: "0x1038".to_string(),
            id_product: "0x12ad".to_string(),
        }],
    }
}

fn summaries(v: &[headsetcontrol_tray::notifications::Notice]) -> Vec<(String, String)> {
    v.iter().map(|n| (n.summary.clone(), n.body.clone())).collect()
}

#[test]
fn poll_sequence() {
    let c = Config::default();
    let mut n = NotificationManager::new();
    let mut t = BatteryRateTracker::new();
    let r = poll_step(&mut n, &mut t, &c, Some(&report("success", Some(("BATTERY_AVAILABLE", Some(25))))), 0);
    assert_eq!(summaries(&r.notices), vec![("Headset Connected".to_string(), "Arctis 7".to_string())]);
    assert_eq!(r.sample, None);
    let r = poll_step(&mut n, &mut t, &c, Some(&report("success", Some(("BATTERY_AVAILABLE", Some(20))))), 600);
    assert_eq!(summaries(&r.notices), vec![("Headset Battery Low".to_string(), "Battery level is at 20%".to_string())]);
    assert_eq!(r.sample, Some(RateSample { charging: false, elapsed_nanos: 600, percent_delta: 5 }));
    let r = poll_step(&mut n, &mut t, &c, None, 700);
    assert_eq!(summaries(&r.notices), vec![("Headset Disconnected".to_string(), "Headset".to_string())]);
    assert_eq!(r.sample, None);
    let r = poll_step(&mut n, &mut t, &c, Some(&HeadsetControlOutput { devices: vec![] }), 800);
    assert!(r.notices.is_empty());
}

#[test]
fn connect_and_low_battery_in_one_poll() {
    let c = Config::default();
    let mut n = NotificationManager::new();
    let mut t = BatteryRateTracker::new();
    let r = poll_step(&mut n, &mut t, &c, Some(&report("success", Some(("BATTERY_AVAILABLE", Some(5))))), 0);
    assert_eq!(
        summaries(&r.notices),
        vec![
            ("Headset Connected".to_string(), "Arctis 7".to_string()),
            ("Headset Battery Low".to_string(), "Battery level is at 5%".to_string()),
        ]
    );
}

#[test]
fn readings_without_level_or_connection_are_not_recorded() {
    let c = Config::default();
    let mut n = NotificationManager::new();
    let mut t = BatteryRateTracker::new();
    poll_step(&mut n, &mut t, &c, Some(&report("success", Some(("BATTERY_AVAILABLE", None)))), 0);
    poll_step(&mut n, &mut t, &c, Some(&report("failure", Some(("BATTERY_AVAILABLE", Some(5))))), 0);
    // The tracker saw nothing yet: the first real reading only sets the baseline.
    assert_eq!(t.update(50, false, 10), None);
}

#[test]
fn disabled_notifications_poll_silently() {
    let mut c = Config::default();
    c.notifications_enabled = false;
    let mut n = NotificationManager::new();
    let mut t = BatteryRateTracker::new();
    let r = poll_step(&mut n, &mut t, &c, Some(&report("success", Some(("BATTERY_AVAILABLE", Some(5))))), 0);
    assert!(r.notices.is_empty());
    let r = poll_step(&mut n, &mut t, &c, None, 1);
    assert!(r.notices.is_empty());
}

#[test]
fn watchdog_gives_up_at_third_failure_in_a_row() {
    let mut w = TrayWatchdog::new();
    assert!(!w.record(false));
    assert!(!w.record(false));
    assert!(!w.record(true));
    assert!(!w.record(false));
    assert!(!w.record(false));
    assert!(w.record(false));
}
