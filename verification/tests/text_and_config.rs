use headsetcontrol_tray::autostart::{
    autostart_change, autostart_entry_path, autostart_location, autostart_location_in, autostart_plan,
    is_autostart_enabled, AutostartChange,
    DESKTOP_FILE_CONTENT, DESKTOP_FILE_NAME,
};
use headsetcontrol_tray::config::{config_path_for_home, get_config_path, Config};
use headsetcontrol_tray::{int_to_text, join_path, nat_to_text};

#[test]
fn decimal_rendering_matches_display() {
    for v in [0i32, 7, 10, 42, 99, 100, 128, 1234567, -1, -42, i32::MAX, i32::MIN] {
        assert_eq!(int_to_text(v), v.to_string());
    }
    assert_eq!(nat_to_text(0), "0");
    assert_eq!(nat_to_text(u64::MAX), u64::MAX.to_string());
}

#[test]
fn join_inserts_one_separator() {
    assert_eq!(join_path(b"/home/alice", b".config"), b"/home/alice/.config".to_vec());
    assert_eq!(join_path(b"/home/alice/", b".config"), b"/home/alice/.config".to_vec());
    assert_eq!(join_path(b"/", b"tmp"), b"/tmp".to_vec());
    assert_eq!(join_path(b"", b"x"), b"x".to_vec());
}

#[test]
fn default_config_values() {
    let c = Config::default();
    assert_eq!(c.discharge_level, Some(20));
    assert_eq!(c.charge_level, Some(80));
    assert_eq!(c.sidetone_level, 64);
    assert_eq!(c.inactive_time, 0);
    assert!(c.reapply_on_startup);
    assert!(c.notifications_enabled);
}

#[test]
fn config_path_under_home() {
    assert_eq!(
        config_path_for_home(Some(b"/home/alice")),
        b"/home/alice/.config/headsetcontrol-widget/config.json".to_vec()
    );
    assert_eq!(
        config_path_for_home(Some(b"/home/bob/")),
        b"/home/bob/.config/headsetcontrol-widget/config.json".to_vec()
    );
}

#[test]
fn config_path_keeps_non_utf8_home_bytes() {
    assert_eq!(
        config_path_for_home(Some(b"/home/al\xffce")),
        b"/home/al\xffce/.config/headsetcontrol-widget/config.json".to_vec()
    );
}

#[test]
fn config_path_without_home_falls_back_to_tmp() {
    assert_eq!(config_path_for_home(None), b"/tmp/.config/headsetcontrol-widget/config.json".to_vec());
}

#[test]
fn current_config_path_has_the_fixed_tail() {
    let p = get_config_path();
    assert!(p.ends_with(b"/.config/headsetcontrol-widget/config.json"));
    assert!(p.len() > b"/.config/headsetcontrol-widget/config.json".len());
}

#[test]
fn autostart_location_under_config_dir() {
    let l = autostart_location_in(b"/home/alice/.config");
    assert_eq!(l.dir, b"/home/alice/.config/autostart".to_vec());
    assert_eq!(l.file, b"/home/alice/.config/autostart/headsetcontrol-tray.desktop".to_vec());
    let l = autostart_location_in(b"/home/\x80/.config/");
    assert_eq!(l.file, b"/home/\x80/.config/autostart/headsetcontrol-tray.desktop".to_vec());
    assert_eq!(DESKTOP_FILE_NAME, "headsetcontrol-tray.desktop");
}

#[test]
fn current_autostart_location_is_consistent() {
    if let Some(l) = autostart_location() {
        assert!(l.dir.ends_with(b"/autostart"));
        let mut expected = l.dir.clone();
        expected.push(b'/');
        expected.extend_from_slice(DESKTOP_FILE_NAME.as_bytes());
        assert_eq!(l.file, expected);
    }
    // Whether the entry is installed depends on the machine; the query must not fail.
    let _ = is_autostart_enabled();
}

#[test]
fn desktop_entry_contents() {
    assert!(DESKTOP_FILE_CONTENT.starts_with("[Desktop Entry]\n"));
    assert!(DESKTOP_FILE_CONTENT.contains("Exec=headsetcontrol-tray\n"));
    assert!(DESKTOP_FILE_CONTENT.ends_with("X-GNOME-Autostart-enabled=true\n"));
}

#[test]
fn autostart_changes() {
    assert_eq!(autostart_change(true, false), AutostartChange::Install);
    assert_eq!(autostart_change(true, true), AutostartChange::Install);
    assert_eq!(autostart_change(false, true), AutostartChange::Remove);
    assert_eq!(autostart_change(false, false), AutostartChange::Keep);
}

#[test]
fn autostart_entry_to_check() {
    assert_eq!(autostart_entry_path(None), None);
    assert_eq!(
        autostart_entry_path(Some(b"/home/alice/.config")),
        Some(b"/home/alice/.config/autostart/headsetcontrol-tray.desktop".to_vec())
    );
}

#[test]
fn autostart_plans() {
    match autostart_plan(None, true, false) {
        Err(e) => assert_eq!(e, "Could not determine autostart directory"),
        Ok(_) => panic!("expected an error"),
    }
    match autostart_plan(Some(autostart_location_in(b"/c")), false, true) {
        Ok((l, change)) => {
            assert_eq!(l.file, b"/c/autostart/headsetcontrol-tray.desktop".to_vec());
            assert_eq!(change, AutostartChange::Remove);
        }
        Err(_) => panic!("expected a plan"),
    }
    match autostart_plan(Some(autostart_location_in(b"/c")), true, true) {
        Ok((_, change)) => assert_eq!(change, AutostartChange::Install),
        Err(_) => panic!("expected a plan"),
    }
    match autostart_plan(Some(autostart_location_in(b"/c")), false, false) {
        Ok((_, change)) => assert_eq!(change, AutostartChange::Keep),
        Err(_) => panic!("expected a plan"),
    }
}
