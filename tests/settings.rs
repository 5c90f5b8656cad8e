use pwcca_auto::config::{Config, PowerConfig};
use pwcca_auto::connection::{is_ethernet_plugged_in, AdapterInfo, ErrorEnum, WlanHandlerError};
use pwcca_auto::display::{clamp_frequency, distinct_sorted, next_refresh_rate};
use pwcca_auto::power::{plan_power, PowerPlan, SystemPowerStatus};
use pwcca_auto::taskbar::{should_hide_taskbar, TaskbarSize, WindowInfo};

#[test]
fn new_config_has_power_thresholds() {
    let c = Config::new();
    assert!(!c.startup && !c.ethernet);
    assert!(!c.microphone.enabled && c.microphone.apps.is_empty());
    assert_eq!(c.power, PowerConfig { enabled: false, timer: 300, percentage: 60 });
    assert!(!c.autostart.enabled && !c.taskbar.enabled);
    let d = Config::default();
    assert_eq!(d.power, PowerConfig { enabled: false, timer: 0, percentage: 0 });
    assert_ne!(c, d);
}

#[test]
fn toggles_flip_one_setting() {
    let mut c = Config::new();
    c.microphone.apps.push("chat.exe".to_string());
    c.toggle_startup();
    assert!(c.startup);
    c.toggle_ethernet();
    assert!(c.ethernet);
    c.toggle_microphone();
    assert!(c.microphone.enabled);
    assert_eq!(c.microphone.apps, vec!["chat.exe".to_string()]);
    c.toggle_power();
    assert!(c.power.enabled);
    c.toggle_autostart();
    assert!(c.autostart.enabled);
    c.toggle_taskbar();
    assert!(c.taskbar.enabled);
    c.toggle_taskbar();
    assert!(!c.taskbar.enabled);
    c.toggle_startup();
    assert!(!c.startup);
}

#[test]
fn set_power_keeps_enabled() {
    let mut c = Config::new();
    c.toggle_power();
    c.set_power(120, 25);
    assert_eq!(c.power, PowerConfig { enabled: true, timer: 120, percentage: 25 });
}

fn battery(plugged: bool, percent: u8) -> SystemPowerStatus {
    SystemPowerStatus::from_raw(if plugged { 1 } else { 0 }, 0, percent, 3600)
}

#[test]
fn power_plan_on_battery() {
    let config = PowerConfig { enabled: true, timer: 300, percentage: 60 };
    assert_eq!(
        plan_power(&config, &battery(false, 80), 10),
        PowerPlan { use_saver: false, leave_saver: false, on_battery_secs: 11 }
    );
    assert_eq!(
        plan_power(&config, &battery(false, 80), 301),
        PowerPlan { use_saver: true, leave_saver: false, on_battery_secs: 302 }
    );
    assert_eq!(
        plan_power(&config, &battery(false, 59), 0),
        PowerPlan { use_saver: true, leave_saver: false, on_battery_secs: 1 }
    );
    assert_eq!(plan_power(&config, &battery(false, 59), u32::MAX).on_battery_secs, u32::MAX);
}

#[test]
fn power_plan_on_mains_and_disabled() {
    let config = PowerConfig { enabled: true, timer: 0, percentage: 60 };
    assert_eq!(
        plan_power(&config, &battery(true, 10), 500),
        PowerPlan { use_saver: false, leave_saver: true, on_battery_secs: 0 }
    );
    let off = PowerConfig { enabled: false, timer: 300, percentage: 60 };
    assert_eq!(
        plan_power(&off, &battery(false, 5), 900),
        PowerPlan { use_saver: false, leave_saver: false, on_battery_secs: 900 }
    );
    let status = SystemPowerStatus::from_raw(1, 1, 42, 7);
    assert!(status.is_plugged_in && status.is_battery_saver_enabled);
    assert_eq!(status.remaining_percentage, 42);
    assert!(!SystemPowerStatus::from_raw(255, 0, 100, 0).is_plugged_in);
}

#[test]
fn refresh_rates() {
    assert_eq!(distinct_sorted(&vec![60, 144, 60, 120, 144, 75]), vec![60, 75, 120, 144]);
    assert!(distinct_sorted(&Vec::new()).is_empty());
    assert_eq!(clamp_frequency(30, 144), 60);
    assert_eq!(clamp_frequency(240, 144), 144);
    assert_eq!(clamp_frequency(100, 144), 100);
    assert_eq!(clamp_frequency(30, 50), 50);
    assert_eq!(next_refresh_rate(60, 144), 144);
    assert_eq!(next_refresh_rate(144, 144), 60);
}

fn window(visible: bool, maximized: bool, name: &str) -> WindowInfo {
    WindowInfo { visible, maximized, process_name: name.to_string() }
}

#[test]
fn taskbar_hides_without_maximized_listed_window() {
    let apps = vec!["game.exe".to_string()];
    assert!(should_hide_taskbar(&vec![window(true, false, "game.exe"), window(true, true, "other.exe")], &apps));
    assert!(!should_hide_taskbar(&vec![window(true, true, "other.exe"), window(true, true, "game.exe")], &apps));
    assert!(should_hide_taskbar(&vec![window(false, true, "game.exe")], &apps));
    assert!(should_hide_taskbar(&Vec::new(), &apps));
}

#[test]
fn taskbar_size_from_rect() {
    assert_eq!(TaskbarSize::new(), TaskbarSize { height: 0, width: 0 });
    assert_eq!(TaskbarSize::default(), TaskbarSize::new());
    assert_eq!(TaskbarSize::from_rect(0, 1032, 1920, 1080), TaskbarSize { height: 48, width: 1920 });
    assert_eq!(TaskbarSize::from_rect(10, 5, 0, 0), TaskbarSize { height: 4294967291, width: 4294967286 });
}

#[test]
fn wlan_errors_by_code() {
    let e = WlanHandlerError::new(87);
    assert_eq!(e.kind, ErrorEnum::InvalidParameters);
    assert_eq!(e.error, "\"Invalid parameters.\"");
    assert_eq!(WlanHandlerError::new(8).kind, ErrorEnum::NotEnoughMemory);
    assert_eq!(WlanHandlerError::new(1220).error, "\"Too many handles have been issued by the server.\"");
    assert_eq!(WlanHandlerError::new(6).kind, ErrorEnum::InvalidHandle);
    let u = WlanHandlerError::new(1234);
    assert_eq!(u.kind, ErrorEnum::Unknown);
    assert_eq!(u.error, "Unknown (WIN32_ERROR(1234))");
    assert_eq!(WlanHandlerError::new(0).error, "Unknown (WIN32_ERROR(0))");
}

fn adapter(if_type: u32, name: &str, is_up: bool) -> AdapterInfo {
    AdapterInfo { if_type, friendly_name: name.to_string(), is_up }
}

#[test]
fn ethernet_state_from_first_wired_adapter() {
    assert!(is_ethernet_plugged_in(&vec![adapter(71, "Wi-Fi", true), adapter(6, "Ethernet", true)]));
    assert!(!is_ethernet_plugged_in(&vec![adapter(6, "Ethernet", false), adapter(6, "Ethernet", true)]));
    assert!(!is_ethernet_plugged_in(&vec![adapter(6, "Ethernet 2", true)]));
    assert!(!is_ethernet_plugged_in(&Vec::new()));
}
