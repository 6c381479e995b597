use yuki_daemon::caps::SysPathExist;
use yuki_daemon::power::PowerState;
use yuki_daemon::power::SessionStamp;
use yuki_daemon::power::is_charging_status;
use yuki_daemon::power::is_cpu_thermal_type;
use yuki_daemon::power::is_thermal_zone_name;
use yuki_daemon::power::plan_session_trim;
use yuki_daemon::rules::BootScriptEntry;
use yuki_daemon::rules::BootScriptsConfig;
use yuki_daemon::rules::enabled_scripts;
use yuki_daemon::rules::get_boot_scripts_path;
use yuki_daemon::rules::get_db_path;
use yuki_daemon::rules::get_mode_file_path;
use yuki_daemon::rules::get_rules_path;
use yuki_daemon::rules::get_scripts_dir;
use yuki_daemon::rules::script_path;
use yuki_daemon::screen::ScreenDecision;
use yuki_daemon::screen::backlight_state;
use yuki_daemon::screen::classify_uevent;
use yuki_daemon::screen::update_state_if_changed;

fn stamp(id: i64, ts: i64) -> SessionStamp {
    SessionStamp { session_id: id, min_timestamp: ts }
}

#[test]
fn trim_removes_exactly_the_oldest() {
    // five sessions, limit three: the two with the smallest timestamps go
    let sessions = vec![
        stamp(50, 5000),
        stamp(10, 1000),
        stamp(40, 4000),
        stamp(20, 2000),
        stamp(30, 3000),
    ];
    let mut doomed = plan_session_trim(&sessions, 3);
    doomed.sort();
    assert_eq!(doomed, vec![10, 20]);
}

#[test]
fn trim_with_zero_limit_keeps_one() {
    let sessions = vec![stamp(1, 100), stamp(2, 200), stamp(3, 300)];
    let mut doomed = plan_session_trim(&sessions, 0);
    doomed.sort();
    assert_eq!(doomed, vec![1, 2]);
}

#[test]
fn trim_under_limit_removes_nothing() {
    let sessions = vec![stamp(1, 100), stamp(2, 200)];
    assert!(plan_session_trim(&sessions, 2).is_empty());
    assert!(plan_session_trim(&sessions, 15).is_empty());
    assert!(plan_session_trim(&Vec::new(), 0).is_empty());
}

#[test]
fn charging_status_strings() {
    assert!(is_charging_status("Charging"));
    assert!(is_charging_status("Full"));
    assert!(!is_charging_status("Discharging"));
    assert!(!is_charging_status("charging"));
    assert!(!is_charging_status(""));
}

#[test]
fn power_tick_sessions_and_samples() {
    let mut st = PowerState { session_id: 111, last_charging: false };
    // discharging with the screen on: record, no trim
    let step = st.power_tick(true, Some(&"Discharging".to_string()), 999);
    assert!(!step.trim);
    assert!(step.record);
    assert_eq!(st.session_id, 111);
    // charging begins: no record, no trim
    let step = st.power_tick(true, Some(&"Charging".to_string()), 999);
    assert!(!step.trim);
    assert!(!step.record);
    assert!(st.last_charging);
    // charging stops: trim, new session stamped with the given time
    let step = st.power_tick(true, Some(&"Discharging".to_string()), 4242);
    assert!(step.trim);
    assert!(step.record);
    assert_eq!(st.session_id, 4242);
    // screen off: nothing happens, nothing is remembered
    let step = st.power_tick(false, Some(&"Charging".to_string()), 5000);
    assert!(!step.trim && !step.record);
    assert!(!st.last_charging);
    assert_eq!(st.session_id, 4242);
    // unreadable status: nothing happens
    let step = st.power_tick(true, None, 6000);
    assert!(!step.trim && !step.record);
}

#[test]
fn uevent_classification() {
    let early = "early_suspend".to_string();
    let late = "late_resume".to_string();
    let other = "wakeup".to_string();
    assert_eq!(classify_uevent("power", false, Some(&early)), ScreenDecision::SetState(false));
    assert_eq!(classify_uevent("power", true, Some(&late)), ScreenDecision::SetState(true));
    assert_eq!(classify_uevent("power", false, Some(&other)), ScreenDecision::Ignore);
    assert_eq!(classify_uevent("power", false, None), ScreenDecision::Ignore);
    assert_eq!(classify_uevent("backlight", true, None), ScreenDecision::ReadBacklight);
    assert_eq!(classify_uevent("backlight", false, None), ScreenDecision::Ignore);
    assert_eq!(classify_uevent("block", true, None), ScreenDecision::Ignore);
}

#[test]
fn backlight_judgement() {
    assert_eq!(backlight_state(Some(0), None), Some(true));
    assert_eq!(backlight_state(Some(4), None), Some(false));
    assert_eq!(backlight_state(Some(0), Some(0)), Some(true));
    assert_eq!(backlight_state(None, Some(128)), Some(true));
    assert_eq!(backlight_state(None, Some(0)), Some(false));
    assert_eq!(backlight_state(None, None), None);
}

#[test]
fn screen_state_updates_only_on_change() {
    let mut on = true;
    assert!(!update_state_if_changed(&mut on, true));
    assert!(on);
    assert!(update_state_if_changed(&mut on, false));
    assert!(!on);
    assert!(!update_state_if_changed(&mut on, false));
    assert!(!on);
}

#[test]
fn thermal_path_recognition() {
    assert!(is_thermal_zone_name("thermal_zone0"));
    assert!(is_thermal_zone_name("thermal_zone15"));
    assert!(!is_thermal_zone_name("cooling_device0"));
    assert!(is_cpu_thermal_type("soc_max"));
    assert!(is_cpu_thermal_type("mtktscpu"));
    assert!(is_cpu_thermal_type("cpu-1-0"));
    assert!(is_cpu_thermal_type("cpu-0-0-usr"));
    assert!(!is_cpu_thermal_type("battery"));
}

#[test]
fn module_file_locations() {
    assert_eq!(get_rules_path("/data/yuki"), "/data/yuki/rules.yaml");
    assert_eq!(get_boot_scripts_path("/data/yuki"), "/data/yuki/boot_scripts.yaml");
    assert_eq!(get_scripts_dir("/data/yuki"), "/data/yuki/scripts");
    assert_eq!(get_db_path("/data/yuki"), "/data/yuki/yuki_power.db");
    assert_eq!(get_mode_file_path("/data/yuki"), "/data/yuki/current_mode.txt");
    assert_eq!(script_path("/data/yuki/scripts", "tweak"), "/data/yuki/scripts/tweak.sh");
}

#[test]
fn boot_scripts_filtered_in_order() {
    let cfg = BootScriptsConfig {
        scripts: vec![
            BootScriptEntry { name: "first".to_string(), enabled: true },
            BootScriptEntry { name: "second".to_string(), enabled: false },
            BootScriptEntry { name: "third".to_string(), enabled: true },
        ],
    };
    assert_eq!(enabled_scripts(&cfg), vec!["first".to_string(), "third".to_string()]);
}

#[test]
fn capability_probe_runs() {
    // on a machine without these kernel paths every flag is false; the
    // probe itself must not fail
    let caps = SysPathExist::new();
    let _ = caps.walt_exist;
    let _ = caps.stune_exist;
}
