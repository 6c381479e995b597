use yuki_daemon::app_detect::CgroupCache;
use yuki_daemon::app_detect::DetectorState;
use yuki_daemon::app_detect::candidate_from_cmdline;
use yuki_daemon::app_detect::cgroup_paths;
use yuki_daemon::app_detect::fallback_ime_packages;
use yuki_daemon::app_detect::get_focused_app_from_cgroup;
use yuki_daemon::app_detect::get_system_ime_packages;
use yuki_daemon::app_detect::ime_packages_from_settings_output;
use yuki_daemon::app_detect::is_valid_user_app;
use yuki_daemon::app_detect::parse_pids_desc;
use yuki_daemon::app_detect::probe_order;
use yuki_daemon::app_detect::select_package;
use yuki_daemon::config::KvPair;
use yuki_daemon::rules::RulesConfig;
use yuki_daemon::rules::determine_mode;
use yuki_daemon::rules::get_default_rules;

fn game_rules() -> RulesConfig {
    RulesConfig {
        yuki_scheduler: true,
        dynamic_enabled: true,
        global_mode: "balance".to_string(),
        app_modes: vec![KvPair { key: "com.app.game".to_string(), value: "performance".to_string() }],
        session_log_limit: 15,
    }
}

#[test]
fn end_to_end_single_message() {
    // rules map com.app.game -> performance, global mode balance; the
    // screen is on and detection keeps returning the same package: one
    // message goes out, exactly once, despite repeated identical ticks
    let rules = game_rules();
    let mut st = DetectorState::new();
    let msg = st.detection_tick(&rules, true, false, Some("com.app.game".to_string()), 31500);
    let msg = msg.expect("first tick must emit");
    assert_eq!(msg.package_name, "com.app.game");
    assert_eq!(msg.mode, "performance");
    assert_eq!(msg.temperature_milli, 31500);
    for _ in 0..5 {
        let again = st.detection_tick(&rules, true, false, Some("com.app.game".to_string()), 31500);
        assert!(again.is_none());
    }
}

#[test]
fn force_refresh_reemits_unchanged_mode() {
    let rules = game_rules();
    let mut st = DetectorState::new();
    assert!(st.detection_tick(&rules, true, false, Some("com.app.game".to_string()), 0).is_some());
    assert!(st.detection_tick(&rules, true, false, Some("com.app.game".to_string()), 0).is_none());
    let forced = st.detection_tick(&rules, true, true, Some("com.app.game".to_string()), 0);
    assert!(forced.is_some());
    assert_eq!(forced.unwrap().mode, "performance");
}

#[test]
fn package_change_without_mode_change_is_silent() {
    let rules = game_rules();
    let mut st = DetectorState::new();
    // com.other.app resolves to the global mode
    let first = st.detection_tick(&rules, true, false, Some("com.other.app".to_string()), 0);
    assert_eq!(first.unwrap().mode, "balance");
    // another package with the same resolved mode: tracked, not emitted
    let second = st.detection_tick(&rules, true, false, Some("com.second.app".to_string()), 0);
    assert!(second.is_none());
    assert_eq!(st.get_current_package(), "com.second.app");
}

#[test]
fn screen_off_suppresses_detection_and_on_transition_repushes() {
    let rules = game_rules();
    let mut st = DetectorState::new();
    assert!(st.detection_tick(&rules, true, false, Some("com.app.game".to_string()), 0).is_some());
    // screen goes off: nothing happens on those ticks
    assert!(st.detection_tick(&rules, false, false, Some("com.app.game".to_string()), 0).is_none());
    assert!(st.detection_tick(&rules, false, false, None, 0).is_none());
    // screen back on with the same foreground package: the transition
    // itself forces a redetection, but the mode did not change, so the
    // tick stays silent; the package is re-adopted
    let back = st.detection_tick(&rules, true, false, Some("com.app.game".to_string()), 0);
    assert!(back.is_none());
    assert_eq!(st.get_current_package(), "com.app.game");
}

#[test]
fn detection_miss_keeps_previous_package() {
    let rules = game_rules();
    let mut st = DetectorState::new();
    assert!(st.detection_tick(&rules, true, false, Some("com.app.game".to_string()), 0).is_some());
    let miss = st.detection_tick(&rules, true, false, None, 0);
    assert!(miss.is_none());
    assert_eq!(st.get_current_package(), "com.app.game");
}

#[test]
fn determine_mode_rules() {
    let mut rules = game_rules();
    assert_eq!(determine_mode(&rules, "com.app.game"), "performance");
    assert_eq!(determine_mode(&rules, "com.unknown"), "balance");
    rules.dynamic_enabled = false;
    assert_eq!(determine_mode(&rules, "com.app.game"), "balance");
}

#[test]
fn default_rules_values() {
    let d = get_default_rules();
    assert!(d.yuki_scheduler);
    assert!(d.dynamic_enabled);
    assert_eq!(d.global_mode, "balance");
    assert_eq!(d.session_log_limit, 15);
    assert!(d.app_modes.is_empty());
}

#[test]
fn valid_user_app_filter() {
    let block = vec!["com.some.ime".to_string()];
    assert!(is_valid_user_app("com.app.game", &block));
    assert!(!is_valid_user_app("", &block));
    assert!(!is_valid_user_app("nodots", &block));
    assert!(!is_valid_user_app("/system/bin/sh", &block));
    assert!(!is_valid_user_app(".hidden.app", &block));
    assert!(!is_valid_user_app("com.app:service", &block));
    assert!(!is_valid_user_app("com.some.ime", &block));
    assert!(!is_valid_user_app("com.android.systemui", &block));
    assert!(!is_valid_user_app("yuki-daemon", &block));
    assert!(!is_valid_user_app("com.magisk.helper", &block));
    assert!(!is_valid_user_app("com.foo.inputmethod.pinyin", &block));
    assert!(!is_valid_user_app("com.ads_monitor.x", &block));
}

#[test]
fn candidate_extraction() {
    assert_eq!(candidate_from_cmdline("com.app.game\0--flag"), "com.app.game");
    assert_eq!(candidate_from_cmdline("  com.app.game \0rest"), "com.app.game");
    assert_eq!(candidate_from_cmdline("bare"), "bare");
    assert_eq!(candidate_from_cmdline(""), "");
    assert_eq!(candidate_from_cmdline("\0hidden"), "");
}

#[test]
fn pids_are_reversed() {
    let pids = parse_pids_desc("101 202\n303\n");
    assert_eq!(pids, vec!["303".to_string(), "202".to_string(), "101".to_string()]);
    assert!(parse_pids_desc("").is_empty());
    assert!(parse_pids_desc("  \n ").is_empty());
}

#[test]
fn first_valid_candidate_wins() {
    let block = Vec::new();
    let cmdlines = vec![
        "system_server\0".to_string(),
        "com.app.game\0--args".to_string(),
        "com.other.app\0".to_string(),
    ];
    assert_eq!(select_package(&cmdlines, &block), Some("com.app.game".to_string()));
    let none = vec!["system_server\0".to_string(), "surfaceflinger\0".to_string()];
    assert_eq!(select_package(&none, &block), None);
}

#[test]
fn ime_parsing_and_fallback() {
    let parsed = ime_packages_from_settings_output(
        "com.ime.alpha/.Service:com.ime.beta/x.Y: ",
    );
    assert_eq!(parsed, vec!["com.ime.alpha".to_string(), "com.ime.beta".to_string()]);
    let fb = fallback_ime_packages();
    assert_eq!(fb.len(), 5);
    assert!(fb.contains(&"com.baidu.input_mi".to_string()));
    assert_eq!(get_system_ime_packages(None), fb);
    assert_eq!(get_system_ime_packages(Some(&"".to_string())), fb);
    let out = "com.ime.alpha/.Service".to_string();
    assert_eq!(get_system_ime_packages(Some(&out)), vec!["com.ime.alpha".to_string()]);
}

#[test]
fn probe_order_prefers_cache() {
    assert_eq!(probe_order(0), vec![0, 1, 2]);
    assert_eq!(probe_order(1), vec![1, 0, 2]);
    assert_eq!(probe_order(2), vec![2, 0, 1]);
    assert_eq!(probe_order(usize::MAX), vec![0, 1, 2]);
    assert_eq!(cgroup_paths().len(), 3);
    assert_eq!(cgroup_paths()[0], "/dev/cpuset/top-app/cgroup.procs");
}

#[test]
fn cgroup_cache_hit_scan_and_update() {
    // uncached: full scan finds the second path and caches it
    let mut cache = CgroupCache::new();
    let results = vec![None, Some("com.a".to_string()), None];
    assert_eq!(get_focused_app_from_cgroup(&mut cache, &results), Some("com.a".to_string()));
    assert_eq!(cache.idx, 1);
    // cached path still answers: cache untouched
    let results = vec![Some("com.x".to_string()), Some("com.b".to_string()), None];
    assert_eq!(get_focused_app_from_cgroup(&mut cache, &results), Some("com.b".to_string()));
    assert_eq!(cache.idx, 1);
    // cached path stops answering: fall back to the scan, re-cache
    let results = vec![Some("com.c".to_string()), None, None];
    assert_eq!(get_focused_app_from_cgroup(&mut cache, &results), Some("com.c".to_string()));
    assert_eq!(cache.idx, 0);
    // nothing anywhere: no package, cache unchanged
    let results = vec![None, None, None];
    assert_eq!(get_focused_app_from_cgroup(&mut cache, &results), None);
    assert_eq!(cache.idx, 0);
}
