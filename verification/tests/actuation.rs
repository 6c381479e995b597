use yuki_daemon::caps::SysPathExist;
use yuki_daemon::config::Config;
use yuki_daemon::config::GovSetEntry;
use yuki_daemon::config::KvPair;
use yuki_daemon::config::Mode;
use yuki_daemon::config::NamedGovPaths;
use yuki_daemon::config::NamedGovSet;
use yuki_daemon::config::freq_from_u64;
use yuki_daemon::config::freq_token_value;
use yuki_daemon::levels::LogLevel;
use yuki_daemon::levels::parse_level;
use yuki_daemon::plan::SysfsWrite;
use yuki_daemon::router::SchedulerMessage;
use yuki_daemon::router::route_message;
use yuki_daemon::scheduler::CpuScheduler;
use yuki_daemon::scheduler::SchedulerError;
use yuki_daemon::scheduler::boost_should_run;
use yuki_daemon::scheduler::compute_boost_freq;
use yuki_daemon::scheduler::config_reload_actions;
use yuki_daemon::text::u32_to_string;

fn no_caps() -> SysPathExist {
    SysPathExist {
        qcom_feas_exist: false,
        mtk_feas_exist: false,
        walt_exist: false,
        stune_exist: false,
        hi6220_ufs_exist: false,
        cpuctl_top_app_exist: false,
        cpuctl_foreground_exist: false,
        cpuctl_background_exist: false,
        cpuset_top_app_exist: false,
        cpuset_foreground_exist: false,
        cpuset_background_exist: false,
        cpuset_system_background_exist: false,
        cpuset_restricted_exist: false,
        cpuset_root_exist: false,
        cpuidle_governor_exist: false,
        sda_scheduler_exist: false,
    }
}

fn small_config() -> Config {
    let mut c = Config::default();
    // only the small cluster exists, at scaling policy 0
    c.core_framework.small_core_path = 0;
    c.core_framework.medium_core_path = -1;
    c.core_framework.big_core_path = -1;
    c.core_framework.super_big_core_path = -1;
    c.balance.governor.global = "schedutil".to_string();
    c.balance.freq.small_core_min_freq = 300000;
    c.balance.freq.small_core_max_freq = 2000000;
    c
}

fn writes(plan: &[SysfsWrite]) -> Vec<(String, String)> {
    plan.iter().map(|w| (w.path.clone(), w.value.clone())).collect()
}

#[test]
fn fas_applies_nothing() {
    let s = CpuScheduler::new(small_config(), "fas".to_string(), no_caps(), false);
    let plan = s.apply_all_settings().expect("fas is accepted");
    assert_eq!(plan.len(), 0);
}

#[test]
fn boost_in_flight_applies_nothing() {
    let s = CpuScheduler::new(small_config(), "balance".to_string(), no_caps(), true);
    let plan = s.apply_all_settings().expect("accepted while boosting");
    assert_eq!(plan.len(), 0);
}

#[test]
fn unknown_mode_is_an_error() {
    let s = CpuScheduler::new(small_config(), "turbo".to_string(), no_caps(), false);
    assert_eq!(s.apply_all_settings().unwrap_err(), SchedulerError::ModeNotFound);
}

#[test]
fn repeated_application_writes_the_same_set() {
    // applying the same mode twice with unchanged configuration yields
    // the same sysfs write set both times
    let s = CpuScheduler::new(small_config(), "balance".to_string(), no_caps(), false);
    let first = s.apply_all_settings().unwrap();
    let second = s.apply_all_settings().unwrap();
    assert_eq!(first, second);
}

#[test]
fn balance_plan_exact_writes() {
    let s = CpuScheduler::new(small_config(), "balance".to_string(), no_caps(), false);
    let plan = s.apply_all_settings().unwrap();
    assert_eq!(
        writes(&plan),
        vec![
            (
                "/sys/devices/system/cpu/cpufreq/policy0/scaling_governor".to_string(),
                "schedutil".to_string(),
            ),
            (
                "/sys/devices/system/cpu/cpufreq/policy0/scaling_max_freq".to_string(),
                "2000000".to_string(),
            ),
            (
                "/sys/devices/system/cpu/cpufreq/policy0/scaling_min_freq".to_string(),
                "300000".to_string(),
            ),
        ]
    );
}

#[test]
fn min_frequency_clamped_to_max() {
    let mut c = small_config();
    c.balance.freq.small_core_min_freq = 3000000;
    c.balance.freq.small_core_max_freq = 2000000;
    let s = CpuScheduler::new(c, "balance".to_string(), no_caps(), false);
    let plan = s.apply_all_settings().unwrap();
    let min_write = plan
        .iter()
        .find(|w| w.path.ends_with("scaling_min_freq"))
        .unwrap();
    assert_eq!(min_write.value, "2000000");
}

#[test]
fn cluster_governor_overrides_global() {
    let mut c = small_config();
    c.balance.governor.small_core = "performance".to_string();
    let s = CpuScheduler::new(c, "balance".to_string(), no_caps(), false);
    let plan = s.apply_all_settings().unwrap();
    assert_eq!(plan[0].value, "performance");
}

#[test]
fn govsets_compose_paths_and_respect_lookup() {
    let mut c = small_config();
    c.p_gov_path.push(NamedGovPaths {
        governor: "schedutil".to_string(),
        files: vec![KvPair { key: "rate".to_string(), value: "rate_limit_us".to_string() }],
    });
    c.balance.govsets.push(NamedGovSet {
        governor: "schedutil".to_string(),
        entries: vec![
            GovSetEntry {
                alias: "rate".to_string(),
                per_core: vec![KvPair { key: "SmallCore".to_string(), value: "500".to_string() }],
            },
            GovSetEntry {
                alias: "unknown_alias".to_string(),
                per_core: vec![KvPair { key: "SmallCore".to_string(), value: "1".to_string() }],
            },
        ],
    });
    let s = CpuScheduler::new(c, "balance".to_string(), no_caps(), false);
    let plan = s.apply_all_settings().unwrap();
    let govset_writes: Vec<&SysfsWrite> = plan.iter().filter(|w| w.only_if_exists).collect();
    assert_eq!(govset_writes.len(), 1);
    assert_eq!(
        govset_writes[0].path,
        "/sys/devices/system/cpu/cpufreq/policy0/schedutil/rate_limit_us"
    );
    assert_eq!(govset_writes[0].value, "500");
}

#[test]
fn uclamp_and_feas_follow_capabilities() {
    let mut caps = no_caps();
    caps.qcom_feas_exist = true;
    caps.cpuctl_top_app_exist = true;
    let mut c = small_config();
    c.balance.uclamp.uclamp_top_app_min = "10".to_string();
    c.balance.uclamp.uclamp_top_app_max = "90".to_string();
    c.balance.uclamp.uclamp_top_app_latency_sensitive = "1".to_string();
    let s = CpuScheduler::new(c, "balance".to_string(), caps, false);
    let plan = s.apply_all_settings().unwrap();
    let w = writes(&plan);
    assert_eq!(
        w[0],
        ("/sys/module/perfmgr/parameters/perfmgr_enable".to_string(), "0".to_string())
    );
    assert_eq!(w[1], ("/dev/cpuctl/top-app/cpu.uclamp.min".to_string(), "10".to_string()));
    assert_eq!(w[2], ("/dev/cpuctl/top-app/cpu.uclamp.max".to_string(), "90".to_string()));
    assert_eq!(
        w[3],
        ("/dev/cpuctl/top-app/cpu.uclamp.latency_sensitive".to_string(), "1".to_string())
    );
}

#[test]
fn fast_mode_reenables_feas() {
    let mut caps = no_caps();
    caps.qcom_feas_exist = true;
    let mut c = small_config();
    c.function.enable_feas = true;
    let s = CpuScheduler::new(c, "fast".to_string(), caps, false);
    let plan = s.apply_all_settings().unwrap();
    let feas_values: Vec<String> = plan
        .iter()
        .filter(|w| w.path == "/sys/module/perfmgr/parameters/perfmgr_enable")
        .map(|w| w.value.clone())
        .collect();
    assert_eq!(feas_values, vec!["0".to_string(), "1".to_string()]);
}

#[test]
fn boost_arithmetic() {
    assert_eq!(compute_boost_freq(2000000, 1200), 2400000);
    // truncation, not rounding
    assert_eq!(compute_boost_freq(3, 1500), 4);
    assert_eq!(compute_boost_freq(1, 1500), 1);
    // saturation at the type's cap
    assert_eq!(compute_boost_freq(u32::MAX, 2000), u32::MAX);
    assert_eq!(compute_boost_freq(0, 1200), 0);
}

#[test]
fn boost_writes_only_frequency_ceilings() {
    let s = CpuScheduler::new(small_config(), "balance".to_string(), no_caps(), true);
    let plan = s.set_max_cpu_freq_boost(2400000, 1, 2, 3);
    assert_eq!(
        writes(&plan),
        vec![(
            "/sys/devices/system/cpu/cpufreq/policy0/scaling_max_freq".to_string(),
            "2400000".to_string(),
        )]
    );
}

#[test]
fn boost_guard_skips_fas() {
    assert!(!boost_should_run("fas"));
    assert!(boost_should_run("balance"));
}

#[test]
fn boost_exit_restores_or_reapplies() {
    // mode unchanged across the boost window: only the pre-boost mode's
    // nominal frequencies come back
    let s = CpuScheduler::new(small_config(), "balance".to_string(), no_caps(), false);
    let pre_boost = s.config.balance.clone();
    let plan = s.boost_exit_plan("balance", &pre_boost).unwrap();
    assert_eq!(
        writes(&plan),
        vec![
            (
                "/sys/devices/system/cpu/cpufreq/policy0/scaling_max_freq".to_string(),
                "2000000".to_string(),
            ),
            (
                "/sys/devices/system/cpu/cpufreq/policy0/scaling_min_freq".to_string(),
                "300000".to_string(),
            ),
        ]
    );
    // mode changed during the boost: a full application of the new mode,
    // not a partial restore of the old one
    let mut c = small_config();
    c.performance.governor.global = "performance".to_string();
    c.performance.freq.small_core_min_freq = 1000000;
    c.performance.freq.small_core_max_freq = 2800000;
    let s2 = CpuScheduler::new(c, "performance".to_string(), no_caps(), false);
    let exit = s2.boost_exit_plan("balance", &pre_boost).unwrap();
    let full = s2.apply_all_settings().unwrap();
    assert_eq!(exit, full);
}

#[test]
fn system_tweaks_exact_plan() {
    let mut caps = no_caps();
    caps.cpuset_top_app_exist = true;
    let mut c = small_config();
    c.function.cpuset = true;
    c.cpu_set.top_app = "0-7".to_string();
    c.function.eas_scheduler = false;
    let s = CpuScheduler::new(c, "balance".to_string(), caps, false);
    let plan = s.apply_system_tweaks();
    assert_eq!(
        writes(&plan),
        vec![
            ("/dev/cpuset/top-app/cpus".to_string(), "0-7".to_string()),
            ("/proc/sys/kernel/sched_energy_aware".to_string(), "0".to_string()),
        ]
    );
    // the energy-aware toggle is written without the permission dance
    assert!(!plan[1].set_permissions);
}

#[test]
fn affinity_tweaks_create_directories() {
    let mut c = small_config();
    c.function.affinity_setter = true;
    c.core_allocation.cpu_set_core = "4-6".to_string();
    let s = CpuScheduler::new(c, "balance".to_string(), no_caps(), false);
    let plan = s.apply_system_tweaks();
    let affinity: Vec<&SysfsWrite> = plan
        .iter()
        .filter(|w| w.path.contains("yuki") || w.path.contains("Rubbish"))
        .collect();
    assert_eq!(affinity.len(), 6);
    assert_eq!(affinity[0].path, "/dev/cpuset/top-app/yuki/cpus");
    assert_eq!(affinity[0].value, "4-6");
    assert!(affinity[0].create_parent_dir);
    assert!(!affinity[1].create_parent_dir);
    assert_eq!(affinity[2].path, "/dev/cpuset/Rubbish/cpus");
    assert_eq!(affinity[2].value, "1-2");
}

#[test]
fn io_optimization_uses_glob_patterns() {
    let mut c = small_config();
    c.io_settings.io_optimization = true;
    let s = CpuScheduler::new(c, "balance".to_string(), no_caps(), false);
    let plan = s.apply_system_tweaks();
    let globs: Vec<&SysfsWrite> = plan.iter().filter(|w| w.expand_glob).collect();
    assert_eq!(globs.len(), 2);
    assert_eq!(globs[0].path, "/sys/block/*/queue/iostats");
    assert_eq!(globs[1].path, "/sys/block/*/queue/nomerges");
    assert_eq!(globs[0].value, "0");
}

#[test]
fn router_skips_unchanged_and_defers_under_boost() {
    let mut mode = "balance".to_string();
    let msg = SchedulerMessage {
        package_name: "com.app.game".to_string(),
        mode: "balance".to_string(),
        temperature_milli: 0,
    };
    let r = route_message(&mut mode, &msg, false);
    assert!(!r.changed && !r.persist && !r.apply && !r.rejected);
    assert_eq!(mode, "balance");

    let msg2 = SchedulerMessage {
        package_name: "com.app.game".to_string(),
        mode: "performance".to_string(),
        temperature_milli: 0,
    };
    let r2 = route_message(&mut mode, &msg2, false);
    assert!(r2.changed && r2.persist && r2.apply);
    assert_eq!(mode, "performance");

    let msg3 = SchedulerMessage {
        package_name: "com.app.game".to_string(),
        mode: "powersave".to_string(),
        temperature_milli: 0,
    };
    let r3 = route_message(&mut mode, &msg3, true);
    assert!(r3.changed && r3.persist && !r3.apply && !r3.rejected);
    assert_eq!(mode, "powersave");
}

#[test]
fn router_rejects_unknown_mode_names() {
    // the stored name always names a mode or the fas sentinel; a
    // message naming anything else is dropped whole
    let mut mode = "balance".to_string();
    for bogus in ["", "turbo", "Balance", "FAS"] {
        let msg = SchedulerMessage {
            package_name: "com.app.game".to_string(),
            mode: bogus.to_string(),
            temperature_milli: 0,
        };
        let r = route_message(&mut mode, &msg, false);
        assert!(r.rejected);
        assert!(!r.changed && !r.persist && !r.apply);
        assert_eq!(mode, "balance");
    }
}

#[test]
fn router_accepts_the_fas_sentinel() {
    let mut mode = "balance".to_string();
    let msg = SchedulerMessage {
        package_name: "com.app.game".to_string(),
        mode: "fas".to_string(),
        temperature_milli: 0,
    };
    let r = route_message(&mut mode, &msg, false);
    assert!(r.changed && r.persist && r.apply && !r.rejected);
    assert_eq!(mode, "fas");
    // the sentinel still plans zero writes when applied
    let s = CpuScheduler::new(small_config(), mode.clone(), no_caps(), false);
    assert_eq!(s.apply_all_settings().unwrap().len(), 0);
}

#[test]
fn reload_actions_decide_level_language_and_application() {
    let mut c = small_config();
    c.meta.loglevel = "debug".to_string();
    c.meta.language = "zh".to_string();
    let a = config_reload_actions("en", &c, false);
    assert_eq!(a.level, LogLevel::Debug);
    assert!(a.reload_language);
    assert!(a.apply_now);
    let b = config_reload_actions("zh", &c, true);
    assert!(!b.reload_language);
    assert!(!b.apply_now);
}

#[test]
fn level_parsing() {
    assert_eq!(parse_level("OFF"), LogLevel::Off);
    assert_eq!(parse_level("error"), LogLevel::Error);
    assert_eq!(parse_level("Warn"), LogLevel::Warn);
    assert_eq!(parse_level("INFO"), LogLevel::Info);
    assert_eq!(parse_level("debug"), LogLevel::Debug);
    assert_eq!(parse_level("trace"), LogLevel::Trace);
    assert_eq!(parse_level("bogus"), LogLevel::Info);
    assert_eq!(parse_level(""), LogLevel::Info);
}

#[test]
fn frequency_tokens() {
    assert_eq!(freq_token_value("min"), Some(0));
    assert_eq!(freq_token_value("max"), Some(9999999));
    assert_eq!(freq_token_value("fast"), None);
    assert_eq!(freq_from_u64(1800000), Some(1800000));
    assert_eq!(freq_from_u64(u64::from(u32::MAX) + 1), None);
}

#[test]
fn decimal_formatting() {
    assert_eq!(u32_to_string(0), "0");
    assert_eq!(u32_to_string(7), "7");
    assert_eq!(u32_to_string(2400000), "2400000");
    assert_eq!(u32_to_string(u32::MAX), "4294967295");
}

#[test]
fn mode_lookup() {
    let c = small_config();
    assert!(c.get_mode("powersave").is_some());
    assert!(c.get_mode("balance").is_some());
    assert!(c.get_mode("performance").is_some());
    assert!(c.get_mode("fast").is_some());
    assert!(c.get_mode("fas").is_none());
    assert!(c.get_mode("").is_none());
}
