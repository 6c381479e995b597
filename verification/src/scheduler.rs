//! The CPU-settings actuator.  Every method is a pure plan builder: it
//! turns the configuration snapshot, the current mode name, the
//! capability snapshot and the boost flag into the exact ordered list of
//! sysfs writes that one full (or partial) application performs.
//!
//! Because each plan is a function of those four inputs alone, applying
//! the same mode twice with an unchanged configuration yields the same
//! write set both times, and the `fas` sentinel mode yields no writes at
//! all; both facts are stated below as laws.

use vstd::prelude::*;

verus! {

use crate::caps::SysPathExist;
use crate::config::Config;
use crate::config::GovSetEntryV;
use crate::config::Mode;
use crate::config::govpaths_lookup;
use crate::config::govset_lookup;
use crate::config::kv_lookup;
use crate::config::mode_exists;
use crate::config::mode_of;
use crate::config::CoreFramework;
use crate::config::find_govpaths;
use crate::config::find_govset;
use crate::config::kv_get;
use crate::plan::SysfsWrite;
use crate::plan::WriteCmd;
use crate::plan::make_policy_path;
use crate::plan::policy_path;
use crate::plan::push_policy_write;
use crate::plan::push_write;
use crate::plan::push_write_if_exists;
use crate::plan::wcmd;
use crate::plan::wcmd_if_exists;
use crate::plan::wcmd_glob;
use crate::plan::wcmd_mkdir;
use crate::plan::wcmd_no_perm;
use crate::plan::push_write_glob;
use crate::plan::push_write_mkdir;
use crate::plan::push_write_no_perm;
use crate::levels::LogLevel;
use crate::levels::level_of;
use crate::levels::parse_level;
use crate::text::dec_digits;
use crate::text::bool_text;
use crate::text::bool_to_string;
use crate::text::str_eq;
use crate::text::u32_to_string;
use vstd::string::StringExecFns;

/// Failure of the actuator: the current mode name names no mode.
#[derive(Clone, Copy, Debug, PartialEq, Eq, Structural)]
pub enum SchedulerError {
    ModeNotFound,
}

/// The actuator.  It holds plain snapshots of the shared state it reads;
/// the process constructs one from the shared handles for each
/// application, exactly as the daemon does around every mode change.
#[derive(Debug)]
pub struct CpuScheduler {
    pub config: Config,
    pub current_mode_name: String,
    pub sys_path_exist: SysPathExist,
    pub is_boosting: bool,
}

/// Writes that reset or enable a frequency-aware-scheduling module.
pub open spec fn feas_plan(caps: SysPathExist, on: bool) -> Seq<WriteCmd> {
    let v = if on {
        "1"@
    } else {
        "0"@
    };
    (if caps.qcom_feas_exist {
        seq![wcmd("/sys/module/perfmgr/parameters/perfmgr_enable"@, v)]
    } else {
        Seq::<WriteCmd>::empty()
    }) + (if caps.mtk_feas_exist {
        seq![wcmd("/sys/module/mtk_fpsgo/parameters/perfmgr_enable"@, v)]
    } else {
        Seq::<WriteCmd>::empty()
    })
}

/// Uclamp writes of one mode, gated on the cgroup classes that exist.
pub open spec fn uclamp_plan(m: Mode, caps: SysPathExist) -> Seq<WriteCmd> {
    (if caps.cpuctl_top_app_exist {
        seq![
            wcmd("/dev/cpuctl/top-app/cpu.uclamp.min"@, m.uclamp.uclamp_top_app_min@),
            wcmd("/dev/cpuctl/top-app/cpu.uclamp.max"@, m.uclamp.uclamp_top_app_max@),
            wcmd(
                "/dev/cpuctl/top-app/cpu.uclamp.latency_sensitive"@,
                m.uclamp.uclamp_top_app_latency_sensitive@,
            ),
        ]
    } else {
        Seq::<WriteCmd>::empty()
    }) + (if caps.cpuctl_foreground_exist {
        seq![
            wcmd("/dev/cpuctl/foreground/cpu.uclamp.min"@, m.uclamp.uclamp_fore_ground_min@),
            wcmd("/dev/cpuctl/foreground/cpu.uclamp.max"@, m.uclamp.uclamp_fore_ground_max@),
        ]
    } else {
        Seq::<WriteCmd>::empty()
    }) + (if caps.cpuctl_background_exist {
        seq![
            wcmd("/dev/cpuctl/background/cpu.uclamp.min"@, m.uclamp.uclamp_back_ground_min@),
            wcmd("/dev/cpuctl/background/cpu.uclamp.max"@, m.uclamp.uclamp_back_ground_max@),
        ]
    } else {
        Seq::<WriteCmd>::empty()
    })
}

/// One bus-DCVS bound: written only when both the configured path and
/// the mode's value are non-empty.
pub open spec fn bus_item(path: Seq<char>, value: Seq<char>) -> Seq<WriteCmd> {
    if path.len() > 0 && value.len() > 0 {
        seq![wcmd(path, value)]
    } else {
        Seq::<WriteCmd>::empty()
    }
}

/// Bus / DDR DCVS writes of one mode.
pub open spec fn bus_dcvs_plan(c: Config, m: Mode) -> Seq<WriteCmd> {
    bus_item(c.bus_dcvs_path.cpullccmin_path@, m.bus_dcvs.cpullccmin@) + bus_item(
        c.bus_dcvs_path.cpullccmax_path@,
        m.bus_dcvs.cpullccmax@,
    ) + bus_item(c.bus_dcvs_path.cpuddrmin_path@, m.bus_dcvs.cpuddrmin@) + bus_item(
        c.bus_dcvs_path.cpuddrmax_path@,
        m.bus_dcvs.cpuddrmax@,
    )
}

/// Governor chosen for a cluster: its own entry, or the mode's global
/// governor when the entry is empty.
pub open spec fn cluster_gov(specific: Seq<char>, global: Seq<char>) -> Seq<char> {
    if specific.len() == 0 {
        global
    } else {
        specific
    }
}

/// Write planned for one governor-parameter entry of one cluster: the
/// entry must name a value for this cluster and a parameter file of this
/// governor, both non-empty; the write is performed only if the file
/// exists on this device.
pub open spec fn govset_entry_plan(
    e: GovSetEntryV,
    files: Seq<(Seq<char>, Seq<char>)>,
    policy: int,
    core_name: Seq<char>,
    gov: Seq<char>,
) -> Seq<WriteCmd> {
    match kv_lookup(e.per_core, core_name) {
        Option::None => Seq::<WriteCmd>::empty(),
        Option::Some(value) => match kv_lookup(files, e.alias) {
            Option::None => Seq::<WriteCmd>::empty(),
            Option::Some(filename) => if value.len() == 0 || filename.len() == 0 {
                Seq::<WriteCmd>::empty()
            } else {
                seq![
                    wcmd_if_exists(policy_path(policy, "/"@ + gov + "/"@ + filename), value),
                ]
            },
        },
    }
}

/// Writes planned for a list of governor-parameter entries, in order.
pub open spec fn govset_entries_plan(
    entries: Seq<GovSetEntryV>,
    files: Seq<(Seq<char>, Seq<char>)>,
    policy: int,
    core_name: Seq<char>,
    gov: Seq<char>,
) -> Seq<WriteCmd>
    decreases entries.len(),
{
    if entries.len() == 0 {
        Seq::<WriteCmd>::empty()
    } else {
        govset_entry_plan(entries[0], files, policy, core_name, gov) + govset_entries_plan(
            entries.drop_first(),
            files,
            policy,
            core_name,
            gov,
        )
    }
}

/// Governor-parameter writes of one cluster: nothing unless the mode has
/// entries for this governor and the configuration names its files.
pub open spec fn gov_sets_plan(
    m: Mode,
    c: Config,
    policy: int,
    core_name: Seq<char>,
    gov: Seq<char>,
) -> Seq<WriteCmd> {
    match govset_lookup(m.govsets.deep_view(), gov) {
        Option::None => Seq::<WriteCmd>::empty(),
        Option::Some(entries) => match govpaths_lookup(c.p_gov_path.deep_view(), gov) {
            Option::None => Seq::<WriteCmd>::empty(),
            Option::Some(files) => govset_entries_plan(entries, files, policy, core_name, gov),
        },
    }
}

/// Writes planned for one cluster's governor: the governor file itself,
/// then the governor's parameter files; absent clusters plan nothing.
pub open spec fn governor_cluster_plan(
    m: Mode,
    c: Config,
    core: int,
    specific: Seq<char>,
    core_name: Seq<char>,
) -> Seq<WriteCmd> {
    if core == -1 {
        Seq::<WriteCmd>::empty()
    } else {
        let gov = cluster_gov(specific, m.governor.global@);
        seq![wcmd(policy_path(core, "/scaling_governor"@), gov)] + gov_sets_plan(
            m,
            c,
            core,
            core_name,
            gov,
        )
    }
}

/// Governor writes of all four clusters.
pub open spec fn governor_plan(m: Mode, c: Config) -> Seq<WriteCmd> {
    governor_cluster_plan(
        m,
        c,
        c.core_framework.small_core_path as int,
        m.governor.small_core@,
        "SmallCore"@,
    ) + governor_cluster_plan(
        m,
        c,
        c.core_framework.medium_core_path as int,
        m.governor.medium_core@,
        "MediumCore"@,
    ) + governor_cluster_plan(
        m,
        c,
        c.core_framework.big_core_path as int,
        m.governor.big_core@,
        "BigCore"@,
    ) + governor_cluster_plan(
        m,
        c,
        c.core_framework.super_big_core_path as int,
        m.governor.super_big_core@,
        "SuperBigCore"@,
    )
}

/// The minimum frequency actually written: clamped so that it never
/// exceeds the maximum.
pub open spec fn min_freq_of(minf: u32, maxf: u32) -> u32 {
    if minf <= maxf {
        minf
    } else {
        maxf
    }
}

/// Frequency writes of one cluster: the maximum first, then the clamped
/// minimum; absent clusters plan nothing.
pub open spec fn cluster_freq_plan(core: int, minf: u32, maxf: u32) -> Seq<WriteCmd> {
    if core == -1 {
        Seq::<WriteCmd>::empty()
    } else {
        seq![
            wcmd(policy_path(core, "/scaling_max_freq"@), dec_digits(maxf as nat)),
            wcmd(policy_path(core, "/scaling_min_freq"@), dec_digits(min_freq_of(minf, maxf) as nat)),
        ]
    }
}

/// Frequency writes of all clusters; nothing while a boost is in flight,
/// because the boost loop owns the frequency ceilings then.
pub open spec fn frequencies_plan(m: Mode, cf: CoreFramework, boosting: bool) -> Seq<WriteCmd> {
    if boosting {
        Seq::<WriteCmd>::empty()
    } else {
        cluster_freq_plan(
            cf.small_core_path as int,
            m.freq.small_core_min_freq,
            m.freq.small_core_max_freq,
        ) + cluster_freq_plan(
            cf.medium_core_path as int,
            m.freq.medium_core_min_freq,
            m.freq.medium_core_max_freq,
        ) + cluster_freq_plan(
            cf.big_core_path as int,
            m.freq.big_core_min_freq,
            m.freq.big_core_max_freq,
        ) + cluster_freq_plan(
            cf.super_big_core_path as int,
            m.freq.super_big_core_min_freq,
            m.freq.super_big_core_max_freq,
        )
    }
}

/// A boosted frequency ceiling: the nominal ceiling times the
/// multiplier-in-thousandths, truncated, saturating at the type's cap.
pub open spec fn boosted_freq(freq: u32, multi_permille: u32) -> u32 {
    let v = (freq * multi_permille) / 1000;
    if v > u32::MAX {
        u32::MAX
    } else {
        v as u32
    }
}

/// Boost write of one cluster: only the frequency ceiling is touched.
pub open spec fn boost_item(core: int, freq: u32) -> Seq<WriteCmd> {
    if core == -1 {
        Seq::<WriteCmd>::empty()
    } else {
        seq![wcmd(policy_path(core, "/scaling_max_freq"@), dec_digits(freq as nat))]
    }
}

/// Boost writes of all clusters.
pub open spec fn boost_freq_plan(cf: CoreFramework, small: u32, medium: u32, big: u32, super_big: u32) -> Seq<
    WriteCmd,
> {
    boost_item(cf.small_core_path as int, small) + boost_item(cf.medium_core_path as int, medium)
        + boost_item(cf.big_core_path as int, big) + boost_item(
        cf.super_big_core_path as int,
        super_big,
    )
}

/// Computes one boosted frequency ceiling.
pub fn compute_boost_freq(freq: u32, multi_permille: u32) -> (r: u32)
    ensures
        r == boosted_freq(freq, multi_permille),
{
    proof {
        assert((freq as int) * (multi_permille as int) <= 0xffff_ffff_0000_0001int)
            by (nonlinear_arith)
            requires
                freq <= 0xffff_ffffu32,
                multi_permille <= 0xffff_ffffu32,
        ;
    }
    let wide: u64 = (freq as u64) * (multi_permille as u64) / 1000;
    if wide > 0xffff_ffffu64 {
        0xffff_ffff
    } else {
        wide as u32
    }
}

/// The UFS clock-gate toggle, present only on hardware that has it.
pub open spec fn ufs_plan(caps: SysPathExist, m: Mode) -> Seq<WriteCmd> {
    if caps.hi6220_ufs_exist {
        seq![
            wcmd(
                "/sys/bus/platform/devices/hi6220-ufs/ufs_clk_gate_disable"@,
                bool_text(m.other.ufs_clk_gate),
            ),
        ]
    } else {
        Seq::<WriteCmd>::empty()
    }
}

/// The full settings set of the mode named `name`: FEAS reset, uclamp,
/// governors with their parameter files, frequencies, bus-DCVS bounds,
/// the UFS toggle, and — only for the `fast` mode — re-enabling FEAS.
pub open spec fn mode_settings_plan(c: Config, caps: SysPathExist, name: Seq<char>) -> Seq<
    WriteCmd,
> {
    let m = mode_of(c, name);
    feas_plan(caps, false) + uclamp_plan(m, caps) + governor_plan(m, c) + frequencies_plan(
        m,
        c.core_framework,
        false,
    ) + bus_dcvs_plan(c, m) + ufs_plan(caps, m) + (if name == "fast"@ && c.function.enable_feas {
        feas_plan(caps, true)
    } else {
        Seq::<WriteCmd>::empty()
    })
}

/// What one call of `apply_all_settings` writes: nothing while a boost
/// is in flight, nothing for the `fas` sentinel, and the mode's full
/// settings set otherwise.
pub open spec fn apply_all_plan(s: CpuScheduler) -> Seq<WriteCmd> {
    if s.is_boosting {
        Seq::<WriteCmd>::empty()
    } else if s.current_mode_name@ == "fas"@ {
        Seq::<WriteCmd>::empty()
    } else {
        mode_settings_plan(s.config, s.sys_path_exist, s.current_mode_name@)
    }
}

/// Load-balancing domain flags per cgroup class.
pub open spec fn load_balancing_plan(c: Config, caps: SysPathExist) -> Seq<WriteCmd> {
    if !c.function.load_balancing {
        Seq::<WriteCmd>::empty()
    } else {
        (if caps.cpuset_top_app_exist {
            seq![
                wcmd("/dev/cpuset/top-app/sched_relax_domain_level"@, "0"@),
                wcmd("/dev/cpuset/top-app/sched_load_balance"@, "0"@),
                wcmd("/dev/cpuset/top-app/memory_migrate"@, "0"@),
            ]
        } else {
            Seq::<WriteCmd>::empty()
        }) + (if caps.cpuset_foreground_exist {
            seq![
                wcmd("/dev/cpuset/foreground/sched_relax_domain_level"@, "1"@),
                wcmd("/dev/cpuset/foreground/sched_load_balance"@, "1"@),
                wcmd("/dev/cpuset/foreground/memory_migrate"@, "0"@),
            ]
        } else {
            Seq::<WriteCmd>::empty()
        }) + (if caps.cpuset_root_exist {
            seq![
                wcmd("/dev/cpuset/sched_relax_domain_level"@, "1"@),
                wcmd("/dev/cpuset/sched_load_balance"@, "1"@),
                wcmd("/dev/cpuset/memory_migrate"@, "1"@),
            ]
        } else {
            Seq::<WriteCmd>::empty()
        }) + (if caps.cpuset_background_exist {
            seq![
                wcmd("/dev/cpuset/background/sched_relax_domain_level"@, "1"@),
                wcmd("/dev/cpuset/background/sched_load_balance"@, "1"@),
                wcmd("/dev/cpuset/background/memory_migrate"@, "0"@),
            ]
        } else {
            Seq::<WriteCmd>::empty()
        }) + (if caps.cpuset_system_background_exist {
            seq![
                wcmd("/dev/cpuset/system-background/sched_relax_domain_level"@, "1"@),
                wcmd("/dev/cpuset/system-background/sched_load_balance"@, "1"@),
                wcmd("/dev/cpuset/system-background/memory_migrate"@, "0"@),
            ]
        } else {
            Seq::<WriteCmd>::empty()
        })
    }
}

/// Cpuset CPU-list assignments per cgroup class.
pub open spec fn cpuset_plan(c: Config, caps: SysPathExist) -> Seq<WriteCmd> {
    if !c.function.cpuset {
        Seq::<WriteCmd>::empty()
    } else {
        (if caps.cpuset_top_app_exist {
            seq![wcmd("/dev/cpuset/top-app/cpus"@, c.cpu_set.top_app@)]
        } else {
            Seq::<WriteCmd>::empty()
        }) + (if caps.cpuset_foreground_exist {
            seq![wcmd("/dev/cpuset/foreground/cpus"@, c.cpu_set.foreground@)]
        } else {
            Seq::<WriteCmd>::empty()
        }) + (if caps.cpuset_background_exist {
            seq![wcmd("/dev/cpuset/background/cpus"@, c.cpu_set.background@)]
        } else {
            Seq::<WriteCmd>::empty()
        }) + (if caps.cpuset_system_background_exist {
            seq![wcmd("/dev/cpuset/system-background/cpus"@, c.cpu_set.system_background@)]
        } else {
            Seq::<WriteCmd>::empty()
        }) + (if caps.cpuset_restricted_exist {
            seq![wcmd("/dev/cpuset/restricted/cpus"@, c.cpu_set.restricted@)]
        } else {
            Seq::<WriteCmd>::empty()
        })
    }
}

/// Cpuidle governor selection.
pub open spec fn cpu_idle_plan(c: Config, caps: SysPathExist) -> Seq<WriteCmd> {
    if c.function.cpu_idle_scaling_governor && c.cpu_idle.current_governor@.len() > 0
        && caps.cpuidle_governor_exist {
        seq![
            wcmd("/sys/devices/system/cpu/cpuidle/current_governor"@, c.cpu_idle.current_governor@),
        ]
    } else {
        Seq::<WriteCmd>::empty()
    }
}

/// I/O scheduler selection and the iostat / nomerge glob writes.
pub open spec fn io_plan(c: Config) -> Seq<WriteCmd> {
    (if c.function.adj_i_o_scheduler && c.io_settings.scheduler@.len() > 0 {
        seq![wcmd("/sys/block/sda/queue/scheduler"@, c.io_settings.scheduler@)]
    } else {
        Seq::<WriteCmd>::empty()
    }) + (if c.io_settings.io_optimization {
        seq![
            wcmd_glob("/sys/block/*/queue/iostats"@, "0"@),
            wcmd_glob("/sys/block/*/queue/nomerges"@, "0"@),
        ]
    } else {
        Seq::<WriteCmd>::empty()
    })
}

/// Completely-fair-scheduler proc knobs, written only when configured.
pub open spec fn cfs_plan(c: Config) -> Seq<WriteCmd> {
    let v = c.completely_fair_scheduler_value;
    (if v.sched_child_runs_first@.len() > 0 {
        seq![wcmd_no_perm("/proc/sys/kernel/sched_child_runs_first"@, v.sched_child_runs_first@)]
    } else {
        Seq::<WriteCmd>::empty()
    }) + (if v.sched_rt_period_us@.len() > 0 {
        seq![wcmd_no_perm("/proc/sys/kernel/sched_rt_period_us"@, v.sched_rt_period_us@)]
    } else {
        Seq::<WriteCmd>::empty()
    }) + (if v.sched_rt_runtime_us@.len() > 0 {
        seq![wcmd_no_perm("/proc/sys/kernel/sched_rt_runtime_us"@, v.sched_rt_runtime_us@)]
    } else {
        Seq::<WriteCmd>::empty()
    })
}

/// Energy-aware-scheduling toggle; written either way.
pub open spec fn eas_plan(c: Config) -> Seq<WriteCmd> {
    if c.function.eas_scheduler {
        seq![wcmd_no_perm("/proc/sys/kernel/sched_energy_aware"@, "1"@)]
    } else {
        seq![wcmd_no_perm("/proc/sys/kernel/sched_energy_aware"@, "0"@)]
    }
}

/// The static writes of the affinity setter: the daemon's own cpuset and
/// cpuctl groups.  Placing the named processes into them needs their
/// live process ids and is done by the process around the library, right
/// after these writes and under the same toggle.
pub open spec fn affinity_plan(c: Config) -> Seq<WriteCmd> {
    if !c.function.affinity_setter {
        Seq::<WriteCmd>::empty()
    } else {
        seq![
            wcmd_mkdir("/dev/cpuset/top-app/yuki/cpus"@, c.core_allocation.cpu_set_core@),
            wcmd("/dev/cpuset/top-app/yuki/mems"@, "0"@),
            wcmd_mkdir("/dev/cpuset/Rubbish/cpus"@, "1-2"@),
            wcmd("/dev/cpuset/Rubbish/mems"@, "0"@),
            wcmd_mkdir("/dev/cpuctl/yuki/cpu.uclamp.min"@, "0"@),
            wcmd("/dev/cpuctl/yuki/cpu.uclamp.max"@, "max"@),
        ]
    }
}

/// The one-shot, mode-independent tweak pass: run at startup and after
/// every configuration reload.
pub open spec fn system_tweaks_plan(c: Config, caps: SysPathExist) -> Seq<WriteCmd> {
    load_balancing_plan(c, caps) + cpuset_plan(c, caps) + cpu_idle_plan(c, caps) + io_plan(c)
        + cfs_plan(c) + eas_plan(c) + affinity_plan(c)
}

/// Every cluster id is either a scaling-policy number or the -1 sentinel
/// for a cluster this system-on-chip does not have.
pub open spec fn core_paths_wf(cf: CoreFramework) -> bool {
    &&& cf.small_core_path >= -1
    &&& cf.medium_core_path >= -1
    &&& cf.big_core_path >= -1
    &&& cf.super_big_core_path >= -1
}

impl CpuScheduler {
    /// Bundles the shared handles' current values into one actuator.
    pub fn new(
        config: Config,
        initial_mode: String,
        sys_path_exist: SysPathExist,
        is_boosting: bool,
    ) -> (r: CpuScheduler)
        ensures
            r.config == config,
            r.current_mode_name == initial_mode,
            r.sys_path_exist == sys_path_exist,
            r.is_boosting == is_boosting,
    {
        CpuScheduler { config, current_mode_name: initial_mode, sys_path_exist, is_boosting }
    }

    /// The mode configuration the current mode name selects, if any.
    pub fn get_current_mode<'a>(&'a self) -> (r: Option<&'a Mode>)
        ensures
            match r {
                Some(m) => mode_exists(self.current_mode_name@) && *m == mode_of(
                    self.config,
                    self.current_mode_name@,
                ),
                None => !mode_exists(self.current_mode_name@),
            },
    {
        self.config.get_mode(self.current_mode_name.as_str())
    }

    /// Plans the reset of any installed FEAS kernel module.
    pub fn disable_feas(&self, out: &mut Vec<SysfsWrite>)
        ensures
            final(out).deep_view() == old(out).deep_view() + feas_plan(self.sys_path_exist, false),
    {
        let ghost base = out.deep_view();
        if self.sys_path_exist.qcom_feas_exist {
            push_write(out, "/sys/module/perfmgr/parameters/perfmgr_enable", "0");
        }
        if self.sys_path_exist.mtk_feas_exist {
            push_write(out, "/sys/module/mtk_fpsgo/parameters/perfmgr_enable", "0");
        }
        proof {
            assert(out.deep_view() =~= base + feas_plan(self.sys_path_exist, false));
        }
    }

    /// Plans enabling the FEAS module where the configuration asks for it.
    pub fn enable_feas(&self, out: &mut Vec<SysfsWrite>)
        ensures
            final(out).deep_view() == old(out).deep_view() + (if self.config.function.enable_feas {
                feas_plan(self.sys_path_exist, true)
            } else {
                Seq::<WriteCmd>::empty()
            }),
    {
        let ghost base = out.deep_view();
        if self.sys_path_exist.qcom_feas_exist && self.config.function.enable_feas {
            push_write(out, "/sys/module/perfmgr/parameters/perfmgr_enable", "1");
        }
        if self.sys_path_exist.mtk_feas_exist && self.config.function.enable_feas {
            push_write(out, "/sys/module/mtk_fpsgo/parameters/perfmgr_enable", "1");
        }
        proof {
            if self.config.function.enable_feas {
                assert(out.deep_view() =~= base + feas_plan(self.sys_path_exist, true));
            } else {
                assert(out.deep_view() =~= base + Seq::<WriteCmd>::empty());
            }
        }
    }

    /// Plans the uclamp writes of `mode`.
    pub fn apply_uclamp(&self, mode: &Mode, out: &mut Vec<SysfsWrite>)
        ensures
            final(out).deep_view() == old(out).deep_view() + uclamp_plan(
                *mode,
                self.sys_path_exist,
            ),
    {
        let ghost base = out.deep_view();
        if self.sys_path_exist.cpuctl_top_app_exist {
            push_write(
                out,
                "/dev/cpuctl/top-app/cpu.uclamp.min",
                mode.uclamp.uclamp_top_app_min.as_str(),
            );
            push_write(
                out,
                "/dev/cpuctl/top-app/cpu.uclamp.max",
                mode.uclamp.uclamp_top_app_max.as_str(),
            );
            push_write(
                out,
                "/dev/cpuctl/top-app/cpu.uclamp.latency_sensitive",
                mode.uclamp.uclamp_top_app_latency_sensitive.as_str(),
            );
        }
        if self.sys_path_exist.cpuctl_foreground_exist {
            push_write(
                out,
                "/dev/cpuctl/foreground/cpu.uclamp.min",
                mode.uclamp.uclamp_fore_ground_min.as_str(),
            );
            push_write(
                out,
                "/dev/cpuctl/foreground/cpu.uclamp.max",
                mode.uclamp.uclamp_fore_ground_max.as_str(),
            );
        }
        if self.sys_path_exist.cpuctl_background_exist {
            push_write(
                out,
                "/dev/cpuctl/background/cpu.uclamp.min",
                mode.uclamp.uclamp_back_ground_min.as_str(),
            );
            push_write(
                out,
                "/dev/cpuctl/background/cpu.uclamp.max",
                mode.uclamp.uclamp_back_ground_max.as_str(),
            );
        }
        proof {
            assert(out.deep_view() =~= base + uclamp_plan(*mode, self.sys_path_exist));
        }
    }

    /// Plans the governor-parameter writes of one cluster.
    pub fn apply_gov_sets(
        &self,
        mode: &Mode,
        core_policy_id: u32,
        core_type_str: &str,
        governor_name: &str,
        out: &mut Vec<SysfsWrite>,
    )
        ensures
            final(out).deep_view() == old(out).deep_view() + gov_sets_plan(
                *mode,
                self.config,
                core_policy_id as int,
                core_type_str@,
                governor_name@,
            ),
    {
        let ghost base = out.deep_view();
        let ghost plan = gov_sets_plan(
            *mode,
            self.config,
            core_policy_id as int,
            core_type_str@,
            governor_name@,
        );
        let settings = match find_govset(&mode.govsets, governor_name) {
            Some(g) => g,
            None => {
                proof {
                    assert(out.deep_view() =~= base + plan);
                }
                return ;
            },
        };
        let paths = match find_govpaths(&self.config.p_gov_path, governor_name) {
            Some(p) => p,
            None => {
                proof {
                    assert(out.deep_view() =~= base + plan);
                }
                return ;
            },
        };
        let ghost entries_v = settings.entries.deep_view();
        let ghost files_v = paths.files.deep_view();
        proof {
            assert(plan == govset_entries_plan(
                entries_v,
                files_v,
                core_policy_id as int,
                core_type_str@,
                governor_name@,
            ));
            assert(entries_v.skip(0) =~= entries_v);
        }
        let n = settings.entries.len();
        let mut i: usize = 0;
        while i < n
            invariant
                n == settings.entries@.len(),
                entries_v == settings.entries.deep_view(),
                files_v == paths.files.deep_view(),
                entries_v.len() == n,
                i <= n,
                out.deep_view() + govset_entries_plan(
                    entries_v.skip(i as int),
                    files_v,
                    core_policy_id as int,
                    core_type_str@,
                    governor_name@,
                ) == base + govset_entries_plan(
                    entries_v,
                    files_v,
                    core_policy_id as int,
                    core_type_str@,
                    governor_name@,
                ),
            decreases n - i,
        {
            let ghost pre = out.deep_view();
            let ghost rem = entries_v.skip(i as int);
            proof {
                assert(rem[0] == entries_v[i as int]);
                assert(rem.drop_first() =~= entries_v.skip(i as int + 1));
            }
            let e = &settings.entries[i];
            proof {
                assert(e.deep_view() == entries_v[i as int]);
            }
            let ghost entry_cmds = govset_entry_plan(
                entries_v[i as int],
                files_v,
                core_policy_id as int,
                core_type_str@,
                governor_name@,
            );
            match kv_get(&e.per_core, core_type_str) {
                None => {
                    proof {
                        assert(out.deep_view() =~= pre + entry_cmds);
                    }
                },
                Some(value) => {
                    match kv_get(&paths.files, e.alias.as_str()) {
                        None => {
                            proof {
                                assert(out.deep_view() =~= pre + entry_cmds);
                            }
                        },
                        Some(filename) => {
                            if value.as_str().is_empty() || filename.as_str().is_empty() {
                                proof {
                                    assert(out.deep_view() =~= pre + entry_cmds);
                                }
                            } else {
                                let mut suffix = "/".to_owned();
                                suffix.append(governor_name);
                                suffix.append("/");
                                suffix.append(filename.as_str());
                                let path = make_policy_path(core_policy_id, suffix.as_str());
                                push_write_if_exists(out, path.as_str(), value.as_str());
                                proof {
                                    assert(suffix@ =~= "/"@ + governor_name@ + "/"@ + filename@);
                                    assert(out.deep_view() =~= pre + entry_cmds);
                                }
                            }
                        },
                    }
                },
            }
            proof {
                assert(out.deep_view() + govset_entries_plan(
                    entries_v.skip(i as int + 1),
                    files_v,
                    core_policy_id as int,
                    core_type_str@,
                    governor_name@,
                ) =~= base + govset_entries_plan(
                    entries_v,
                    files_v,
                    core_policy_id as int,
                    core_type_str@,
                    governor_name@,
                ));
            }
            i = i + 1;
        }
        proof {
            assert(entries_v.skip(n as int) =~= Seq::<GovSetEntryV>::empty());
            assert(out.deep_view() =~= base + plan);
        }
    }

    fn apply_governor_cluster(
        &self,
        mode: &Mode,
        core_path: i32,
        specific: &String,
        core_name: &str,
        out: &mut Vec<SysfsWrite>,
    )
        requires
            core_path >= -1,
        ensures
            final(out).deep_view() == old(out).deep_view() + governor_cluster_plan(
                *mode,
                self.config,
                core_path as int,
                specific@,
                core_name@,
            ),
    {
        let ghost base = out.deep_view();
        if core_path == -1 {
            proof {
                assert(out.deep_view() =~= base + governor_cluster_plan(
                    *mode,
                    self.config,
                    core_path as int,
                    specific@,
                    core_name@,
                ));
            }
            return ;
        }
        let gov: &String = if !specific.as_str().is_empty() {
            specific
        } else {
            &mode.governor.global
        };
        push_policy_write(out, core_path as u32, "/scaling_governor", gov.as_str());
        self.apply_gov_sets(mode, core_path as u32, core_name, gov.as_str(), out);
        proof {
            assert(out.deep_view() =~= base + governor_cluster_plan(
                *mode,
                self.config,
                core_path as int,
                specific@,
                core_name@,
            ));
        }
    }

    /// Plans the governor writes of `mode` for all four clusters.
    pub fn apply_governor(&self, mode: &Mode, out: &mut Vec<SysfsWrite>)
        requires
            core_paths_wf(self.config.core_framework),
        ensures
            final(out).deep_view() == old(out).deep_view() + governor_plan(*mode, self.config),
    {
        let ghost base = out.deep_view();
        let cf = self.config.core_framework;
        self.apply_governor_cluster(mode, cf.small_core_path, &mode.governor.small_core, "SmallCore", out);
        self.apply_governor_cluster(
            mode,
            cf.medium_core_path,
            &mode.governor.medium_core,
            "MediumCore",
            out,
        );
        self.apply_governor_cluster(mode, cf.big_core_path, &mode.governor.big_core, "BigCore", out);
        self.apply_governor_cluster(
            mode,
            cf.super_big_core_path,
            &mode.governor.super_big_core,
            "SuperBigCore",
            out,
        );
        proof {
            assert(out.deep_view() =~= base + governor_plan(*mode, self.config));
        }
    }

    /// Plans the bus / DDR DCVS writes of `mode`.
    pub fn apply_bus_dcvs(&self, mode: &Mode, out: &mut Vec<SysfsWrite>)
        ensures
            final(out).deep_view() == old(out).deep_view() + bus_dcvs_plan(self.config, *mode),
    {
        let ghost base = out.deep_view();
        let bus_paths = &self.config.bus_dcvs_path;
        let bus_config = &mode.bus_dcvs;
        if !bus_paths.cpullccmin_path.as_str().is_empty()
            && !bus_config.cpullccmin.as_str().is_empty() {
            push_write(out, bus_paths.cpullccmin_path.as_str(), bus_config.cpullccmin.as_str());
        }
        if !bus_paths.cpullccmax_path.as_str().is_empty()
            && !bus_config.cpullccmax.as_str().is_empty() {
            push_write(out, bus_paths.cpullccmax_path.as_str(), bus_config.cpullccmax.as_str());
        }
        if !bus_paths.cpuddrmin_path.as_str().is_empty()
            && !bus_config.cpuddrmin.as_str().is_empty() {
            push_write(out, bus_paths.cpuddrmin_path.as_str(), bus_config.cpuddrmin.as_str());
        }
        if !bus_paths.cpuddrmax_path.as_str().is_empty()
            && !bus_config.cpuddrmax.as_str().is_empty() {
            push_write(out, bus_paths.cpuddrmax_path.as_str(), bus_config.cpuddrmax.as_str());
        }
        proof {
            assert(out.deep_view() =~= base + bus_dcvs_plan(self.config, *mode));
        }
    }

    fn set_frequency(&self, core_path: i32, min_freq: u32, max_freq: u32, out: &mut Vec<SysfsWrite>)
        requires
            core_path >= -1,
        ensures
            final(out).deep_view() == old(out).deep_view() + cluster_freq_plan(
                core_path as int,
                min_freq,
                max_freq,
            ),
    {
        let ghost base = out.deep_view();
        if core_path == -1 {
            proof {
                assert(out.deep_view() =~= base + cluster_freq_plan(core_path as int, min_freq, max_freq));
            }
            return ;
        }
        let final_min_freq = if min_freq <= max_freq {
            min_freq
        } else {
            max_freq
        };
        let max_text = u32_to_string(max_freq);
        push_policy_write(out, core_path as u32, "/scaling_max_freq", max_text.as_str());
        let min_text = u32_to_string(final_min_freq);
        push_policy_write(out, core_path as u32, "/scaling_min_freq", min_text.as_str());
        proof {
            assert(out.deep_view() =~= base + cluster_freq_plan(core_path as int, min_freq, max_freq));
        }
    }

    /// Plans the min/max frequency writes of `mode`; plans nothing while
    /// a boost is in flight.
    pub fn apply_frequencies(&self, mode: &Mode, out: &mut Vec<SysfsWrite>)
        requires
            core_paths_wf(self.config.core_framework),
        ensures
            final(out).deep_view() == old(out).deep_view() + frequencies_plan(
                *mode,
                self.config.core_framework,
                self.is_boosting,
            ),
    {
        let ghost base = out.deep_view();
        if self.is_boosting {
            proof {
                assert(out.deep_view() =~= base + frequencies_plan(
                    *mode,
                    self.config.core_framework,
                    self.is_boosting,
                ));
            }
            return ;
        }
        let cf = self.config.core_framework;
        let f = &mode.freq;
        self.set_frequency(cf.small_core_path, f.small_core_min_freq, f.small_core_max_freq, out);
        self.set_frequency(cf.medium_core_path, f.medium_core_min_freq, f.medium_core_max_freq, out);
        self.set_frequency(cf.big_core_path, f.big_core_min_freq, f.big_core_max_freq, out);
        self.set_frequency(
            cf.super_big_core_path,
            f.super_big_core_min_freq,
            f.super_big_core_max_freq,
            out,
        );
        proof {
            assert(out.deep_view() =~= base + frequencies_plan(
                *mode,
                self.config.core_framework,
                self.is_boosting,
            ));
        }
    }

    /// Plans the boosted frequency ceilings: only the maxima are written,
    /// never governors, uclamp bounds or minimum frequencies.
    pub fn set_max_cpu_freq_boost(
        &self,
        small_freq: u32,
        medium_freq: u32,
        big_freq: u32,
        super_big_freq: u32,
    ) -> (r: Vec<SysfsWrite>)
        requires
            core_paths_wf(self.config.core_framework),
        ensures
            r.deep_view() == boost_freq_plan(
                self.config.core_framework,
                small_freq,
                medium_freq,
                big_freq,
                super_big_freq,
            ),
    {
        let cf = self.config.core_framework;
        let mut out: Vec<SysfsWrite> = Vec::new();
        proof {
            assert(out.deep_view() =~= Seq::<WriteCmd>::empty());
        }
        self.boost_one(cf.small_core_path, small_freq, &mut out);
        self.boost_one(cf.medium_core_path, medium_freq, &mut out);
        self.boost_one(cf.big_core_path, big_freq, &mut out);
        self.boost_one(cf.super_big_core_path, super_big_freq, &mut out);
        proof {
            assert(out.deep_view() =~= boost_freq_plan(
                self.config.core_framework,
                small_freq,
                medium_freq,
                big_freq,
                super_big_freq,
            ));
        }
        out
    }

    /// Plans one full application of the current mode's settings.
    ///
    /// Succeeds — with an empty plan — while a boost is in flight or when
    /// the current mode is the `fas` sentinel (an external governor
    /// framework owns the device then); succeeds with the mode's full
    /// settings set for every defined mode name; fails exactly when the
    /// current name names no mode.
    pub fn apply_all_settings(&self) -> (r: Result<Vec<SysfsWrite>, SchedulerError>)
        requires
            core_paths_wf(self.config.core_framework),
        ensures
            match r {
                Ok(plan) => plan.deep_view() == apply_all_plan(*self) && (self.is_boosting
                    || self.current_mode_name@ == "fas"@ || mode_exists(self.current_mode_name@)),
                Err(e) => !self.is_boosting && self.current_mode_name@ != "fas"@ && !mode_exists(
                    self.current_mode_name@,
                ) && e == SchedulerError::ModeNotFound,
            },
            self.is_boosting ==> (r matches Ok(plan) && plan.deep_view()
                == Seq::<WriteCmd>::empty()),
            !self.is_boosting && self.current_mode_name@ == "fas"@ ==> (r matches Ok(plan)
                && plan.deep_view() == Seq::<WriteCmd>::empty()),
    {
        if self.is_boosting {
            let out: Vec<SysfsWrite> = Vec::new();
            proof {
                assert(out.deep_view() =~= Seq::<WriteCmd>::empty());
            }
            return Ok(out);
        }
        if str_eq(self.current_mode_name.as_str(), "fas") {
            let out: Vec<SysfsWrite> = Vec::new();
            proof {
                assert(out.deep_view() =~= Seq::<WriteCmd>::empty());
            }
            return Ok(out);
        }
        let current_mode = match self.get_current_mode() {
            Some(m) => m,
            None => {
                return Err(SchedulerError::ModeNotFound);
            },
        };
        let mut out: Vec<SysfsWrite> = Vec::new();
        proof {
            assert(out.deep_view() =~= Seq::<WriteCmd>::empty());
        }
        self.disable_feas(&mut out);
        self.apply_uclamp(current_mode, &mut out);
        self.apply_governor(current_mode, &mut out);
        self.apply_frequencies(current_mode, &mut out);
        self.apply_bus_dcvs(current_mode, &mut out);
        if self.sys_path_exist.hi6220_ufs_exist {
            let text = bool_to_string(current_mode.other.ufs_clk_gate);
            push_write(
                &mut out,
                "/sys/bus/platform/devices/hi6220-ufs/ufs_clk_gate_disable",
                text.as_str(),
            );
        }
        if str_eq(self.current_mode_name.as_str(), "fast") {
            self.enable_feas(&mut out);
        }
        proof {
            assert(out.deep_view() =~= apply_all_plan(*self));
        }
        Ok(out)
    }

    /// Plans the post-boost reconciliation.  The boost loop snapshots the
    /// mode name before boosting and calls this once the boost window has
    /// elapsed and the boosting flag has been cleared again: an unchanged
    /// mode gets exactly the pre-boost mode's nominal frequency writes
    /// (undoing only the boosted ceilings), while a mode change that
    /// raced with the boost gets a full application of the new mode.
    pub fn boost_exit_plan(&self, mode_name_before: &str, pre_boost_mode: &Mode) -> (r: Result<
        Vec<SysfsWrite>,
        SchedulerError,
    >)
        requires
            core_paths_wf(self.config.core_framework),
            !self.is_boosting,
        ensures
            self.current_mode_name@ == mode_name_before@ ==> (r matches Ok(plan)
                && plan.deep_view() == frequencies_plan(
                *pre_boost_mode,
                self.config.core_framework,
                false,
            )),
            self.current_mode_name@ != mode_name_before@ ==> match r {
                Ok(plan) => plan.deep_view() == apply_all_plan(*self) && (
                self.current_mode_name@ == "fas"@ || mode_exists(self.current_mode_name@)),
                Err(e) => self.current_mode_name@ != "fas"@ && !mode_exists(
                    self.current_mode_name@,
                ) && e == SchedulerError::ModeNotFound,
            },
    {
        if str_eq(self.current_mode_name.as_str(), mode_name_before) {
            let mut out: Vec<SysfsWrite> = Vec::new();
            proof {
                assert(out.deep_view() =~= Seq::<WriteCmd>::empty());
            }
            self.apply_frequencies(pre_boost_mode, &mut out);
            proof {
                assert(out.deep_view() =~= frequencies_plan(
                    *pre_boost_mode,
                    self.config.core_framework,
                    false,
                ));
            }
            Ok(out)
        } else {
            self.apply_all_settings()
        }
    }

    fn boost_one(&self, core_path: i32, freq: u32, out: &mut Vec<SysfsWrite>)
        requires
            core_path >= -1,
        ensures
            final(out).deep_view() == old(out).deep_view() + boost_item(core_path as int, freq),
    {
        let ghost base = out.deep_view();
        if core_path != -1 {
            let text = u32_to_string(freq);
            push_policy_write(out, core_path as u32, "/scaling_max_freq", text.as_str());
        }
        proof {
            assert(out.deep_view() =~= base + boost_item(core_path as int, freq));
        }
    }

    /// Plans the load-balancing domain flags.
    pub fn load_balancing(&self, out: &mut Vec<SysfsWrite>)
        ensures
            final(out).deep_view() == old(out).deep_view() + load_balancing_plan(
                self.config,
                self.sys_path_exist,
            ),
    {
        let ghost base = out.deep_view();
        if self.config.function.load_balancing {
            if self.sys_path_exist.cpuset_top_app_exist {
                push_write(out, "/dev/cpuset/top-app/sched_relax_domain_level", "0");
                push_write(out, "/dev/cpuset/top-app/sched_load_balance", "0");
                push_write(out, "/dev/cpuset/top-app/memory_migrate", "0");
            }
            if self.sys_path_exist.cpuset_foreground_exist {
                push_write(out, "/dev/cpuset/foreground/sched_relax_domain_level", "1");
                push_write(out, "/dev/cpuset/foreground/sched_load_balance", "1");
                push_write(out, "/dev/cpuset/foreground/memory_migrate", "0");
            }
            if self.sys_path_exist.cpuset_root_exist {
                push_write(out, "/dev/cpuset/sched_relax_domain_level", "1");
                push_write(out, "/dev/cpuset/sched_load_balance", "1");
                push_write(out, "/dev/cpuset/memory_migrate", "1");
            }
            if self.sys_path_exist.cpuset_background_exist {
                push_write(out, "/dev/cpuset/background/sched_relax_domain_level", "1");
                push_write(out, "/dev/cpuset/background/sched_load_balance", "1");
                push_write(out, "/dev/cpuset/background/memory_migrate", "0");
            }
            if self.sys_path_exist.cpuset_system_background_exist {
                push_write(out, "/dev/cpuset/system-background/sched_relax_domain_level", "1");
                push_write(out, "/dev/cpuset/system-background/sched_load_balance", "1");
                push_write(out, "/dev/cpuset/system-background/memory_migrate", "0");
            }
        }
        proof {
            assert(out.deep_view() =~= base + load_balancing_plan(self.config, self.sys_path_exist));
        }
    }

    /// Plans the cpuset CPU-list assignments.
    pub fn apply_cpuset(&self, out: &mut Vec<SysfsWrite>)
        ensures
            final(out).deep_view() == old(out).deep_view() + cpuset_plan(
                self.config,
                self.sys_path_exist,
            ),
    {
        let ghost base = out.deep_view();
        if self.config.function.cpuset {
            if self.sys_path_exist.cpuset_top_app_exist {
                push_write(out, "/dev/cpuset/top-app/cpus", self.config.cpu_set.top_app.as_str());
            }
            if self.sys_path_exist.cpuset_foreground_exist {
                push_write(
                    out,
                    "/dev/cpuset/foreground/cpus",
                    self.config.cpu_set.foreground.as_str(),
                );
            }
            if self.sys_path_exist.cpuset_background_exist {
                push_write(
                    out,
                    "/dev/cpuset/background/cpus",
                    self.config.cpu_set.background.as_str(),
                );
            }
            if self.sys_path_exist.cpuset_system_background_exist {
                push_write(
                    out,
                    "/dev/cpuset/system-background/cpus",
                    self.config.cpu_set.system_background.as_str(),
                );
            }
            if self.sys_path_exist.cpuset_restricted_exist {
                push_write(
                    out,
                    "/dev/cpuset/restricted/cpus",
                    self.config.cpu_set.restricted.as_str(),
                );
            }
        }
        proof {
            assert(out.deep_view() =~= base + cpuset_plan(self.config, self.sys_path_exist));
        }
    }

    /// Plans the cpuidle governor selection.
    pub fn apply_cpu_idle_governor(&self, out: &mut Vec<SysfsWrite>)
        ensures
            final(out).deep_view() == old(out).deep_view() + cpu_idle_plan(
                self.config,
                self.sys_path_exist,
            ),
    {
        let ghost base = out.deep_view();
        if self.config.function.cpu_idle_scaling_governor
            && !self.config.cpu_idle.current_governor.as_str().is_empty() {
            if self.sys_path_exist.cpuidle_governor_exist {
                push_write(
                    out,
                    "/sys/devices/system/cpu/cpuidle/current_governor",
                    self.config.cpu_idle.current_governor.as_str(),
                );
            }
        }
        proof {
            assert(out.deep_view() =~= base + cpu_idle_plan(self.config, self.sys_path_exist));
        }
    }

    /// Plans the I/O scheduler selection and the per-device glob writes.
    pub fn apply_io_settings(&self, out: &mut Vec<SysfsWrite>)
        ensures
            final(out).deep_view() == old(out).deep_view() + io_plan(self.config),
    {
        let ghost base = out.deep_view();
        if self.config.function.adj_i_o_scheduler
            && !self.config.io_settings.scheduler.as_str().is_empty() {
            push_write(out, "/sys/block/sda/queue/scheduler", self.config.io_settings.scheduler.as_str());
        }
        if self.config.io_settings.io_optimization {
            push_write_glob(out, "/sys/block/*/queue/iostats", "0");
            push_write_glob(out, "/sys/block/*/queue/nomerges", "0");
        }
        proof {
            assert(out.deep_view() =~= base + io_plan(self.config));
        }
    }

    /// Plans the completely-fair-scheduler proc knobs.
    pub fn apply_cfs_scheduler(&self, out: &mut Vec<SysfsWrite>)
        ensures
            final(out).deep_view() == old(out).deep_view() + cfs_plan(self.config),
    {
        let ghost base = out.deep_view();
        let cfs = &self.config.completely_fair_scheduler_value;
        if !cfs.sched_child_runs_first.as_str().is_empty() {
            push_write_no_perm(
                out,
                "/proc/sys/kernel/sched_child_runs_first",
                cfs.sched_child_runs_first.as_str(),
            );
        }
        if !cfs.sched_rt_period_us.as_str().is_empty() {
            push_write_no_perm(
                out,
                "/proc/sys/kernel/sched_rt_period_us",
                cfs.sched_rt_period_us.as_str(),
            );
        }
        if !cfs.sched_rt_runtime_us.as_str().is_empty() {
            push_write_no_perm(
                out,
                "/proc/sys/kernel/sched_rt_runtime_us",
                cfs.sched_rt_runtime_us.as_str(),
            );
        }
        proof {
            assert(out.deep_view() =~= base + cfs_plan(self.config));
        }
    }

    /// Plans the energy-aware-scheduling toggle.
    pub fn apply_eas_scheduler(&self, out: &mut Vec<SysfsWrite>)
        ensures
            final(out).deep_view() == old(out).deep_view() + eas_plan(self.config),
    {
        let ghost base = out.deep_view();
        if self.config.function.eas_scheduler {
            push_write_no_perm(out, "/proc/sys/kernel/sched_energy_aware", "1");
        } else {
            push_write_no_perm(out, "/proc/sys/kernel/sched_energy_aware", "0");
        }
        proof {
            assert(out.deep_view() =~= base + eas_plan(self.config));
        }
    }

    /// Plans the static writes of the affinity setter's own cgroups.
    pub fn thread_core_allocation(&self, out: &mut Vec<SysfsWrite>)
        ensures
            final(out).deep_view() == old(out).deep_view() + affinity_plan(self.config),
    {
        let ghost base = out.deep_view();
        if self.config.function.affinity_setter {
            push_write_mkdir(
                out,
                "/dev/cpuset/top-app/yuki/cpus",
                self.config.core_allocation.cpu_set_core.as_str(),
            );
            push_write(out, "/dev/cpuset/top-app/yuki/mems", "0");
            push_write_mkdir(out, "/dev/cpuset/Rubbish/cpus", "1-2");
            push_write(out, "/dev/cpuset/Rubbish/mems", "0");
            push_write_mkdir(out, "/dev/cpuctl/yuki/cpu.uclamp.min", "0");
            push_write(out, "/dev/cpuctl/yuki/cpu.uclamp.max", "max");
        }
        proof {
            assert(out.deep_view() =~= base + affinity_plan(self.config));
        }
    }

    /// Plans the one-shot, mode-independent system tweak pass.
    pub fn apply_system_tweaks(&self) -> (r: Vec<SysfsWrite>)
        ensures
            r.deep_view() == system_tweaks_plan(self.config, self.sys_path_exist),
    {
        let mut out: Vec<SysfsWrite> = Vec::new();
        proof {
            assert(out.deep_view() =~= Seq::<WriteCmd>::empty());
        }
        self.load_balancing(&mut out);
        self.apply_cpuset(&mut out);
        self.apply_cpu_idle_governor(&mut out);
        self.apply_io_settings(&mut out);
        self.apply_cfs_scheduler(&mut out);
        self.apply_eas_scheduler(&mut out);
        self.thread_core_allocation(&mut out);
        proof {
            assert(out.deep_view() =~= system_tweaks_plan(self.config, self.sys_path_exist));
        }
        out
    }
}

/// The system processes that the affinity setter moves into the daemon's
/// own top-app group.
pub fn system_cgroup_processes() -> (r: Vec<String>)
    ensures
        r.deep_view() =~= seq![
            "surfaceflinger"@,
            "system_server"@,
            "android:ui"@,
            "providers.media"@,
        ],
{
    let mut v: Vec<String> = Vec::new();
    v.push("surfaceflinger".to_owned());
    v.push("system_server".to_owned());
    v.push("android:ui".to_owned());
    v.push("providers.media".to_owned());
    proof {
        assert(v.deep_view() =~= seq![
            "surfaceflinger"@,
            "system_server"@,
            "android:ui"@,
            "providers.media"@,
        ]);
    }
    v
}

/// The housekeeping processes that the affinity setter confines to the
/// small cores.
pub fn rubbish_processes() -> (r: Vec<String>)
    ensures
        r.deep_view() =~= seq![
            "kswapd0"@,
            "kcompactd0"@,
            "init"@,
            "logcat"@,
            "mdnsd"@,
            "magiskd"@,
            "zygiskd"@,
        ],
{
    let mut v: Vec<String> = Vec::new();
    v.push("kswapd0".to_owned());
    v.push("kcompactd0".to_owned());
    v.push("init".to_owned());
    v.push("logcat".to_owned());
    v.push("mdnsd".to_owned());
    v.push("magiskd".to_owned());
    v.push("zygiskd".to_owned());
    proof {
        assert(v.deep_view() =~= seq![
            "kswapd0"@,
            "kcompactd0"@,
            "init"@,
            "logcat"@,
            "mdnsd"@,
            "magiskd"@,
            "zygiskd"@,
        ]);
    }
    v
}

/// Whether a launch event starts a boost at all: the `fas` sentinel
/// hands the device to an external governor framework, so a launch seen
/// under it is ignored entirely.
pub fn boost_should_run(mode_name_before: &str) -> (r: bool)
    ensures
        r == (mode_name_before@ != "fas"@),
{
    !str_eq(mode_name_before, "fas")
}

/// What the configuration watcher does after a successful reload.
#[derive(Clone, Copy, Debug, PartialEq, Eq, Structural)]
pub struct ReloadActions {
    /// The log verbosity the new document selects.
    pub level: LogLevel,
    /// The configured language changed, so the translation catalogue is
    /// reloaded.
    pub reload_language: bool,
    /// Re-apply settings and system tweaks now; skipped while a boost is
    /// in flight (the boost's exit reconciliation catches it up).
    pub apply_now: bool,
}

/// Decides what follows a successful configuration reload.
pub fn config_reload_actions(old_language: &str, new_config: &Config, is_boosting: bool) -> (r:
    ReloadActions)
    ensures
        r.level == level_of(new_config.meta.loglevel@),
        r.reload_language == (old_language@ != new_config.meta.language@),
        r.apply_now == !is_boosting,
{
    ReloadActions {
        level: parse_level(new_config.meta.loglevel.as_str()),
        reload_language: !str_eq(old_language, new_config.meta.language.as_str()),
        apply_now: !is_boosting,
    }
}

/// What the post-boost reconciliation plans: the pre-boost mode's
/// nominal frequencies when the mode name did not change across the
/// boost window, a full application of the new mode when it did.
pub open spec fn boost_exit_spec(s: CpuScheduler, before: Seq<char>, pre_boost: Mode) -> Seq<
    WriteCmd,
> {
    if s.current_mode_name@ == before {
        frequencies_plan(pre_boost, s.config.core_framework, false)
    } else {
        apply_all_plan(s)
    }
}

/// Law: applying the same mode twice in a row with an unchanged
/// configuration plans the same sysfs write set both times — the plan is
/// a function of the snapshot alone, so repetition has no further side
/// effects.
pub proof fn lemma_apply_all_settings_repeatable(
    s: CpuScheduler,
    plan1: Seq<WriteCmd>,
    plan2: Seq<WriteCmd>,
)
    requires
        plan1 == apply_all_plan(s),
        plan2 == apply_all_plan(s),
    ensures
        plan1 == plan2,
{
}

/// Law: the `fas` sentinel mode plans zero sysfs writes, whatever the
/// configuration and capabilities say.
pub proof fn lemma_fas_plans_nothing(s: CpuScheduler)
    requires
        s.current_mode_name@ == "fas"@,
    ensures
        apply_all_plan(s) == Seq::<WriteCmd>::empty(),
{
}

/// Law: boost reconciliation.  If the mode is unchanged across the boost
/// window, the post-boost writes are exactly the pre-boost mode's
/// nominal (non-boosted) frequency writes; if the mode changed during
/// the window, they are exactly a full application of the new mode, not
/// a partial restore of the old one.
pub proof fn lemma_boost_reconciliation(s: CpuScheduler, before: Seq<char>, pre_boost: Mode)
    requires
        !s.is_boosting,
    ensures
        s.current_mode_name@ == before ==> boost_exit_spec(s, before, pre_boost)
            == frequencies_plan(pre_boost, s.config.core_framework, false),
        s.current_mode_name@ != before ==> boost_exit_spec(s, before, pre_boost) == apply_all_plan(
            s,
        ),
{
}

} // verus!
