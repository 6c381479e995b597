//! Typed snapshot of the daemon's tunables, organised into named
//! performance modes.  A `Config` is immutable once built and replaced
//! wholesale on reload; every field holds plain values so that the
//! actuator's write plans are a pure function of the snapshot.
//!
//! Governor parameter tables and path tables are association lists kept
//! in declaration order (the on-disk document is a mapping; the loader
//! hands its entries over as key/value pairs).

use vstd::prelude::*;

verus! {

use crate::text::str_eq;

/// A key/value pair of an association list.
#[derive(Clone, Debug, PartialEq)]
pub struct KvPair {
    pub key: String,
    pub value: String,
}

impl DeepView for KvPair {
    type V = (Seq<char>, Seq<char>);

    open spec fn deep_view(&self) -> (Seq<char>, Seq<char>) {
        (self.key@, self.value@)
    }
}

/// One governor-parameter assignment: a path alias mapped, per core
/// cluster name, to the value that should be written.
#[derive(Clone, Debug, PartialEq)]
pub struct GovSetEntry {
    pub alias: String,
    pub per_core: Vec<KvPair>,
}

/// Spec-level image of a `GovSetEntry`.
pub struct GovSetEntryV {
    pub alias: Seq<char>,
    pub per_core: Seq<(Seq<char>, Seq<char>)>,
}

impl DeepView for GovSetEntry {
    type V = GovSetEntryV;

    open spec fn deep_view(&self) -> GovSetEntryV {
        GovSetEntryV { alias: self.alias@, per_core: self.per_core.deep_view() }
    }
}

/// All parameter assignments of one named governor.
#[derive(Clone, Debug, PartialEq)]
pub struct NamedGovSet {
    pub governor: String,
    pub entries: Vec<GovSetEntry>,
}

/// Spec-level image of a `NamedGovSet`.
pub struct NamedGovSetV {
    pub governor: Seq<char>,
    pub entries: Seq<GovSetEntryV>,
}

impl DeepView for NamedGovSet {
    type V = NamedGovSetV;

    open spec fn deep_view(&self) -> NamedGovSetV {
        NamedGovSetV { governor: self.governor@, entries: self.entries.deep_view() }
    }
}

/// The parameter-file names of one named governor, keyed by path alias.
#[derive(Clone, Debug, PartialEq)]
pub struct NamedGovPaths {
    pub governor: String,
    pub files: Vec<KvPair>,
}

/// Spec-level image of a `NamedGovPaths`.
pub struct NamedGovPathsV {
    pub governor: Seq<char>,
    pub files: Seq<(Seq<char>, Seq<char>)>,
}

impl DeepView for NamedGovPaths {
    type V = NamedGovPathsV;

    open spec fn deep_view(&self) -> NamedGovPathsV {
        NamedGovPathsV { governor: self.governor@, files: self.files.deep_view() }
    }
}

/// Log level and language of the daemon.
#[derive(Clone, Debug, PartialEq, Default)]
pub struct Meta {
    pub loglevel: String,
    pub language: String,
}

/// Governor assignment per core cluster; an empty per-cluster entry
/// falls back to the global governor.
#[derive(Clone, Debug, PartialEq, Default)]
pub struct GovernorSettings {
    pub global: String,
    pub small_core: String,
    pub medium_core: String,
    pub big_core: String,
    pub super_big_core: String,
}

/// Minimum and maximum scaling frequency per core cluster, as plain
/// kernel frequency integers ("min" and "max" tokens of the on-disk
/// document are resolved to 0 and 9999999 before they reach this type).
#[derive(Clone, Copy, Debug, PartialEq)]
pub struct FreqSettings {
    pub small_core_min_freq: u32,
    pub small_core_max_freq: u32,
    pub medium_core_min_freq: u32,
    pub medium_core_max_freq: u32,
    pub big_core_min_freq: u32,
    pub big_core_max_freq: u32,
    pub super_big_core_min_freq: u32,
    pub super_big_core_max_freq: u32,
}

/// Utilisation-clamp bounds per cgroup class, written as plain text.
#[derive(Clone, Debug, PartialEq)]
pub struct UclampSettings {
    pub uclamp_top_app_min: String,
    pub uclamp_top_app_max: String,
    pub uclamp_top_app_latency_sensitive: String,
    pub uclamp_fore_ground_min: String,
    pub uclamp_fore_ground_max: String,
    pub uclamp_back_ground_min: String,
    pub uclamp_back_ground_max: String,
}

/// Bus / DDR DCVS bounds of one mode.
#[derive(Clone, Debug, PartialEq, Default)]
pub struct BusDcvs {
    pub cpullccmin: String,
    pub cpullccmax: String,
    pub cpuddrmin: String,
    pub cpuddrmax: String,
}

/// Remaining per-mode toggles.
#[derive(Clone, Copy, Debug, PartialEq, Default)]
pub struct Other {
    pub ufs_clk_gate: bool,
}

/// One named performance profile.
#[derive(Clone, Debug, PartialEq, Default)]
pub struct Mode {
    pub governor: GovernorSettings,
    pub freq: FreqSettings,
    pub uclamp: UclampSettings,
    pub bus_dcvs: BusDcvs,
    pub govsets: Vec<NamedGovSet>,
    pub other: Other,
}

/// Feature toggles that gate whole actuation steps.
#[derive(Clone, Copy, Debug, PartialEq, Default)]
pub struct FunctionToggles {
    pub affinity_setter: bool,
    pub cpu_idle_scaling_governor: bool,
    pub eas_scheduler: bool,
    pub cpuset: bool,
    pub load_balancing: bool,
    pub enable_feas: bool,
    pub adj_i_o_scheduler: bool,
    pub app_launch_boost: bool,
}

/// Launch-boost tunables.  The frequency multiplier is held in
/// thousandths (1200 stands for a factor of 1.2); the boosted ceiling is
/// the nominal maximum times this value, divided by 1000 and truncated.
#[derive(Clone, Copy, Debug, PartialEq, Default)]
pub struct AppLaunchBoostSettings {
    pub freq_multi_permille: u32,
    pub boost_rate_ms: u64,
}

/// Cpuset core list for the daemon's own group.
#[derive(Clone, Debug, PartialEq, Default)]
pub struct CoreAllocation {
    pub cpu_set_core: String,
}

/// Scaling-policy id per core cluster; -1 marks a cluster that this
/// system-on-chip does not have.
#[derive(Clone, Copy, Debug, PartialEq, Default)]
pub struct CoreFramework {
    pub small_core_path: i32,
    pub medium_core_path: i32,
    pub big_core_path: i32,
    pub super_big_core_path: i32,
}

/// I/O scheduler settings.
#[derive(Clone, Debug, PartialEq, Default)]
pub struct IOSettings {
    pub scheduler: String,
    pub io_optimization: bool,
}

/// Completely-fair-scheduler knobs, written only when non-empty.
#[derive(Clone, Debug, PartialEq, Default)]
pub struct CompletelyFairSchedulerValue {
    pub sched_child_runs_first: String,
    pub sched_rt_period_us: String,
    pub sched_rt_runtime_us: String,
}

/// Cpuidle governor selection.
#[derive(Clone, Debug, PartialEq, Default)]
pub struct CpuIdle {
    pub current_governor: String,
}

/// Cpuset CPU lists per cgroup class.
#[derive(Clone, Debug, PartialEq, Default)]
pub struct Cpuset {
    pub top_app: String,
    pub foreground: String,
    pub restricted: String,
    pub system_background: String,
    pub background: String,
}

/// Control paths for the bus / DDR DCVS bounds.
#[derive(Clone, Debug, PartialEq, Default)]
pub struct BusDcvsPath {
    pub cpullccmin_path: String,
    pub cpullccmax_path: String,
    pub cpuddrmin_path: String,
    pub cpuddrmax_path: String,
}

/// The whole configuration snapshot.
#[derive(Clone, Debug, PartialEq, Default)]
pub struct Config {
    pub meta: Meta,
    pub function: FunctionToggles,
    pub app_launch_boost_settings: AppLaunchBoostSettings,
    pub core_allocation: CoreAllocation,
    pub core_framework: CoreFramework,
    pub io_settings: IOSettings,
    pub completely_fair_scheduler_value: CompletelyFairSchedulerValue,
    pub cpu_idle: CpuIdle,
    pub cpu_set: Cpuset,
    pub bus_dcvs_path: BusDcvsPath,
    pub p_gov_path: Vec<NamedGovPaths>,
    pub powersave: Mode,
    pub balance: Mode,
    pub performance: Mode,
    pub fast: Mode,
}

/// The mode names that a configuration defines; every other name (in
/// particular the `fas` sentinel) has no settings of its own.
pub open spec fn mode_exists(name: Seq<char>) -> bool {
    ||| name == "powersave"@
    ||| name == "balance"@
    ||| name == "performance"@
    ||| name == "fast"@
}

/// The names the shared current-mode slot may hold: a defined mode, or
/// the `fas` sentinel that hands the device to an external governor
/// framework.  The router maintains this as an invariant of the stored
/// name.
pub open spec fn valid_mode_name(name: Seq<char>) -> bool {
    mode_exists(name) || name == "fas"@
}

/// Decides whether a name may be stored as the current mode.
pub fn is_valid_mode_name(name: &str) -> (r: bool)
    ensures
        r == valid_mode_name(name@),
{
    if str_eq(name, "powersave") || str_eq(name, "balance") || str_eq(name, "performance")
        || str_eq(name, "fast") || str_eq(name, "fas") {
        true
    } else {
        false
    }
}

/// The mode a name selects, for names that `mode_exists` admits.
pub open spec fn mode_of(c: Config, name: Seq<char>) -> Mode {
    if name == "powersave"@ {
        c.powersave
    } else if name == "balance"@ {
        c.balance
    } else if name == "performance"@ {
        c.performance
    } else {
        c.fast
    }
}

impl Config {
    /// Looks a mode up by name; `None` exactly on unknown names.
    pub fn get_mode<'a>(&'a self, mode_name: &str) -> (r: Option<&'a Mode>)
        ensures
            match r {
                Some(m) => mode_exists(mode_name@) && *m == mode_of(*self, mode_name@),
                None => !mode_exists(mode_name@),
            },
    {
        if str_eq(mode_name, "powersave") {
            Some(&self.powersave)
        } else if str_eq(mode_name, "balance") {
            Some(&self.balance)
        } else if str_eq(mode_name, "performance") {
            Some(&self.performance)
        } else if str_eq(mode_name, "fast") {
            Some(&self.fast)
        } else {
            None
        }
    }
}

/// First value of the association list whose key equals `key`.
pub open spec fn kv_lookup(s: Seq<(Seq<char>, Seq<char>)>, key: Seq<char>) -> Option<Seq<char>>
    decreases s.len(),
{
    if s.len() == 0 {
        None
    } else if s[0].0 == key {
        Some(s[0].1)
    } else {
        kv_lookup(s.drop_first(), key)
    }
}

/// Association-list lookup over `KvPair`s, first match wins.
pub fn kv_get<'a>(v: &'a Vec<KvPair>, key: &str) -> (r: Option<&'a String>)
    ensures
        match r {
            Some(val) => kv_lookup(v.deep_view(), key@) == Some(val@),
            None => kv_lookup(v.deep_view(), key@) is None,
        },
{
    let ghost all = v.deep_view();
    let n = v.len();
    let mut i: usize = 0;
    proof {
        assert(all.skip(0) =~= all);
    }
    while i < n
        invariant
            all == v.deep_view(),
            n == v@.len(),
            all.len() == n,
            i <= n,
            kv_lookup(all, key@) == kv_lookup(all.skip(i as int), key@),
        decreases n - i,
    {
        if str_eq(v[i].key.as_str(), key) {
            proof {
                assert(all.skip(i as int)[0] == all[i as int]);
            }
            return Some(&v[i].value);
        }
        proof {
            assert(all.skip(i as int)[0] == all[i as int]);
            assert(all.skip(i as int).drop_first() =~= all.skip(i as int + 1));
        }
        i = i + 1;
    }
    proof {
        assert(all.skip(n as int) =~= Seq::<(Seq<char>, Seq<char>)>::empty());
    }
    None
}

/// First governor entry of `s` named `name`.
pub open spec fn govset_lookup(s: Seq<NamedGovSetV>, name: Seq<char>) -> Option<Seq<GovSetEntryV>>
    decreases s.len(),
{
    if s.len() == 0 {
        None
    } else if s[0].governor == name {
        Some(s[0].entries)
    } else {
        govset_lookup(s.drop_first(), name)
    }
}

/// Looks up the parameter assignments of one governor, first match wins.
pub fn find_govset<'a>(v: &'a Vec<NamedGovSet>, name: &str) -> (r: Option<&'a NamedGovSet>)
    ensures
        match r {
            Some(g) => govset_lookup(v.deep_view(), name@) == Some(g.entries.deep_view()),
            None => govset_lookup(v.deep_view(), name@) is None,
        },
{
    let ghost all = v.deep_view();
    let n = v.len();
    let mut i: usize = 0;
    proof {
        assert(all.skip(0) =~= all);
    }
    while i < n
        invariant
            all == v.deep_view(),
            n == v@.len(),
            all.len() == n,
            i <= n,
            govset_lookup(all, name@) == govset_lookup(all.skip(i as int), name@),
        decreases n - i,
    {
        if str_eq(v[i].governor.as_str(), name) {
            proof {
                assert(all.skip(i as int)[0] == all[i as int]);
            }
            return Some(&v[i]);
        }
        proof {
            assert(all.skip(i as int)[0] == all[i as int]);
            assert(all.skip(i as int).drop_first() =~= all.skip(i as int + 1));
        }
        i = i + 1;
    }
    proof {
        assert(all.skip(n as int) =~= Seq::<NamedGovSetV>::empty());
    }
    None
}

/// First path table of `s` for the governor named `name`.
pub open spec fn govpaths_lookup(s: Seq<NamedGovPathsV>, name: Seq<char>) -> Option<
    Seq<(Seq<char>, Seq<char>)>,
>
    decreases s.len(),
{
    if s.len() == 0 {
        None
    } else if s[0].governor == name {
        Some(s[0].files)
    } else {
        govpaths_lookup(s.drop_first(), name)
    }
}

/// Looks up the parameter-file table of one governor, first match wins.
pub fn find_govpaths<'a>(v: &'a Vec<NamedGovPaths>, name: &str) -> (r: Option<&'a NamedGovPaths>)
    ensures
        match r {
            Some(g) => govpaths_lookup(v.deep_view(), name@) == Some(g.files.deep_view()),
            None => govpaths_lookup(v.deep_view(), name@) is None,
        },
{
    let ghost all = v.deep_view();
    let n = v.len();
    let mut i: usize = 0;
    proof {
        assert(all.skip(0) =~= all);
    }
    while i < n
        invariant
            all == v.deep_view(),
            n == v@.len(),
            all.len() == n,
            i <= n,
            govpaths_lookup(all, name@) == govpaths_lookup(all.skip(i as int), name@),
        decreases n - i,
    {
        if str_eq(v[i].governor.as_str(), name) {
            proof {
                assert(all.skip(i as int)[0] == all[i as int]);
            }
            return Some(&v[i]);
        }
        proof {
            assert(all.skip(i as int)[0] == all[i as int]);
            assert(all.skip(i as int).drop_first() =~= all.skip(i as int + 1));
        }
        i = i + 1;
    }
    proof {
        assert(all.skip(n as int) =~= Seq::<NamedGovPathsV>::empty());
    }
    None
}

/// The log level assumed when the document names none.
pub fn default_loglevel() -> (r: String)
    ensures
        r@ == "INFO"@,
{
    "INFO".to_owned()
}

/// The language assumed when the document names none.
pub fn default_language() -> (r: String)
    ensures
        r@ == "en"@,
{
    "en".to_owned()
}

/// The global governor assumed when the document names none.
pub fn default_governor() -> (r: String)
    ensures
        r@ == "schedutil"@,
{
    "schedutil".to_owned()
}

/// The boost multiplier assumed when the document names none, in
/// thousandths: a factor of 1.2.
pub fn default_freq_multi() -> (r: u32)
    ensures
        r == 1200u32,
{
    1200
}

/// The boost duration assumed when the document names none, in
/// milliseconds.
pub fn default_boost_rate() -> (r: u64)
    ensures
        r == 200u64,
{
    200
}

impl Default for FreqSettings {
    /// Wide-open frequency bounds: no cluster is constrained.
    fn default() -> (r: FreqSettings)
        ensures
            r.small_core_min_freq == 0u32,
            r.small_core_max_freq == 10_000_000u32,
            r.medium_core_min_freq == 0u32,
            r.medium_core_max_freq == 10_000_000u32,
            r.big_core_min_freq == 0u32,
            r.big_core_max_freq == 10_000_000u32,
            r.super_big_core_min_freq == 0u32,
            r.super_big_core_max_freq == 10_000_000u32,
    {
        FreqSettings {
            small_core_min_freq: 0,
            small_core_max_freq: 10_000_000,
            medium_core_min_freq: 0,
            medium_core_max_freq: 10_000_000,
            big_core_min_freq: 0,
            big_core_max_freq: 10_000_000,
            super_big_core_min_freq: 0,
            super_big_core_max_freq: 10_000_000,
        }
    }
}

impl Default for UclampSettings {
    /// Moderate utilisation clamps favouring the foreground.
    fn default() -> (r: UclampSettings)
        ensures
            r.uclamp_top_app_min@ == "0"@,
            r.uclamp_top_app_max@ == "100"@,
            r.uclamp_top_app_latency_sensitive@ == "0"@,
            r.uclamp_fore_ground_min@ == "0"@,
            r.uclamp_fore_ground_max@ == "70"@,
            r.uclamp_back_ground_min@ == "0"@,
            r.uclamp_back_ground_max@ == "50"@,
    {
        UclampSettings {
            uclamp_top_app_min: "0".to_owned(),
            uclamp_top_app_max: "100".to_owned(),
            uclamp_top_app_latency_sensitive: "0".to_owned(),
            uclamp_fore_ground_min: "0".to_owned(),
            uclamp_fore_ground_max: "70".to_owned(),
            uclamp_back_ground_min: "0".to_owned(),
            uclamp_back_ground_max: "50".to_owned(),
        }
    }
}

/// Value of a frequency token of the on-disk document: "min" stands for
/// 0, "max" for the 9999999 cap; any other token is rejected.
pub fn freq_token_value(s: &str) -> (r: Option<u32>)
    ensures
        s@ == "min"@ ==> r == Some(0u32),
        s@ == "max"@ ==> r == Some(9999999u32),
        s@ != "min"@ && s@ != "max"@ ==> r is None,
{
    proof {
        reveal_strlit("min");
        reveal_strlit("max");
        assert("min"@ != "max"@) by {
            assert("min"@[1] == 'i');
            assert("max"@[1] == 'a');
        }
    }
    if str_eq(s, "min") {
        Some(0)
    } else if str_eq(s, "max") {
        Some(9999999)
    } else {
        None
    }
}

/// Accepts a numeric frequency if and only if it fits the frequency type.
pub fn freq_from_u64(v: u64) -> (r: Option<u32>)
    ensures
        v <= u32::MAX ==> r == Some(v as u32),
        v > u32::MAX ==> r is None,
{
    if v <= 0xffff_ffff {
        Some(v as u32)
    } else {
        None
    }
}

} // verus!
