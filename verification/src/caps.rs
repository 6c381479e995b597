//! Capability snapshot: which of the known kernel control paths exist on
//! this device.  The snapshot is computed once at startup and injected
//! into the actuator, which consults it instead of re-probing; absent
//! paths are skipped silently rather than treated as errors.

use vstd::prelude::*;

verus! {

/// Immutable record of which kernel control paths exist, probed once.
#[derive(Clone, Copy, Debug, PartialEq)]
pub struct SysPathExist {
    pub qcom_feas_exist: bool,
    pub mtk_feas_exist: bool,
    pub walt_exist: bool,
    pub stune_exist: bool,
    pub hi6220_ufs_exist: bool,
    pub cpuctl_top_app_exist: bool,
    pub cpuctl_foreground_exist: bool,
    pub cpuctl_background_exist: bool,
    pub cpuset_top_app_exist: bool,
    pub cpuset_foreground_exist: bool,
    pub cpuset_background_exist: bool,
    pub cpuset_system_background_exist: bool,
    pub cpuset_restricted_exist: bool,
    pub cpuset_root_exist: bool,
    pub cpuidle_governor_exist: bool,
    pub sda_scheduler_exist: bool,
}

/// Relies on `nix::unistd::access` with `F_OK`: reports whether the path
/// is accessible right now.  The outcome depends on the machine's
/// filesystem, so nothing is promised about the returned flag.
#[verifier::external_body]
fn probe_path(path: &str) -> bool {
    nix::unistd::access(path, nix::unistd::AccessFlags::F_OK).is_ok()
}

impl SysPathExist {
    /// Probes every known control path once; each later actuation step is
    /// gated on the flag recorded here, whatever the probe returned.
    pub fn new() -> SysPathExist {
        SysPathExist {
            qcom_feas_exist: probe_path("/sys/module/perfmgr/parameters/perfmgr_enable"),
            mtk_feas_exist: probe_path("/sys/module/mtk_fpsgo/parameters/perfmgr_enable"),
            walt_exist: probe_path("/proc/sys/walt"),
            stune_exist: probe_path("/dev/stune"),
            hi6220_ufs_exist: probe_path("/sys/bus/platform/devices/hi6220-ufs/ufs_clk_gate_disable"),
            cpuctl_top_app_exist: probe_path("/dev/cpuctl/top-app"),
            cpuctl_foreground_exist: probe_path("/dev/cpuctl/foreground"),
            cpuctl_background_exist: probe_path("/dev/cpuctl/background"),
            cpuset_top_app_exist: probe_path("/dev/cpuset/top-app"),
            cpuset_foreground_exist: probe_path("/dev/cpuset/foreground"),
            cpuset_background_exist: probe_path("/dev/cpuset/background"),
            cpuset_system_background_exist: probe_path("/dev/cpuset/system-background"),
            cpuset_restricted_exist: probe_path("/dev/cpuset/restricted"),
            cpuset_root_exist: probe_path("/dev/cpuset"),
            cpuidle_governor_exist: probe_path("/sys/devices/system/cpu/cpuidle/current_governor"),
            sda_scheduler_exist: probe_path("/sys/block/sda/queue/scheduler"),
        }
    }
}

} // verus!
