//! Detection rules, boot-script configuration and the fixed locations
//! of the daemon's own files below its module root.  The module root is
//! passed in by the process (it derives it from its executable path),
//! never read from ambient state.

use vstd::prelude::*;

verus! {

use crate::config::KvPair;
use crate::config::kv_get;
use crate::config::kv_lookup;
use vstd::string::StringExecFns;

/// Package-to-mode override table, the global mode, and the session-log
/// retention limit.  The override table is an association list keyed by
/// package name; its keys are unique.
#[derive(Clone, Debug, PartialEq)]
pub struct RulesConfig {
    pub yuki_scheduler: bool,
    pub dynamic_enabled: bool,
    pub global_mode: String,
    pub app_modes: Vec<KvPair>,
    pub session_log_limit: u32,
}

/// One boot script: its name and whether it should run.
#[derive(Clone, Debug, PartialEq)]
pub struct BootScriptEntry {
    pub name: String,
    pub enabled: bool,
}

/// Spec-level image of a `BootScriptEntry`.
pub struct BootScriptEntryV {
    pub name: Seq<char>,
    pub enabled: bool,
}

impl DeepView for BootScriptEntry {
    type V = BootScriptEntryV;

    open spec fn deep_view(&self) -> BootScriptEntryV {
        BootScriptEntryV { name: self.name@, enabled: self.enabled }
    }
}

/// The boot scripts, in the order the file declares them.
#[derive(Clone, Debug, PartialEq)]
pub struct BootScriptsConfig {
    pub scripts: Vec<BootScriptEntry>,
}

/// The serde-level default of the scheduler toggle: enabled.
pub fn default_true() -> (r: bool)
    ensures
        r,
{
    true
}

/// The serde-level default of the session-log retention limit.
pub fn default_session_log_limit() -> (r: u32)
    ensures
        r == 15u32,
{
    15
}

/// The rules used when the rules file is missing or malformed.
pub fn get_default_rules() -> (r: RulesConfig)
    ensures
        r.yuki_scheduler,
        r.dynamic_enabled,
        r.session_log_limit == 15u32,
        r.global_mode@ == "balance"@,
        r.app_modes.deep_view() == Seq::<(Seq<char>, Seq<char>)>::empty(),
{
    let r = RulesConfig {
        yuki_scheduler: true,
        dynamic_enabled: true,
        session_log_limit: 15,
        global_mode: "balance".to_owned(),
        app_modes: Vec::new(),
    };
    proof {
        assert(r.app_modes.deep_view() =~= Seq::<(Seq<char>, Seq<char>)>::empty());
    }
    r
}

/// The mode the rules resolve for a package: with dynamic detection off,
/// always the global mode; otherwise the package's override when the
/// table has one, and the global mode when it does not.
pub open spec fn resolved_mode(rules: RulesConfig, package: Seq<char>) -> Seq<char> {
    if !rules.dynamic_enabled {
        rules.global_mode@
    } else {
        match kv_lookup(rules.app_modes.deep_view(), package) {
            Option::Some(m) => m,
            Option::None => rules.global_mode@,
        }
    }
}

/// Resolves the mode for the current package.
pub fn determine_mode(config: &RulesConfig, current_package: &str) -> (r: String)
    ensures
        r@ == resolved_mode(*config, current_package@),
{
    if !config.dynamic_enabled {
        return config.global_mode.clone();
    }
    match kv_get(&config.app_modes, current_package) {
        Some(m) => m.clone(),
        None => config.global_mode.clone(),
    }
}

/// The names of the scripts that should run, in declaration order.
pub open spec fn enabled_names(s: Seq<BootScriptEntryV>) -> Seq<Seq<char>>
    decreases s.len(),
{
    if s.len() == 0 {
        Seq::<Seq<char>>::empty()
    } else {
        (if s[0].enabled {
            seq![s[0].name]
        } else {
            Seq::<Seq<char>>::empty()
        }) + enabled_names(s.drop_first())
    }
}

/// Filters the boot scripts down to the enabled ones, keeping order.
pub fn enabled_scripts(config: &BootScriptsConfig) -> (r: Vec<String>)
    ensures
        r.deep_view() == enabled_names(config.scripts.deep_view()),
{
    let ghost all = config.scripts.deep_view();
    let mut out: Vec<String> = Vec::new();
    let n = config.scripts.len();
    let mut i: usize = 0;
    proof {
        assert(all.skip(0) =~= all);
        assert(out.deep_view() =~= Seq::<Seq<char>>::empty());
    }
    while i < n
        invariant
            all == config.scripts.deep_view(),
            n == config.scripts@.len(),
            all.len() == n,
            i <= n,
            out.deep_view() + enabled_names(all.skip(i as int)) == enabled_names(all),
        decreases n - i,
    {
        let ghost pre = out.deep_view();
        let ghost rem = all.skip(i as int);
        proof {
            assert(rem[0] == all[i as int]);
            assert(rem.drop_first() =~= all.skip(i as int + 1));
        }
        let e = &config.scripts[i];
        proof {
            assert(e.deep_view() == all[i as int]);
        }
        if e.enabled {
            out.push(e.name.clone());
        }
        proof {
            assert(out.deep_view() + enabled_names(all.skip(i as int + 1)) =~= enabled_names(all));
        }
        i = i + 1;
    }
    proof {
        assert(all.skip(n as int) =~= Seq::<BootScriptEntryV>::empty());
        assert(out.deep_view() =~= enabled_names(all));
    }
    out
}

/// The on-disk location of one boot script below the scripts directory.
pub fn script_path(scripts_dir: &str, name: &str) -> (r: String)
    ensures
        r@ == scripts_dir@ + "/"@ + name@ + ".sh"@,
{
    let mut s = scripts_dir.to_owned();
    s.append("/");
    s.append(name);
    s.append(".sh");
    proof {
        assert(s@ =~= scripts_dir@ + "/"@ + name@ + ".sh"@);
    }
    s
}

/// The rules file below the module root.
pub fn get_rules_path(module_root: &str) -> (r: String)
    ensures
        r@ == module_root@ + "/rules.yaml"@,
{
    let mut s = module_root.to_owned();
    s.append("/rules.yaml");
    s
}

/// The boot-scripts file below the module root.
pub fn get_boot_scripts_path(module_root: &str) -> (r: String)
    ensures
        r@ == module_root@ + "/boot_scripts.yaml"@,
{
    let mut s = module_root.to_owned();
    s.append("/boot_scripts.yaml");
    s
}

/// The scripts directory below the module root.
pub fn get_scripts_dir(module_root: &str) -> (r: String)
    ensures
        r@ == module_root@ + "/scripts"@,
{
    let mut s = module_root.to_owned();
    s.append("/scripts");
    s
}

/// The power-history store below the module root.
pub fn get_db_path(module_root: &str) -> (r: String)
    ensures
        r@ == module_root@ + "/yuki_power.db"@,
{
    let mut s = module_root.to_owned();
    s.append("/yuki_power.db");
    s
}

/// The status file that carries the current mode name for outside
/// consumers, below the module root.
pub fn get_mode_file_path(module_root: &str) -> (r: String)
    ensures
        r@ == module_root@ + "/current_mode.txt"@,
{
    let mut s = module_root.to_owned();
    s.append("/current_mode.txt");
    s
}

} // verus!
