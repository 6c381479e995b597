//! Sysfs write plans.  The actuator never touches the filesystem itself:
//! it returns an ordered list of `SysfsWrite` commands, and the process
//! around the library executes each one best-effort (a failed write is
//! logged and never aborts the rest of the plan).

use vstd::prelude::*;

verus! {

use crate::text::dec_digits;
use crate::text::u32_to_string;
use vstd::string::StringExecFns;

/// One planned write of plain text into a kernel control file.
///
/// * `set_permissions`: make the file writable before the write and
///   read-only afterwards (the ordinary variant); without it the file's
///   permissions are left alone.
/// * `only_if_exists`: skip the write when the path does not exist.
/// * `expand_glob`: treat the path as a glob pattern and write the value
///   into every matching file.
/// * `create_parent_dir`: create the containing directory first.
#[derive(Clone, Debug, PartialEq)]
pub struct SysfsWrite {
    pub path: String,
    pub value: String,
    pub set_permissions: bool,
    pub only_if_exists: bool,
    pub expand_glob: bool,
    pub create_parent_dir: bool,
}

/// Spec-level image of a `SysfsWrite`.
pub struct WriteCmd {
    pub path: Seq<char>,
    pub value: Seq<char>,
    pub set_permissions: bool,
    pub only_if_exists: bool,
    pub expand_glob: bool,
    pub create_parent_dir: bool,
}

impl DeepView for SysfsWrite {
    type V = WriteCmd;

    open spec fn deep_view(&self) -> WriteCmd {
        WriteCmd {
            path: self.path@,
            value: self.value@,
            set_permissions: self.set_permissions,
            only_if_exists: self.only_if_exists,
            expand_glob: self.expand_glob,
            create_parent_dir: self.create_parent_dir,
        }
    }
}

/// An ordinary planned write: adjust permissions, no existence test.
pub open spec fn wcmd(path: Seq<char>, value: Seq<char>) -> WriteCmd {
    WriteCmd {
        path,
        value,
        set_permissions: true,
        only_if_exists: false,
        expand_glob: false,
        create_parent_dir: false,
    }
}

/// A planned write that leaves the file's permissions alone.
pub open spec fn wcmd_no_perm(path: Seq<char>, value: Seq<char>) -> WriteCmd {
    WriteCmd {
        path,
        value,
        set_permissions: false,
        only_if_exists: false,
        expand_glob: false,
        create_parent_dir: false,
    }
}

/// A planned write performed only when the path exists.
pub open spec fn wcmd_if_exists(path: Seq<char>, value: Seq<char>) -> WriteCmd {
    WriteCmd {
        path,
        value,
        set_permissions: true,
        only_if_exists: true,
        expand_glob: false,
        create_parent_dir: false,
    }
}

/// A planned write into every file matching a glob pattern.
pub open spec fn wcmd_glob(pattern: Seq<char>, value: Seq<char>) -> WriteCmd {
    WriteCmd {
        path: pattern,
        value,
        set_permissions: true,
        only_if_exists: false,
        expand_glob: true,
        create_parent_dir: false,
    }
}

/// A planned write whose containing directory is created first.
pub open spec fn wcmd_mkdir(path: Seq<char>, value: Seq<char>) -> WriteCmd {
    WriteCmd {
        path,
        value,
        set_permissions: true,
        only_if_exists: false,
        expand_glob: false,
        create_parent_dir: true,
    }
}

fn push_full(
    out: &mut Vec<SysfsWrite>,
    path: String,
    value: String,
    set_permissions: bool,
    only_if_exists: bool,
    expand_glob: bool,
    create_parent_dir: bool,
)
    ensures
        final(out).deep_view() == old(out).deep_view().push(
            (WriteCmd {
                path: path@,
                value: value@,
                set_permissions,
                only_if_exists,
                expand_glob,
                create_parent_dir,
            }),
        ),
{
    let w = SysfsWrite { path, value, set_permissions, only_if_exists, expand_glob, create_parent_dir };
    let ghost cmd = w.deep_view();
    out.push(w);
    proof {
        assert(out.deep_view() =~= old(out).deep_view().push(cmd));
    }
}

/// Appends an ordinary write of `value` into `path`.
pub fn push_write(out: &mut Vec<SysfsWrite>, path: &str, value: &str)
    ensures
        final(out).deep_view() == old(out).deep_view().push(wcmd(path@, value@)),
{
    push_full(out, path.to_owned(), value.to_owned(), true, false, false, false);
}

/// Appends a write that leaves the target's permissions alone.
pub fn push_write_no_perm(out: &mut Vec<SysfsWrite>, path: &str, value: &str)
    ensures
        final(out).deep_view() == old(out).deep_view().push(wcmd_no_perm(path@, value@)),
{
    push_full(out, path.to_owned(), value.to_owned(), false, false, false, false);
}

/// Appends a write performed only when the path exists.
pub fn push_write_if_exists(out: &mut Vec<SysfsWrite>, path: &str, value: &str)
    ensures
        final(out).deep_view() == old(out).deep_view().push(wcmd_if_exists(path@, value@)),
{
    push_full(out, path.to_owned(), value.to_owned(), true, true, false, false);
}

/// Appends a glob-pattern write.
pub fn push_write_glob(out: &mut Vec<SysfsWrite>, pattern: &str, value: &str)
    ensures
        final(out).deep_view() == old(out).deep_view().push(wcmd_glob(pattern@, value@)),
{
    push_full(out, pattern.to_owned(), value.to_owned(), true, false, true, false);
}

/// Appends a write preceded by creation of its directory.
pub fn push_write_mkdir(out: &mut Vec<SysfsWrite>, path: &str, value: &str)
    ensures
        final(out).deep_view() == old(out).deep_view().push(wcmd_mkdir(path@, value@)),
{
    push_full(out, path.to_owned(), value.to_owned(), true, false, false, true);
}

/// The scaling-policy directory of one core cluster, with `suffix`
/// naming a file (or `/<governor>/<file>` chain) below it.
pub open spec fn policy_path(policy: int, suffix: Seq<char>) -> Seq<char> {
    "/sys/devices/system/cpu/cpufreq/policy"@ + dec_digits(policy as nat) + suffix
}

/// Builds the scaling-policy path for one cluster in executable code.
pub fn make_policy_path(policy: u32, suffix: &str) -> (r: String)
    ensures
        r@ == policy_path(policy as int, suffix@),
{
    let mut s = "/sys/devices/system/cpu/cpufreq/policy".to_owned();
    let num = u32_to_string(policy);
    s.append(num.as_str());
    s.append(suffix);
    proof {
        assert(s@ =~= policy_path(policy as int, suffix@));
    }
    s
}

/// Appends an ordinary write below a cluster's scaling-policy directory.
pub fn push_policy_write(out: &mut Vec<SysfsWrite>, policy: u32, suffix: &str, value: &str)
    ensures
        final(out).deep_view() == old(out).deep_view().push(
            wcmd(policy_path(policy as int, suffix@), value@),
        ),
{
    let path = make_policy_path(policy, suffix);
    push_full(out, path, value.to_owned(), true, false, false, false);
}

} // verus!
