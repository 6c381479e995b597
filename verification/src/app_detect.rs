//! Foreground-application detection: extracting candidate package names
//! from cgroup pid lists and process command lines, filtering out system
//! and input-method processes, the cached-path probing order, and the
//! polling loop's per-tick decision.
//!
//! All file reading stays outside the library; these functions work on
//! the contents that were read and on the per-tick events.

use vstd::prelude::*;

verus! {

use crate::router::SchedulerMessage;
use crate::rules::RulesConfig;
use crate::rules::determine_mode;
use crate::rules::resolved_mode;
use crate::text::char_pos;
use crate::text::cmdline_token_spec;
use crate::text::contains_char;
use crate::text::contains_substr;
use crate::text::find_char;
use crate::text::has_substr;
use crate::text::space_tokens;
use crate::text::split_spaces;
use crate::text::starts_with_char;
use crate::text::str_eq;
use crate::text::trim_str;
use crate::text::trimmed;
use crate::text::vec_contains_str;
use vstd::string::StrSliceExecFns;

/// Extracts the candidate package name from a process command line: the
/// text before the first NUL, trimmed of surrounding whitespace.
pub fn candidate_from_cmdline(cmdline: &str) -> (r: String)
    ensures
        r@ == cmdline_token_spec(cmdline@),
{
    let p = find_char(cmdline, '\0');
    let prefix = cmdline.substring_char(0, p);
    let r = trim_str(prefix);
    proof {
        assert(prefix@ =~= cmdline@.take(char_pos(cmdline@, '\0')));
    }
    r
}

/// The system and daemon names that never count as a foreground
/// application, whatever the cgroup says.
pub open spec fn rejected_name(p: Seq<char>) -> bool {
    ||| p == "com.android.systemui"@
    ||| p == "system_server"@
    ||| p == "surfaceflinger"@
    ||| p == "android.hardware.graphics.composer"@
    ||| p == "com.android.phone"@
    ||| p == "com.android.permissioncontroller"@
    ||| p == "yuki-daemon"@
    ||| p == "com.xiaomi.vtcamera"@
    ||| p == "com.android.providers.media.module"@
    ||| p == "com.google.android.gms.ui"@
}

/// A valid user application package name: non-empty, dotted, not a
/// path, not a service with a colon, not on the input-method blocklist,
/// not one of the fixed system names, and free of the daemon / monitor
/// substrings.
pub open spec fn valid_user_app(p: Seq<char>, ime_blocklist: Seq<Seq<char>>) -> bool {
    &&& p.len() > 0
    &&& p.contains('.')
    &&& p[0] != '/'
    &&& p[0] != '.'
    &&& !p.contains(':')
    &&& !ime_blocklist.contains(p)
    &&& !rejected_name(p)
    &&& !has_substr(p, "magisk"@)
    &&& !has_substr(p, "mtiodaemon"@)
    &&& !has_substr(p, "ads_monitor"@)
    &&& !has_substr(p, "inputmethod"@)
}

/// Judges whether a candidate names a valid user application.
pub fn is_valid_user_app(pkg: &str, ime_blocklist: &Vec<String>) -> (r: bool)
    ensures
        r == valid_user_app(pkg@, ime_blocklist.deep_view()),
{
    if pkg.is_empty() || !contains_char(pkg, '.') || starts_with_char(pkg, '/')
        || starts_with_char(pkg, '.') || contains_char(pkg, ':') {
        return false;
    }
    if vec_contains_str(ime_blocklist, pkg) {
        return false;
    }
    if str_eq(pkg, "com.android.systemui") || str_eq(pkg, "system_server") || str_eq(
        pkg,
        "surfaceflinger",
    ) || str_eq(pkg, "android.hardware.graphics.composer") || str_eq(pkg, "com.android.phone")
        || str_eq(pkg, "com.android.permissioncontroller") || str_eq(pkg, "yuki-daemon") || str_eq(
        pkg,
        "com.xiaomi.vtcamera",
    ) || str_eq(pkg, "com.android.providers.media.module") || str_eq(
        pkg,
        "com.google.android.gms.ui",
    ) {
        return false;
    }
    if contains_substr(pkg, "magisk") || contains_substr(pkg, "mtiodaemon") || contains_substr(
        pkg,
        "ads_monitor",
    ) || contains_substr(pkg, "inputmethod") {
        return false;
    }
    true
}

/// The pid list of a cgroup-procs file, newest entry first: the file
/// lists pids in ascending order, and detection wants the most recently
/// added first.
pub fn parse_pids_desc(content: &str) -> (r: Vec<String>)
    ensures
        r.deep_view() == space_tokens(content@).reverse(),
{
    let tokens = split_spaces(content);
    let mut out: Vec<String> = Vec::new();
    let n = tokens.len();
    let mut i: usize = 0;
    while i < n
        invariant
            n == tokens@.len(),
            i <= n,
            out.deep_view().len() == i,
            forall|j: int|
                0 <= j < i ==> out.deep_view()[j] == tokens.deep_view()[n - 1 - j],
        decreases n - i,
    {
        let ghost pre = out.deep_view();
        out.push(tokens[n - 1 - i].clone());
        proof {
            assert(out.deep_view() =~= pre.push(tokens@[n - 1 - i as int].deep_view()));
            assert(tokens.deep_view()[n - 1 - i as int] == tokens@[n - 1 - i as int].deep_view());
        }
        i = i + 1;
    }
    proof {
        assert(out.deep_view() =~= tokens.deep_view().reverse());
    }
    out
}

/// The first command line, in the given order, whose candidate names a
/// valid user application; the candidate itself is the result.
pub open spec fn first_valid_candidate(
    cmdlines: Seq<Seq<char>>,
    ime_blocklist: Seq<Seq<char>>,
) -> Option<Seq<char>>
    decreases cmdlines.len(),
{
    if cmdlines.len() == 0 {
        Option::None
    } else if valid_user_app(cmdline_token_spec(cmdlines[0]), ime_blocklist) {
        Option::Some(cmdline_token_spec(cmdlines[0]))
    } else {
        first_valid_candidate(cmdlines.drop_first(), ime_blocklist)
    }
}

/// Selects the package from the command lines of one cgroup's pids,
/// probed newest-first: the first valid candidate wins.
pub fn select_package(cmdlines: &Vec<String>, ime_blocklist: &Vec<String>) -> (r: Option<String>)
    ensures
        r.deep_view() == first_valid_candidate(cmdlines.deep_view(), ime_blocklist.deep_view()),
{
    let ghost all = cmdlines.deep_view();
    let ghost block = ime_blocklist.deep_view();
    let n = cmdlines.len();
    let mut i: usize = 0;
    proof {
        assert(all.skip(0) =~= all);
    }
    while i < n
        invariant
            all == cmdlines.deep_view(),
            block == ime_blocklist.deep_view(),
            n == cmdlines@.len(),
            all.len() == n,
            i <= n,
            first_valid_candidate(all, block) == first_valid_candidate(all.skip(i as int), block),
        decreases n - i,
    {
        proof {
            assert(all.skip(i as int)[0] == all[i as int]);
            assert(all.skip(i as int).drop_first() =~= all.skip(i as int + 1));
        }
        let candidate = candidate_from_cmdline(cmdlines[i].as_str());
        if is_valid_user_app(candidate.as_str(), ime_blocklist) {
            return Some(candidate);
        }
        i = i + 1;
    }
    proof {
        assert(all.skip(n as int) =~= Seq::<Seq<char>>::empty());
    }
    None
}

/// The cgroup-procs files known to list the foreground application's
/// pids, probed in this order on a full scan.
pub open spec fn cgroup_paths_spec() -> Seq<Seq<char>> {
    seq![
        "/dev/cpuset/top-app/cgroup.procs"@,
        "/sys/fs/cgroup/cpuset/top-app/cgroup.procs"@,
        "/dev/stune/top-app/cgroup.procs"@,
    ]
}

/// The probed cgroup-procs files, in scan order.
pub fn cgroup_paths() -> (r: Vec<&'static str>)
    ensures
        r.deep_view() == cgroup_paths_spec(),
{
    let mut v: Vec<&'static str> = Vec::new();
    v.push("/dev/cpuset/top-app/cgroup.procs");
    v.push("/sys/fs/cgroup/cpuset/top-app/cgroup.procs");
    v.push("/dev/stune/top-app/cgroup.procs");
    proof {
        assert(v.deep_view() =~= cgroup_paths_spec());
    }
    v
}

/// The cached index of the cgroup path that last yielded a result; any
/// value at or above the path count means "nothing cached yet".
#[derive(Clone, Copy, Debug, PartialEq)]
pub struct CgroupCache {
    pub idx: usize,
}

impl CgroupCache {
    /// A fresh cache with nothing cached.
    pub fn new() -> (r: CgroupCache)
        ensures
            r.idx == usize::MAX,
    {
        CgroupCache { idx: usize::MAX }
    }
}

/// The order in which a detection attempt probes the paths: the cached
/// path first, then the others in ascending order; without a cache, all
/// paths in ascending order.
pub open spec fn probe_order_spec(cached: int) -> Seq<usize> {
    if cached == 0 {
        seq![0usize, 1usize, 2usize]
    } else if cached == 1 {
        seq![1usize, 0usize, 2usize]
    } else if cached == 2 {
        seq![2usize, 0usize, 1usize]
    } else {
        seq![0usize, 1usize, 2usize]
    }
}

/// Computes the probing order for the current cache value.
pub fn probe_order(cached: usize) -> (r: Vec<usize>)
    ensures
        r@ == probe_order_spec(cached as int),
{
    let mut v: Vec<usize> = Vec::new();
    if cached == 1 {
        v.push(1);
        v.push(0);
        v.push(2);
    } else if cached == 2 {
        v.push(2);
        v.push(0);
        v.push(1);
    } else {
        v.push(0);
        v.push(1);
        v.push(2);
    }
    proof {
        assert(v@ =~= probe_order_spec(cached as int));
    }
    v
}

/// Law: with a cached path, that path is probed first.
pub proof fn lemma_probe_order_cached_first(cached: int)
    requires
        0 <= cached < 3,
    ensures
        probe_order_spec(cached)[0] as int == cached,
{
}

/// Law: every detection attempt's probing order covers each known path
/// exactly once, so a stale cache still falls back to a full scan.
pub proof fn lemma_probe_order_complete(cached: int)
    ensures
        probe_order_spec(cached).len() == cgroup_paths_spec().len(),
        forall|x: usize| x < 3 ==> probe_order_spec(cached).contains(x),
        probe_order_spec(cached).no_duplicates(),
{
    let order = probe_order_spec(cached);
    assert forall|x: usize| x < 3 implies order.contains(x) by {
        if order[0] == x {
            assert(order.contains(x));
        } else if order[1] == x {
            assert(order.contains(x));
        } else {
            assert(order[2] == x);
            assert(order.contains(x));
        }
    }
    assert(order.no_duplicates());
}

/// The first path of the full scan, skipping the cached one, whose
/// probe yielded a package; 3 when none did.
pub open spec fn scan_hit(results: Seq<Option<Seq<char>>>, cached: int) -> int {
    if cached != 0 && results[0] is Some {
        0
    } else if cached != 1 && results[1] is Some {
        1
    } else if cached != 2 && results[2] is Some {
        2
    } else {
        3
    }
}

/// The package one detection attempt returns, given each path's probe
/// result: the cached path's result when it has one, else the first
/// scanned result.
pub open spec fn detect_package(results: Seq<Option<Seq<char>>>, cached: int) -> Option<Seq<char>> {
    if 0 <= cached < 3 && results[cached] is Some {
        results[cached]
    } else if scan_hit(results, cached) < 3 {
        results[scan_hit(results, cached)]
    } else {
        Option::None
    }
}

/// The cache after one detection attempt: unchanged on a cached-path
/// hit and on a miss, the scanned path's index when the scan found one.
pub open spec fn detect_cache_after(results: Seq<Option<Seq<char>>>, cached: int) -> int {
    if 0 <= cached < 3 && results[cached] is Some {
        cached
    } else if scan_hit(results, cached) < 3 {
        scan_hit(results, cached)
    } else {
        cached
    }
}

/// One detection attempt over the probe results of the three paths
/// (each entry the package its cgroup file yielded, if any).  The
/// cached path is consulted first; only when it yields nothing are the
/// others scanned, and a successful scan re-caches the path that
/// answered.
pub fn get_focused_app_from_cgroup(cache: &mut CgroupCache, results: &Vec<Option<String>>) -> (r:
    Option<String>)
    requires
        results@.len() == 3,
    ensures
        r.deep_view() == detect_package(results.deep_view(), old(cache).idx as int),
        final(cache).idx as int == detect_cache_after(results.deep_view(), old(cache).idx as int),
{
    let cached = cache.idx;
    if cached < 3 {
        match &results[cached] {
            Some(pkg) => {
                return Some(pkg.clone());
            },
            None => {},
        }
    }
    if cached != 0 {
        match &results[0] {
            Some(pkg) => {
                cache.idx = 0;
                return Some(pkg.clone());
            },
            None => {},
        }
    }
    if cached != 1 {
        match &results[1] {
            Some(pkg) => {
                cache.idx = 1;
                return Some(pkg.clone());
            },
            None => {},
        }
    }
    if cached != 2 {
        match &results[2] {
            Some(pkg) => {
                cache.idx = 2;
                return Some(pkg.clone());
            },
            None => {},
        }
    }
    None
}

/// Law: cache correctness.  A cached path that still yields a result
/// answers alone and leaves the cache as it is; once it stops yielding,
/// the attempt falls back to the scan, and a scan hit re-caches the
/// path that answered while a full miss leaves the cache unchanged.
pub proof fn lemma_cache_correctness(results: Seq<Option<Seq<char>>>, cached: int)
    requires
        results.len() == 3,
    ensures
        0 <= cached < 3 && results[cached] is Some ==> detect_package(results, cached)
            == results[cached] && detect_cache_after(results, cached) == cached,
        !(0 <= cached < 3 && results[cached] is Some) && scan_hit(results, cached) < 3
            ==> detect_package(results, cached) == results[scan_hit(results, cached)]
            && detect_package(results, cached) is Some && detect_cache_after(results, cached)
            == scan_hit(results, cached),
        !(0 <= cached < 3 && results[cached] is Some) && scan_hit(results, cached) == 3 ==> (
        detect_package(results, cached) is None && detect_cache_after(results, cached) == cached),
{
}

/// Pieces of the settings output, split at every colon (empty pieces
/// included, as the raw split produces them).
pub open spec fn colon_pieces(s: Seq<char>) -> Seq<Seq<char>>
    decreases s.len(),
    via colon_pieces_dec
{
    let p = char_pos(s, ':');
    if p == s.len() {
        seq![s]
    } else {
        seq![s.take(p)] + colon_pieces(s.skip(p + 1))
    }
}

#[via_fn]
proof fn colon_pieces_dec(s: Seq<char>) {
    crate::text::lemma_char_pos_le(s, ':');
}

/// The package name one settings entry carries: the text before the
/// first slash, trimmed.
pub open spec fn ime_of_entry(e: Seq<char>) -> Seq<char> {
    trimmed(e.take(char_pos(e, '/')))
}

/// The non-empty package names of a list of settings entries, in order.
pub open spec fn ime_list(pieces: Seq<Seq<char>>) -> Seq<Seq<char>>
    decreases pieces.len(),
{
    if pieces.len() == 0 {
        Seq::<Seq<char>>::empty()
    } else {
        (if ime_of_entry(pieces[0]).len() > 0 {
            seq![ime_of_entry(pieces[0])]
        } else {
            Seq::<Seq<char>>::empty()
        }) + ime_list(pieces.drop_first())
    }
}

fn ime_from(s: &str, out: &mut Vec<String>)
    ensures
        final(out).deep_view() == old(out).deep_view() + ime_list(colon_pieces(s@)),
    decreases s@.len(),
{
    let ghost pieces = colon_pieces(s@);
    let ghost pre = out.deep_view();
    proof {
        assert(pre == old(out).deep_view());
        crate::text::lemma_char_pos_le(s@, ':');
    }
    let n = s.unicode_len();
    let p = find_char(s, ':');
    let piece = if p < n {
        s.substring_char(0, p)
    } else {
        s.substring_char(0, n)
    };
    proof {
        if p < n {
            assert(piece@ =~= s@.take(char_pos(s@, ':')));
            assert(piece@ == pieces[0]);
        } else {
            assert(piece@ =~= s@);
            assert(piece@ == pieces[0]);
        }
        crate::text::lemma_char_pos_le(piece@, '/');
    }
    let q = find_char(piece, '/');
    let prefix = piece.substring_char(0, q);
    proof {
        assert(prefix@ =~= piece@.take(char_pos(piece@, '/')));
    }
    let candidate = trim_str(prefix);
    if !candidate.as_str().is_empty() {
        out.push(candidate);
    }
    proof {
        assert(candidate@ == ime_of_entry(pieces[0]));
        if candidate@.len() > 0 {
            assert(out.deep_view() =~= pre.push(ime_of_entry(pieces[0])));
        }
    }
    if p < n {
        let rest = s.substring_char(p + 1, n);
        proof {
            assert(rest@ =~= s@.skip(p as int + 1));
        }
        let ghost at_call = out.deep_view();
        ime_from(rest, out);
        proof {
            assert(out.deep_view() == at_call + ime_list(colon_pieces(rest@)));
            assert(pieces.drop_first() =~= colon_pieces(s@.skip(p as int + 1)));
            assert(pieces.len() >= 1);
            assert(ime_list(pieces) == (if ime_of_entry(pieces[0]).len() > 0 {
                seq![ime_of_entry(pieces[0])]
            } else {
                Seq::<Seq<char>>::empty()
            }) + ime_list(pieces.drop_first()));
            if candidate@.len() > 0 {
                assert(at_call == pre.push(ime_of_entry(pieces[0])));
                assert(out.deep_view() =~= pre + ime_list(pieces));
            } else {
                assert(at_call == pre);
                assert(out.deep_view() =~= pre + ime_list(pieces));
            }
            assert(out.deep_view() =~= old(out).deep_view() + ime_list(pieces));
        }
    } else {
        proof {
            assert(pieces.drop_first() =~= Seq::<Seq<char>>::empty());
            assert(pieces.len() >= 1);
            assert(ime_list(pieces) == (if ime_of_entry(pieces[0]).len() > 0 {
                seq![ime_of_entry(pieces[0])]
            } else {
                Seq::<Seq<char>>::empty()
            }) + ime_list(pieces.drop_first()));
            assert(ime_list(pieces.drop_first()) == Seq::<Seq<char>>::empty());
            assert(out.deep_view() =~= old(out).deep_view() + ime_list(pieces));
        }
    }
}

/// Parses the output of the system's enabled-input-methods setting into
/// the list of input-method package names it carries.
pub fn ime_packages_from_settings_output(stdout: &str) -> (r: Vec<String>)
    ensures
        r.deep_view() == ime_list(colon_pieces(stdout@)),
{
    let mut out: Vec<String> = Vec::new();
    proof {
        assert(out.deep_view() =~= Seq::<Seq<char>>::empty());
    }
    ime_from(stdout, &mut out);
    proof {
        assert(out.deep_view() =~= ime_list(colon_pieces(stdout@)));
    }
    out
}

/// The input-method packages assumed when none can be discovered.
pub open spec fn fallback_ime_spec() -> Seq<Seq<char>> {
    seq![
        "com.sohu.inputmethod.sogou.xiaomi"@,
        "com.sohu.inputmethod.sogouoem"@,
        "com.google.android.inputmethod.latin"@,
        "com.baidu.input_mi"@,
        "com.iflytek.inputmethod.miui"@,
    ]
}

/// The hard-coded input-method fallback list.
pub fn fallback_ime_packages() -> (r: Vec<String>)
    ensures
        r.deep_view() == fallback_ime_spec(),
{
    let mut v: Vec<String> = Vec::new();
    v.push("com.sohu.inputmethod.sogou.xiaomi".to_owned());
    v.push("com.sohu.inputmethod.sogouoem".to_owned());
    v.push("com.google.android.inputmethod.latin".to_owned());
    v.push("com.baidu.input_mi".to_owned());
    v.push("com.iflytek.inputmethod.miui".to_owned());
    proof {
        assert(v.deep_view() =~= fallback_ime_spec());
    }
    v
}

/// The input-method blocklist: the packages named by the system's
/// settings output, or the fallback list when the output is unavailable
/// or names none.
pub fn get_system_ime_packages(settings_output: Option<&String>) -> (r: Vec<String>)
    ensures
        match settings_output {
            Some(o) => if ime_list(colon_pieces(o@)).len() > 0 {
                r.deep_view() == ime_list(colon_pieces(o@))
            } else {
                r.deep_view() == fallback_ime_spec()
            },
            None => r.deep_view() == fallback_ime_spec(),
        },
{
    match settings_output {
        Some(o) => {
            let parsed = ime_packages_from_settings_output(o.as_str());
            if parsed.len() > 0 {
                parsed
            } else {
                fallback_ime_packages()
            }
        },
        None => fallback_ime_packages(),
    }
}

/// State carried by the detection loop across ticks, together with the
/// shared "current package" slot that the power monitor reads.
#[derive(Clone, Debug, PartialEq)]
pub struct DetectorState {
    pub last_package: String,
    pub last_mode: String,
    pub last_screen_state: bool,
    pub current_package: String,
}

/// Spec-level image of a `DetectorState`.
pub struct DetectorStateV {
    pub last_package: Seq<char>,
    pub last_mode: Seq<char>,
    pub last_screen_state: bool,
    pub current_package: Seq<char>,
}

impl DeepView for DetectorState {
    type V = DetectorStateV;

    open spec fn deep_view(&self) -> DetectorStateV {
        DetectorStateV {
            last_package: self.last_package@,
            last_mode: self.last_mode@,
            last_screen_state: self.last_screen_state,
            current_package: self.current_package@,
        }
    }
}

/// The remembered package after the screen-transition step: a
/// transition to "on" clears it, forcing redetection and a fresh push.
pub open spec fn tick_base_package(st: DetectorStateV, screen_on: bool) -> Seq<char> {
    if screen_on != st.last_screen_state && screen_on {
        Seq::<char>::empty()
    } else {
        st.last_package
    }
}

/// The package this tick works with: the detection result, or the
/// remembered package when detection found nothing (a miss never
/// clears the current package).
pub open spec fn tick_package(st: DetectorStateV, screen_on: bool, detected: Option<Seq<char>>) -> Seq<
    char,
> {
    match detected {
        Option::Some(p) => p,
        Option::None => tick_base_package(st, screen_on),
    }
}

/// The emission rule: a router message goes out on this tick if and
/// only if the screen is on, the package is non-empty, the package
/// changed or a refresh is forced, and the resolved mode changed or a
/// refresh is forced.
pub open spec fn tick_emits(
    st: DetectorStateV,
    rules: RulesConfig,
    screen_on: bool,
    force_refresh: bool,
    detected: Option<Seq<char>>,
) -> bool {
    let lp = tick_base_package(st, screen_on);
    let cur = tick_package(st, screen_on, detected);
    &&& screen_on
    &&& (lp != cur || force_refresh)
    &&& cur.len() > 0
    &&& (st.last_mode != resolved_mode(rules, cur) || force_refresh)
}

/// The state after one tick.
pub open spec fn tick_next(
    st: DetectorStateV,
    rules: RulesConfig,
    screen_on: bool,
    force_refresh: bool,
    detected: Option<Seq<char>>,
) -> DetectorStateV {
    let lp = tick_base_package(st, screen_on);
    if !screen_on {
        DetectorStateV {
            last_package: lp,
            last_mode: st.last_mode,
            last_screen_state: false,
            current_package: st.current_package,
        }
    } else {
        let cur = tick_package(st, screen_on, detected);
        if (lp != cur || force_refresh) && cur.len() > 0 {
            let new_mode = if st.last_mode != resolved_mode(rules, cur) || force_refresh {
                resolved_mode(rules, cur)
            } else {
                st.last_mode
            };
            DetectorStateV {
                last_package: cur,
                last_mode: new_mode,
                last_screen_state: true,
                current_package: cur,
            }
        } else {
            DetectorStateV {
                last_package: lp,
                last_mode: st.last_mode,
                last_screen_state: true,
                current_package: st.current_package,
            }
        }
    }
}

impl DetectorState {
    /// The loop's starting state: no package, no emitted mode, screen
    /// assumed on.
    pub fn new() -> (r: DetectorState)
        ensures
            r.last_package@ == Seq::<char>::empty(),
            r.last_mode@ == Seq::<char>::empty(),
            r.last_screen_state,
            r.current_package@ == Seq::<char>::empty(),
    {
        DetectorState {
            last_package: String::new(),
            last_mode: String::new(),
            last_screen_state: true,
            current_package: String::new(),
        }
    }

    /// The package the detector currently considers foreground.
    pub fn get_current_package(&self) -> (r: String)
        ensures
            r@ == self.current_package@,
    {
        self.current_package.clone()
    }

    /// Records the package the detector currently considers foreground.
    pub fn set_current_package(&mut self, pkg: &str)
        ensures
            final(self).current_package@ == pkg@,
            final(self).last_package == old(self).last_package,
            final(self).last_mode == old(self).last_mode,
            final(self).last_screen_state == old(self).last_screen_state,
    {
        self.current_package = pkg.to_owned();
    }

    /// One tick of the detection loop: reacts to a screen transition,
    /// adopts the detection result (or keeps the remembered package on a
    /// miss), and emits at most one router message, exactly when the
    /// emission rule says so.
    pub fn detection_tick(
        &mut self,
        rules: &RulesConfig,
        screen_on: bool,
        force_refresh: bool,
        detected: Option<String>,
        temperature_milli: i64,
    ) -> (msg: Option<SchedulerMessage>)
        ensures
            final(self).deep_view() == tick_next(
                old(self).deep_view(),
                *rules,
                screen_on,
                force_refresh,
                detected.deep_view(),
            ),
            (msg is Some) == tick_emits(
                old(self).deep_view(),
                *rules,
                screen_on,
                force_refresh,
                detected.deep_view(),
            ),
            msg matches Some(m) ==> {
                let cur = tick_package(old(self).deep_view(), screen_on, detected.deep_view());
                &&& m.package_name@ == cur
                &&& m.mode@ == resolved_mode(*rules, cur)
                &&& m.temperature_milli == temperature_milli
            },
    {
        if screen_on != self.last_screen_state {
            self.last_screen_state = screen_on;
            if screen_on {
                self.last_package = String::new();
            }
        }
        if !screen_on {
            return None;
        }
        let current_package: String = match detected {
            Some(p) => p,
            None => self.last_package.clone(),
        };
        let package_changed = !str_eq(self.last_package.as_str(), current_package.as_str());
        let mut result: Option<SchedulerMessage> = None;
        if package_changed || force_refresh {
            if !current_package.as_str().is_empty() {
                self.current_package = current_package.clone();
                let new_mode = determine_mode(rules, current_package.as_str());
                if !str_eq(self.last_mode.as_str(), new_mode.as_str()) || force_refresh {
                    result = Some(
                        SchedulerMessage {
                            package_name: current_package.clone(),
                            mode: new_mode.clone(),
                            temperature_milli,
                        },
                    );
                    self.last_mode = new_mode;
                }
                self.last_package = current_package;
            }
        }
        result
    }
}

/// Law: the emission rule of an ordinary tick.  On a tick taken while
/// the screen stays on (no off-to-on transition), a router message goes
/// out if and only if the tick's package is non-empty, the package
/// changed or a refresh is forced, and the resolved mode differs from
/// the last emitted one or a refresh is forced.
pub proof fn lemma_emission_rule(
    st: DetectorStateV,
    rules: RulesConfig,
    force_refresh: bool,
    detected: Option<Seq<char>>,
)
    requires
        st.last_screen_state,
    ensures
        tick_emits(st, rules, true, force_refresh, detected) == ({
            let cur = tick_package(st, true, detected);
            &&& cur.len() > 0
            &&& (st.last_package != cur || force_refresh)
            &&& (st.last_mode != resolved_mode(rules, cur) || force_refresh)
        }),
{
}

/// Law: a screen-on transition forces a fresh push.  On the first tick
/// after the screen comes back on, the remembered package is discarded,
/// so any non-empty detection result counts as a package change and a
/// message goes out exactly when the resolved mode differs from the
/// last emitted one or a refresh is forced.
pub proof fn lemma_screen_on_transition_repushes(
    st: DetectorStateV,
    rules: RulesConfig,
    force_refresh: bool,
    package: Seq<char>,
)
    requires
        !st.last_screen_state,
        package.len() > 0,
    ensures
        tick_emits(st, rules, true, force_refresh, Option::Some(package)) == (st.last_mode
            != resolved_mode(rules, package) || force_refresh),
{
}

/// Law: one message per transition.  A tick that emits leaves the loop
/// in a state from which the same detection result, under the same
/// rules and without a forced refresh, emits nothing — however often
/// the tick repeats.
pub proof fn lemma_emits_at_most_once(
    st: DetectorStateV,
    rules: RulesConfig,
    force_refresh: bool,
    package: Seq<char>,
)
    requires
        tick_emits(st, rules, true, force_refresh, Option::Some(package)),
    ensures
        !tick_emits(
            tick_next(st, rules, true, force_refresh, Option::Some(package)),
            rules,
            true,
            false,
            Option::Some(package),
        ),
{
}

/// Law: steady state is silent.  When the detected package is the
/// remembered one, its resolved mode is the one last emitted, and no
/// refresh is forced, the tick emits nothing — repeated identical ticks
/// produce no further router traffic.
pub proof fn lemma_steady_state_silent(
    st: DetectorStateV,
    rules: RulesConfig,
    detected: Option<Seq<char>>,
)
    requires
        st.last_screen_state,
        detected matches Option::Some(p) && p == st.last_package,
        st.last_mode == resolved_mode(rules, st.last_package),
    ensures
        !tick_emits(st, rules, true, false, detected),
        tick_next(st, rules, true, false, detected) == st,
{
}

} // verus!
