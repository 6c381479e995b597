//! Power monitoring decisions: when a sample is recorded, when a
//! charge-to-discharge transition opens a new session, and which
//! sessions the retention limit removes from the power-history store.
//!
//! The store itself is an external collaborator; this module only
//! decides.  Trimming receives the store's session summary (each session
//! id with its earliest timestamp) and names the session ids to delete:
//! the oldest ones, leaving exactly the configured number behind (one,
//! when the limit is zero, so that a zero limit never empties the store).

use vstd::prelude::*;

verus! {

use crate::text::contains_substr;
use crate::text::has_substr;
use crate::text::starts_with_str;
use crate::text::str_eq;
use vstd::assert_by_contradiction;

/// One session of the power-history store: its id and the earliest
/// timestamp recorded under it.
#[derive(Clone, Copy, Debug, PartialEq)]
pub struct SessionStamp {
    pub session_id: i64,
    pub min_timestamp: i64,
}

/// The battery status strings that mean the device is charging.
pub open spec fn charging_status(s: Seq<char>) -> bool {
    s == "Charging"@ || s == "Full"@
}

/// Whether a battery status string reports charging.
pub fn is_charging_status(s: &str) -> (r: bool)
    ensures
        r == charging_status(s@),
{
    str_eq(s, "Charging") || str_eq(s, "Full")
}

/// A directory below the thermal class that holds one thermal zone.
pub fn is_thermal_zone_name(name: &str) -> (r: bool)
    ensures
        r == "thermal_zone"@.is_prefix_of(name@),
{
    starts_with_str(name, "thermal_zone")
}

/// Whether a thermal zone's type string names a CPU package sensor.
pub fn is_cpu_thermal_type(type_content: &str) -> (r: bool)
    ensures
        r == (has_substr(type_content@, "soc_max"@) || has_substr(type_content@, "mtktscpu"@)
            || has_substr(type_content@, "cpu-1-"@) || has_substr(
            type_content@,
            "cpu-0-0-usr"@,
        )),
{
    contains_substr(type_content, "soc_max") || contains_substr(type_content, "mtktscpu")
        || contains_substr(type_content, "cpu-1-") || contains_substr(type_content, "cpu-0-0-usr")
}

/// State carried by the power monitoring loop across ticks.
#[derive(Clone, Copy, Debug, PartialEq)]
pub struct PowerState {
    pub session_id: i64,
    pub last_charging: bool,
}

/// What one tick of the power monitoring loop does.
#[derive(Clone, Copy, Debug, PartialEq, Eq, Structural)]
pub struct PowerStep {
    /// Charging just stopped: trim the store to the retention limit and
    /// open a new session.
    pub trim: bool,
    /// The device is discharging: record one sample under the current
    /// session.
    pub record: bool,
}

impl PowerState {
    /// Decides one tick of the power monitoring loop from the screen
    /// state and the battery status that was read (None when the read
    /// failed).  With the screen off, or when the status could not be
    /// read, nothing happens and nothing is remembered.  A session ends
    /// exactly when the last tick saw charging and this one does not;
    /// the new session is stamped `now_ms`.
    pub fn power_tick(&mut self, screen_on: bool, status: Option<&String>, now_ms: i64) -> (step:
        PowerStep)
        ensures
            ({
                let acted = screen_on && status is Some;
                let charging = match status {
                    Option::Some(s) => charging_status(s@),
                    Option::None => false,
                };
                &&& step.trim == (acted && old(self).last_charging && !charging)
                &&& step.record == (acted && !charging)
                &&& final(self).last_charging == (if acted {
                    charging
                } else {
                    old(self).last_charging
                })
                &&& final(self).session_id == (if step.trim {
                    now_ms
                } else {
                    old(self).session_id
                })
            }),
    {
        if !screen_on {
            return PowerStep { trim: false, record: false };
        }
        match status {
            None => PowerStep { trim: false, record: false },
            Some(s) => {
                let charging = is_charging_status(s.as_str());
                let trim = self.last_charging && !charging;
                if trim {
                    self.session_id = now_ms;
                }
                self.last_charging = charging;
                PowerStep { trim, record: !charging }
            },
        }
    }
}

proof fn lemma_insert_keeps_member(s: Seq<usize>, pos: int, elt: usize, x: usize)
    requires
        0 <= pos <= s.len(),
        s.contains(x),
    ensures
        s.insert(pos, elt).contains(x),
{
    let i = choose|i: int| 0 <= i < s.len() && s[i] == x;
    s.insert_ensures(pos, elt);
    if i < pos {
        assert(s.insert(pos, elt)[i] == x);
    } else {
        assert(s.insert(pos, elt)[i + 1] == x);
    }
}

/// Indices 0..n sorted by ascending `min_timestamp`, stably.
fn sort_indices_by_stamp(sessions: &Vec<SessionStamp>) -> (order: Vec<usize>)
    ensures
        order@.len() == sessions@.len(),
        forall|p: int| 0 <= p < order@.len() ==> (#[trigger] order@[p]) < sessions@.len(),
        forall|p: int, q: int|
            0 <= p < q < order@.len() ==> sessions@[order@[p] as int].min_timestamp
                <= sessions@[order@[q] as int].min_timestamp,
        forall|x: usize| x < sessions@.len() ==> order@.contains(x),
{
    let n = sessions.len();
    let mut order: Vec<usize> = Vec::new();
    let mut i: usize = 0;
    while i < n
        invariant
            n == sessions@.len(),
            i <= n,
            order@.len() == i,
            forall|p: int| 0 <= p < order@.len() ==> (#[trigger] order@[p]) < i,
            forall|p: int, q: int|
                0 <= p < q < order@.len() ==> sessions@[order@[p] as int].min_timestamp
                    <= sessions@[order@[q] as int].min_timestamp,
            forall|x: usize| x < i ==> order@.contains(x),
        decreases n - i,
    {
        let stamp = sessions[i].min_timestamp;
        // First position whose element is strictly newer than `stamp`.
        let mut pos: usize = 0;
        while pos < order.len()
            invariant
                n == sessions@.len(),
                i < n,
                order@.len() == i,
                pos <= order@.len(),
                forall|p: int| 0 <= p < order@.len() ==> (#[trigger] order@[p]) < i,
                stamp == sessions@[i as int].min_timestamp,
                forall|q: int|
                    0 <= q < pos ==> sessions@[order@[q] as int].min_timestamp <= stamp,
            ensures
                pos <= order@.len(),
                forall|q: int|
                    0 <= q < pos ==> sessions@[order@[q] as int].min_timestamp <= stamp,
                (pos as int) < order@.len() ==> sessions@[order@[pos as int] as int].min_timestamp
                    > stamp,
            decreases order@.len() - pos,
        {
            if sessions[order[pos]].min_timestamp > stamp {
                break ;
            }
            pos = pos + 1;
        }
        let ghost before = order@;
        proof {
            before.insert_ensures(pos as int, i);
        }
        order.insert(pos, i);
        proof {
            assert(order@ =~= before.insert(pos as int, i));
            assert forall|x: usize| x < i + 1 implies order@.contains(x) by {
                if x < i {
                    lemma_insert_keeps_member(before, pos as int, i, x);
                } else {
                    assert(order@[pos as int] == i);
                }
            }
            assert forall|p: int, q: int| 0 <= p < q < order@.len()
                implies sessions@[order@[p] as int].min_timestamp
                    <= sessions@[order@[q] as int].min_timestamp by {
                let sp = if p < pos as int {
                    before[p]
                } else if p == pos as int {
                    i
                } else {
                    before[p - 1]
                };
                let sq = if q < pos as int {
                    before[q]
                } else if q == pos as int {
                    i
                } else {
                    before[q - 1]
                };
                assert(order@[p] == sp);
                assert(order@[q] == sq);
                if q > pos as int && (pos as int) < before.len() {
                    assert(sessions@[before[pos as int] as int].min_timestamp > stamp);
                }
            }
        }
        i = i + 1;
    }
    order
}

/// Names the sessions that the retention limit removes: with N sessions
/// and limit L, nothing when N <= L, otherwise the N - max(L, 1) oldest
/// sessions by earliest timestamp, so that exactly max(L, 1) remain.
/// Requires the session ids to be distinct, as a store keyed by session
/// id reports them.
pub fn plan_session_trim(sessions: &Vec<SessionStamp>, limit: u32) -> (doomed: Vec<i64>)
    requires
        forall|i: int, j: int|
            0 <= i < j < sessions@.len() ==> sessions@[i].session_id != sessions@[j].session_id,
    ensures
        sessions@.len() <= limit ==> doomed@.len() == 0,
        sessions@.len() > limit ==> doomed@.len() == sessions@.len() - (if limit == 0 {
            1int
        } else {
            limit as int
        }),
        forall|x: i64| #[trigger]
            doomed@.contains(x) ==> exists|i: int|
                0 <= i < sessions@.len() && sessions@[i].session_id == x,
        forall|p: int, q: int| 0 <= p < q < doomed@.len() ==> doomed@[p] != doomed@[q],
        forall|i: int, j: int|
            #![trigger doomed@.contains(sessions@[i].session_id), doomed@.contains(sessions@[j].session_id)]
            0 <= i < sessions@.len() && 0 <= j < sessions@.len() && doomed@.contains(
                sessions@[i].session_id,
            ) && !doomed@.contains(sessions@[j].session_id)
                ==> sessions@[i].min_timestamp <= sessions@[j].min_timestamp,
{
    let n = sessions.len();
    if (n as u64) <= (limit as u64) {
        let doomed: Vec<i64> = Vec::new();
        return doomed;
    }
    let safe_limit: usize = if limit == 0 {
        1
    } else {
        limit as usize
    };
    let k = n - safe_limit;
    let order = sort_indices_by_stamp(sessions);
    let mut doomed: Vec<i64> = Vec::new();
    let mut p: usize = 0;
    while p < k
        invariant
            n == sessions@.len(),
            k <= n,
            order@.len() == n,
            forall|t: int| 0 <= t < order@.len() ==> (#[trigger] order@[t]) < n,
            p <= k,
            doomed@.len() == p,
            forall|t: int|
                0 <= t < p ==> #[trigger] doomed@[t] == sessions@[order@[t] as int].session_id,
        decreases k - p,
    {
        doomed.push(sessions[order[p]].session_id);
        p = p + 1;
    }
    proof {
        let sv = sessions@;
        let dv = doomed@;
        let ov = order@;
        lemma_order_injective(ov);
        assert forall|a: int, b: int| 0 <= a < b < dv.len() implies dv[a] != dv[b] by {
            assert(ov[a] != ov[b]);
            if ov[a] < ov[b] {
                assert(sv[ov[a] as int].session_id != sv[ov[b] as int].session_id);
            } else {
                assert(sv[ov[b] as int].session_id != sv[ov[a] as int].session_id);
            }
        };
        assert forall|x: i64| #[trigger] dv.contains(x) implies exists|i: int|
            0 <= i < sv.len() && sv[i].session_id == x by {
            let t = choose|t: int| 0 <= t < dv.len() && dv[t] == x;
            assert(sv[ov[t] as int].session_id == x);
        };
        assert forall|i: int, j: int|
            0 <= i < sv.len() && 0 <= j < sv.len() && dv.contains(sv[i].session_id)
                && !dv.contains(sv[j].session_id)
            implies sv[i].min_timestamp <= sv[j].min_timestamp by {
            let a = choose|a: int| 0 <= a < dv.len() && dv[a] == sv[i].session_id;
            // order[a] and i carry the same id, so they are the same index
            if ov[a] as int != i {
                if (ov[a] as int) < i {
                    assert(sv[ov[a] as int].session_id != sv[i].session_id);
                } else {
                    assert(sv[i].session_id != sv[ov[a] as int].session_id);
                }
            }
            assert(ov[a] as int == i);
            // j occurs somewhere in the order
            assert(ov.contains(j as usize));
            let b = choose|b: int| 0 <= b < ov.len() && ov[b] == j as usize;
            if b < dv.len() {
                assert(dv[b] == sv[j].session_id);
                assert(dv.contains(sv[j].session_id));
            }
            assert(b >= dv.len());
            if a < b {
                assert(sv[ov[a] as int].min_timestamp <= sv[ov[b] as int].min_timestamp);
            }
        };
    }
    doomed
}

/// Positions of the sorted index sequence hold pairwise different
/// indices: the sequence has length n, every value below n occurs in
/// it, and every value is below n.
proof fn lemma_order_injective(ov: Seq<usize>)
    requires
        ov.len() <= usize::MAX,
        forall|x: usize| x < ov.len() ==> ov.contains(x),
        forall|t: int| 0 <= t < ov.len() ==> (#[trigger] ov[t]) < ov.len(),
    ensures
        forall|a: int, b: int| 0 <= a < b < ov.len() ==> ov[a] != ov[b],
{
    let n = ov.len() as int;
    assert forall|a: int, b: int| 0 <= a < b < ov.len() implies ov[a] != ov[b] by {
        assert_by_contradiction!(ov[a] != ov[b], {
            // with a repeated value, removing one occurrence leaves a
            // sequence of length n - 1 that still holds every value
            // below n, which is impossible
            let reduced = ov.remove(a);
            ov.remove_ensures(a);
            assert forall|x: usize| x < n implies reduced.contains(x) by {
                assert(ov.contains(x));
                let t = choose|t: int| 0 <= t < ov.len() && ov[t] == x;
                if t < a {
                    assert(reduced[t] == x);
                } else if t == a {
                    assert(reduced[b - 1] == x);
                } else {
                    assert(reduced[t - 1] == x);
                }
            };
            lemma_contains_all_needs_length(reduced, n);
        });
    };
}

proof fn lemma_contains_all_needs_length(s: Seq<usize>, n: int)
    requires
        0 <= n <= usize::MAX,
        forall|x: usize| x < n ==> s.contains(x),
    ensures
        s.len() >= n,
    decreases n,
{
    if n > 0 {
        // remove one occurrence of n - 1; everything below n - 1 remains
        let last_val = (n - 1) as usize;
        assert(s.contains(last_val));
        let t = choose|t: int| 0 <= t < s.len() && s[t] == last_val;
        let reduced = s.remove(t);
        s.remove_ensures(t);
        assert forall|x: usize| x < n - 1 implies reduced.contains(x) by {
            assert(s.contains(x));
            let u = choose|u: int| 0 <= u < s.len() && s[u] == x;
            if u < t {
                assert(reduced[u] == x);
            } else if u > t {
                assert(reduced[u - 1] == x);
            }
        };
        lemma_contains_all_needs_length(reduced, n - 1);
    }
}

} // verus!
