//! Screen-state tracking.  The kernel broadcasts power and backlight
//! events; this module classifies each event and maintains the shared
//! "screen on" flag, changing it only when the new state differs (so
//! repeated identical events cause no churn).

use vstd::prelude::*;

verus! {

use crate::text::str_eq;

/// What one kernel event asks the monitor to do.
#[derive(Clone, Copy, Debug, PartialEq, Eq, Structural)]
pub enum ScreenDecision {
    /// A power event settled the state directly.
    SetState(bool),
    /// A backlight change: read the backlight files after a short settle
    /// delay and judge from their contents.
    ReadBacklight,
    /// The event says nothing about the screen.
    Ignore,
}

/// Classification of one kernel event, from its subsystem, whether its
/// action is "change", and its POWER_ACTION value if any: on the power
/// subsystem, early_suspend means off and late_resume means on; on the
/// backlight subsystem a change event asks for a backlight read; all
/// other events are ignored.
pub open spec fn uevent_decision(
    subsystem: Seq<char>,
    action_is_change: bool,
    power_action: Option<Seq<char>>,
) -> ScreenDecision {
    if subsystem == "power"@ {
        match power_action {
            Option::Some(a) => if a == "early_suspend"@ {
                ScreenDecision::SetState(false)
            } else if a == "late_resume"@ {
                ScreenDecision::SetState(true)
            } else {
                ScreenDecision::Ignore
            },
            Option::None => ScreenDecision::Ignore,
        }
    } else if subsystem == "backlight"@ && action_is_change {
        ScreenDecision::ReadBacklight
    } else {
        ScreenDecision::Ignore
    }
}

/// Classifies one kernel event.
pub fn classify_uevent(subsystem: &str, action_is_change: bool, power_action: Option<&String>) -> (r:
    ScreenDecision)
    ensures
        r == uevent_decision(subsystem@, action_is_change, power_action.deep_view()),
{
    if str_eq(subsystem, "power") {
        match power_action {
            Some(a) => {
                if str_eq(a.as_str(), "early_suspend") {
                    ScreenDecision::SetState(false)
                } else if str_eq(a.as_str(), "late_resume") {
                    ScreenDecision::SetState(true)
                } else {
                    ScreenDecision::Ignore
                }
            },
            None => ScreenDecision::Ignore,
        }
    } else if str_eq(subsystem, "backlight") && action_is_change {
        ScreenDecision::ReadBacklight
    } else {
        ScreenDecision::Ignore
    }
}

/// The screen state a backlight read reports: a readable `bl_power`
/// value decides (0 is on), otherwise a readable `actual_brightness`
/// decides (positive is on), otherwise nothing is known.
pub open spec fn backlight_decision(bl_power: Option<i64>, actual_brightness: Option<i64>) -> Option<
    bool,
> {
    match bl_power {
        Option::Some(v) => Option::Some(v == 0),
        Option::None => match actual_brightness {
            Option::Some(v) => Option::Some(v > 0),
            Option::None => Option::None,
        },
    }
}

/// Judges the screen state from the two backlight files' contents.
pub fn backlight_state(bl_power: Option<i64>, actual_brightness: Option<i64>) -> (r: Option<bool>)
    ensures
        r == backlight_decision(bl_power, actual_brightness),
{
    match bl_power {
        Some(v) => Some(v == 0),
        None => match actual_brightness {
            Some(v) => Some(v > 0),
            None => None,
        },
    }
}

/// Stores a newly observed state only when it differs from the current
/// one; reports whether it did.  Identical repeated events are no-ops.
pub fn update_state_if_changed(state: &mut bool, new_state: bool) -> (changed: bool)
    ensures
        *final(state) == new_state,
        changed == (*old(state) != new_state),
        !changed ==> *final(state) == *old(state),
{
    if *state != new_state {
        *state = new_state;
        true
    } else {
        false
    }
}

} // verus!
