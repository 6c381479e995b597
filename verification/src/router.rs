//! The scheduler router: single consumer of detection messages and the
//! only writer that triggers full settings application outside the boost
//! loop.  For each message it decides whether the mode changed, whether
//! the status file is rewritten, and whether settings are applied now.
//!
//! The stored current-mode name always names a defined mode or the
//! `fas` sentinel; a message naming anything else is rejected whole, so
//! routing preserves that invariant.

use vstd::prelude::*;

verus! {

use crate::config::is_valid_mode_name;
use crate::config::valid_mode_name;
use crate::text::str_eq;

/// The payload crossing the detection-to-actuation boundary: one
/// message per detected mode transition.  The temperature is carried in
/// thousandths of a degree, as the thermal sensor file reports it.
#[derive(Clone, Debug, PartialEq)]
pub struct SchedulerMessage {
    pub package_name: String,
    pub mode: String,
    pub temperature_milli: i64,
}

/// Spec-level image of a `SchedulerMessage`.
pub struct SchedulerMessageV {
    pub package_name: Seq<char>,
    pub mode: Seq<char>,
    pub temperature_milli: i64,
}

impl DeepView for SchedulerMessage {
    type V = SchedulerMessageV;

    open spec fn deep_view(&self) -> SchedulerMessageV {
        SchedulerMessageV {
            package_name: self.package_name@,
            mode: self.mode@,
            temperature_milli: self.temperature_milli,
        }
    }
}

/// What the router does with one message.
#[derive(Clone, Copy, Debug, PartialEq, Eq, Structural)]
pub struct RouteOutcome {
    /// The message's mode differs from the stored one and was adopted.
    pub changed: bool,
    /// Rewrite the status file with the new mode name (best-effort).
    pub persist: bool,
    /// Apply the full settings set now; suppressed while a boost is in
    /// flight (the stored name is still updated, so the boost's exit
    /// reconciliation sees it).
    pub apply: bool,
    /// The message named neither a defined mode nor the `fas` sentinel
    /// and was dropped whole; worth a log line, nothing more.
    pub rejected: bool,
}

/// Routes one message against the stored current mode name.  An
/// unchanged mode is skipped entirely: no state change, no write.  A
/// message whose mode names neither a defined mode nor `fas` is
/// rejected the same way, keeping the stored name's invariant.  A valid
/// changed mode updates the stored name first, then asks for the status
/// file write, and for settings application unless a boost is in
/// flight.
pub fn route_message(current_mode_name: &mut String, msg: &SchedulerMessage, is_boosting: bool) -> (r:
    RouteOutcome)
    ensures
        r.rejected == (old(current_mode_name)@ != msg.mode@ && !valid_mode_name(msg.mode@)),
        r.changed == (old(current_mode_name)@ != msg.mode@ && valid_mode_name(msg.mode@)),
        !r.changed ==> final(current_mode_name)@ == old(current_mode_name)@ && !r.persist
            && !r.apply,
        r.changed ==> final(current_mode_name)@ == msg.mode@ && r.persist && r.apply == !is_boosting,
        valid_mode_name(old(current_mode_name)@) ==> valid_mode_name(final(current_mode_name)@),
{
    if str_eq(current_mode_name.as_str(), msg.mode.as_str()) {
        RouteOutcome { changed: false, persist: false, apply: false, rejected: false }
    } else if !is_valid_mode_name(msg.mode.as_str()) {
        RouteOutcome { changed: false, persist: false, apply: false, rejected: true }
    } else {
        *current_mode_name = msg.mode.clone();
        RouteOutcome { changed: true, persist: true, apply: !is_boosting, rejected: false }
    }
}

} // verus!
