//! The threshold policy: a pure, total function from a charge
//! percentage, the primary battery's charge state, and the configured
//! thresholds to an optional alert severity.
//!
//! Level alerts matter only while the system runs off its battery, so
//! the policy fires only when the primary battery is discharging —
//! for auxiliary batteries too, which are judged by the primary's
//! discharging status. Critical takes precedence over low; at most
//! one severity results from one reading.

use vstd::prelude::*;

use crate::config::Thresholds;
use crate::power::State;

verus! {

/// How urgent a level alert is.
#[derive(Clone, Copy, Debug, PartialEq, Eq, Structural)]
pub enum Severity {
    Low,
    Critical,
}

/// The severity a charge reading deserves: nothing unless the primary
/// battery is discharging; `Critical` strictly below the critical
/// threshold; otherwise `Low` strictly below the low threshold;
/// otherwise nothing.
pub open spec fn spec_level(
    percentage: u8,
    primary_state: State,
    low: u8,
    critical: u8,
) -> Option<Severity> {
    if primary_state != State::Discharging {
        None
    } else if percentage < critical {
        Some(Severity::Critical)
    } else if percentage < low {
        Some(Severity::Low)
    } else {
        None
    }
}

/// Decides the level alert for one charge reading. Pure and total:
/// defined for every percentage, state and threshold pair, and never
/// yields both severities for the same reading.
pub fn threshold_policy(percentage: u8, primary_state: State, thresholds: &Thresholds) -> (r:
    Option<Severity>)
    ensures
        r == spec_level(percentage, primary_state, thresholds.low, thresholds.critical),
{
    if !(primary_state == State::Discharging) {
        None
    } else if percentage < thresholds.critical {
        Some(Severity::Critical)
    } else if percentage < thresholds.low {
        Some(Severity::Low)
    } else {
        None
    }
}

/// While the primary battery is in any state but `Discharging`, no
/// charge reading yields a level alert, whatever the percentage and
/// thresholds.
pub proof fn lemma_no_level_unless_discharging(
    percentage: u8,
    primary_state: State,
    low: u8,
    critical: u8,
)
    requires
        primary_state != State::Discharging,
    ensures
        spec_level(percentage, primary_state, low, critical) is None,
{
}

} // verus!
