//! Semantic alert events: what the interpreter decides to announce
//! about a battery, before any rendering or delivery.

use vstd::prelude::*;

use crate::power::State;

verus! {

/// One user-facing alert, produced by the registry or the change
/// interpreter and handed to the delivery sink in order.
#[derive(Debug)]
pub enum AlertEvent {
    /// A new auxiliary battery appeared, with its vendor name and
    /// charge percentage at the time it was seen.
    Connected { vendor: String, percentage: u8 },
    /// A tracked auxiliary battery disappeared.
    Disconnected { vendor: String },
    /// A battery moved to a new charge state.
    StateChanged { vendor: String, state: State },
    /// A battery fell below the low threshold while the system runs
    /// off the primary battery.
    LowBattery { vendor: String },
    /// A battery fell below the critical threshold while the system
    /// runs off the primary battery.
    CriticalBattery { vendor: String, is_primary: bool },
}

impl PartialEq for AlertEvent {
    fn eq(&self, other: &AlertEvent) -> (r: bool) {
        match (self, other) {
            (
                AlertEvent::Connected { vendor: v1, percentage: p1 },
                AlertEvent::Connected { vendor: v2, percentage: p2 },
            ) => *v1 == *v2 && *p1 == *p2,
            (
                AlertEvent::Disconnected { vendor: v1 },
                AlertEvent::Disconnected { vendor: v2 },
            ) => *v1 == *v2,
            (
                AlertEvent::StateChanged { vendor: v1, state: s1 },
                AlertEvent::StateChanged { vendor: v2, state: s2 },
            ) => *v1 == *v2 && *s1 == *s2,
            (
                AlertEvent::LowBattery { vendor: v1 },
                AlertEvent::LowBattery { vendor: v2 },
            ) => *v1 == *v2,
            (
                AlertEvent::CriticalBattery { vendor: v1, is_primary: b1 },
                AlertEvent::CriticalBattery { vendor: v2, is_primary: b2 },
            ) => *v1 == *v2 && *b1 == *b2,
            _ => false,
        }
    }
}

impl vstd::std_specs::cmp::PartialEqSpecImpl for AlertEvent {
    open spec fn obeys_eq_spec() -> bool {
        true
    }

    open spec fn eq_spec(&self, other: &AlertEvent) -> bool {
        match (self, other) {
            (
                AlertEvent::Connected { vendor: v1, percentage: p1 },
                AlertEvent::Connected { vendor: v2, percentage: p2 },
            ) => v1@ == v2@ && p1 == p2,
            (
                AlertEvent::Disconnected { vendor: v1 },
                AlertEvent::Disconnected { vendor: v2 },
            ) => v1@ == v2@,
            (
                AlertEvent::StateChanged { vendor: v1, state: s1 },
                AlertEvent::StateChanged { vendor: v2, state: s2 },
            ) => v1@ == v2@ && s1 == s2,
            (
                AlertEvent::LowBattery { vendor: v1 },
                AlertEvent::LowBattery { vendor: v2 },
            ) => v1@ == v2@,
            (
                AlertEvent::CriticalBattery { vendor: v1, is_primary: b1 },
                AlertEvent::CriticalBattery { vendor: v2, is_primary: b2 },
            ) => v1@ == v2@ && b1 == b2,
            _ => false,
        }
    }
}

} // verus!
