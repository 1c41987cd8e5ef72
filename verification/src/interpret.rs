//! The change interpreter: turns one applied property change into the
//! ordered alerts it warrants — a state-change alert when the charge
//! state moved, then at most one level alert per the threshold
//! policy.

use vstd::prelude::*;

use crate::alert::AlertEvent;
use crate::config::Thresholds;
use crate::policy::{spec_level, threshold_policy, Severity};
use crate::power::State;
use crate::registry::{Battery, Role};

verus! {

/// The alerts one property change warrants, in delivery order: a
/// `StateChanged` alert exactly when the state moved, followed by the
/// level alert the threshold policy assigns to the new reading, if
/// any. Zero, one or two alerts; never a low and a critical alert for
/// the same update.
pub open spec fn spec_alerts(
    battery: Battery,
    prior_state: State,
    primary_state: State,
    thresholds: Thresholds,
) -> Seq<AlertEvent> {
    let base: Seq<AlertEvent> = if battery.state != prior_state {
        seq![AlertEvent::StateChanged { vendor: battery.vendor, state: battery.state }]
    } else {
        Seq::empty()
    };
    match spec_level(battery.percentage, primary_state, thresholds.low, thresholds.critical) {
        Some(Severity::Critical) => base.push(
            (AlertEvent::CriticalBattery {
                vendor: battery.vendor,
                is_primary: battery.role == Role::Primary,
            }),
        ),
        Some(Severity::Low) => base.push((AlertEvent::LowBattery { vendor: battery.vendor })),
        None => base,
    }
}

/// Interprets one applied property change. `battery` is the
/// post-update entry, `prior_state` its charge state before the
/// update, and `primary_state` the primary battery's current charge
/// state, which gates level alerts for every battery.
pub fn interpret_change(
    battery: &Battery,
    prior_state: State,
    primary_state: State,
    thresholds: &Thresholds,
) -> (r: Vec<AlertEvent>)
    ensures
        r@ == spec_alerts(*battery, prior_state, primary_state, *thresholds),
{
    let mut alerts: Vec<AlertEvent> = Vec::new();
    if !(battery.state == prior_state) {
        alerts.push(
            AlertEvent::StateChanged { vendor: battery.vendor.clone(), state: battery.state },
        );
    }
    match threshold_policy(battery.percentage, primary_state, thresholds) {
        Some(Severity::Critical) => {
            alerts.push(
                AlertEvent::CriticalBattery {
                    vendor: battery.vendor.clone(),
                    is_primary: battery.role == Role::Primary,
                },
            );
        },
        Some(Severity::Low) => {
            alerts.push(AlertEvent::LowBattery { vendor: battery.vendor.clone() });
        },
        None => {},
    }
    proof {
        assert(alerts@ =~= spec_alerts(*battery, prior_state, primary_state, *thresholds));
    }
    alerts
}

/// A property change that moves the primary battery's state to
/// `Discharging` while its percentage sits below the critical
/// threshold warrants exactly two alerts, in order: the state change,
/// then the critical level alert naming the primary.
pub proof fn lemma_state_and_critical_alerts(
    battery: Battery,
    prior_state: State,
    thresholds: Thresholds,
)
    requires
        battery.role == Role::Primary,
        battery.state == State::Discharging,
        battery.state != prior_state,
        battery.percentage < thresholds.critical,
    ensures
        ({
            let a = spec_alerts(battery, prior_state, battery.state, thresholds);
            &&& a.len() == 2
            &&& a[0] == (AlertEvent::StateChanged { vendor: battery.vendor, state: battery.state })
            &&& a[1] == (AlertEvent::CriticalBattery { vendor: battery.vendor, is_primary: true })
        }),
{
}

} // verus!
