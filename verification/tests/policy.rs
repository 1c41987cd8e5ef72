use batman::alert::AlertEvent;
use batman::config::Thresholds;
use batman::interpret::interpret_change;
use batman::policy::{threshold_policy, Severity};
use batman::power::State;
use batman::registry::{Battery, BatteryId, Role};

fn thresholds() -> Thresholds {
    let (t, corrected) = Thresholds::new(15, 10);
    assert!(!corrected);
    t
}

fn battery(role: Role, percentage: u8, state: State) -> Battery {
    Battery {
        id: BatteryId::new("/power/devices/battery_BAT0".to_string()),
        role,
        vendor: "Acme".to_string(),
        percentage,
        state,
    }
}

#[test]
fn policy_examples_while_discharging() {
    let t = thresholds();
    assert_eq!(
        threshold_policy(5, State::Discharging, &t),
        Some(Severity::Critical)
    );
    assert_eq!(
        threshold_policy(12, State::Discharging, &t),
        Some(Severity::Low)
    );
    assert_eq!(threshold_policy(50, State::Discharging, &t), None);
}

#[test]
fn policy_boundaries() {
    let t = thresholds();
    assert_eq!(
        threshold_policy(9, State::Discharging, &t),
        Some(Severity::Critical)
    );
    assert_eq!(
        threshold_policy(10, State::Discharging, &t),
        Some(Severity::Low)
    );
    assert_eq!(
        threshold_policy(14, State::Discharging, &t),
        Some(Severity::Low)
    );
    assert_eq!(threshold_policy(15, State::Discharging, &t), None);
    assert_eq!(threshold_policy(0, State::Discharging, &t), Some(Severity::Critical));
    assert_eq!(threshold_policy(100, State::Discharging, &t), None);
}

#[test]
fn policy_silent_unless_discharging() {
    let t = thresholds();
    assert_eq!(threshold_policy(1, State::Charging, &t), None);
    assert_eq!(threshold_policy(1, State::Unknown, &t), None);
    assert_eq!(threshold_policy(1, State::Empty, &t), None);
    assert_eq!(threshold_policy(1, State::FullyCharged, &t), None);
    assert_eq!(threshold_policy(1, State::PendingCharge, &t), None);
    assert_eq!(threshold_policy(1, State::PendingDischarge, &t), None);
}

#[test]
fn both_changed_primary_yields_state_then_critical() {
    let t = thresholds();
    let b = battery(Role::Primary, 5, State::Discharging);
    let alerts = interpret_change(&b, State::Charging, State::Discharging, &t);
    assert_eq!(alerts.len(), 2);
    assert_eq!(
        alerts[0],
        AlertEvent::StateChanged {
            vendor: "Acme".to_string(),
            state: State::Discharging
        }
    );
    assert_eq!(
        alerts[1],
        AlertEvent::CriticalBattery {
            vendor: "Acme".to_string(),
            is_primary: true
        }
    );
}

#[test]
fn unchanged_state_low_reading_yields_low_only() {
    let t = thresholds();
    let b = battery(Role::Primary, 12, State::Discharging);
    let alerts = interpret_change(&b, State::Discharging, State::Discharging, &t);
    assert_eq!(alerts.len(), 1);
    assert_eq!(
        alerts[0],
        AlertEvent::LowBattery {
            vendor: "Acme".to_string()
        }
    );
}

#[test]
fn critical_reading_never_also_low() {
    let t = thresholds();
    let b = battery(Role::Primary, 3, State::Discharging);
    let alerts = interpret_change(&b, State::Discharging, State::Discharging, &t);
    assert_eq!(alerts.len(), 1);
    assert!(matches!(
        alerts[0],
        AlertEvent::CriticalBattery { is_primary: true, .. }
    ));
}

#[test]
fn auxiliary_level_gates_on_primary_state() {
    let t = thresholds();
    let aux = battery(Role::Auxiliary, 5, State::Discharging);
    // Primary charging: the auxiliary's own discharge state does not
    // trigger a level alert.
    let alerts = interpret_change(&aux, State::Discharging, State::Charging, &t);
    assert!(alerts.is_empty());
    // Primary discharging: the auxiliary's reading counts.
    let alerts = interpret_change(&aux, State::Discharging, State::Discharging, &t);
    assert_eq!(alerts.len(), 1);
    assert!(matches!(
        alerts[0],
        AlertEvent::CriticalBattery { is_primary: false, .. }
    ));
}

#[test]
fn healthy_unchanged_reading_is_silent() {
    let t = thresholds();
    let b = battery(Role::Primary, 80, State::Discharging);
    let alerts = interpret_change(&b, State::Discharging, State::Discharging, &t);
    assert!(alerts.is_empty());
}
