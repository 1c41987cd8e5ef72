use batman::alert::AlertEvent;
use batman::config::Thresholds;
use batman::daemon::{dispatch, RawEvent};
use batman::power::State;
use batman::registry::{BatteryId, BatterySet, DeviceInfo};
use batman::Error;

const PRIMARY: &str = "/power/devices/battery_BAT0";
const LINE_POWER: &str = "/power/devices/line_power_AC";

fn id(path: &str) -> BatteryId {
    BatteryId::new(path.to_string())
}

fn fresh_set() -> BatterySet {
    let devices = vec![DeviceInfo {
        id: id(PRIMARY),
        vendor: "Acme".to_string(),
        percentage: 80,
        state: State::Discharging,
    }];
    BatterySet::initialize(devices, &id(PRIMARY), &id(LINE_POWER)).expect("primary present")
}

fn thresholds() -> Thresholds {
    Thresholds::new(15, 10).0
}

#[test]
fn timeout_tick_is_a_noop() {
    let mut set = fresh_set();
    let t = thresholds();
    let alerts = dispatch(&mut set, &t, None).expect("tick is not an error");
    assert!(alerts.is_empty());
    assert_eq!(set.aux_count(), 0);
}

#[test]
fn added_then_removed_roundtrip() {
    let mut set = fresh_set();
    let t = thresholds();
    let alerts = dispatch(
        &mut set,
        &t,
        Some(RawEvent::DeviceAdded {
            id: id("/power/devices/mouse"),
            vendor: "Rodentia".to_string(),
            percentage: 55,
        }),
    )
    .expect("fresh id");
    assert_eq!(
        alerts,
        vec![AlertEvent::Connected {
            vendor: "Rodentia".to_string(),
            percentage: 55
        }]
    );
    assert_eq!(set.aux_count(), 1);

    let alerts = dispatch(
        &mut set,
        &t,
        Some(RawEvent::DeviceRemoved {
            id: id("/power/devices/mouse"),
        }),
    )
    .expect("tracked");
    assert_eq!(
        alerts,
        vec![AlertEvent::Disconnected {
            vendor: "Rodentia".to_string()
        }]
    );
    assert_eq!(set.aux_count(), 0);
}

#[test]
fn invalid_state_code_is_isolated() {
    let mut set = fresh_set();
    let t = thresholds();
    let r = dispatch(
        &mut set,
        &t,
        Some(RawEvent::PropertyChanged {
            id: id(PRIMARY),
            state_code: Some(7),
            percentage: Some(5),
        }),
    );
    assert!(matches!(r, Err(Error::InvalidState(7))));
    // The failed update changed nothing...
    assert_eq!(set.primary.percentage, 80);
    assert_eq!(set.primary.state, State::Discharging);
    // ...and the next, valid event is processed normally.
    let alerts = dispatch(
        &mut set,
        &t,
        Some(RawEvent::PropertyChanged {
            id: id(PRIMARY),
            state_code: None,
            percentage: Some(50),
        }),
    )
    .expect("valid event");
    assert!(alerts.is_empty());
    assert_eq!(set.primary.percentage, 50);
}

#[test]
fn both_properties_changed_primary_gives_two_alerts_in_order() {
    let mut set = fresh_set();
    let t = thresholds();
    set.apply_property_change(&id(PRIMARY), Some(State::Charging), None)
        .expect("tracked");
    // Code 2 decodes to Discharging.
    let alerts = dispatch(
        &mut set,
        &t,
        Some(RawEvent::PropertyChanged {
            id: id(PRIMARY),
            state_code: Some(2),
            percentage: Some(5),
        }),
    )
    .expect("valid event");
    assert_eq!(
        alerts,
        vec![
            AlertEvent::StateChanged {
                vendor: "Acme".to_string(),
                state: State::Discharging
            },
            AlertEvent::CriticalBattery {
                vendor: "Acme".to_string(),
                is_primary: true
            },
        ]
    );
}

#[test]
fn change_for_unknown_id_is_not_tracked() {
    let mut set = fresh_set();
    let t = thresholds();
    let r = dispatch(
        &mut set,
        &t,
        Some(RawEvent::PropertyChanged {
            id: id("/power/devices/ghost"),
            state_code: None,
            percentage: Some(10),
        }),
    );
    assert!(matches!(r, Err(Error::NotTracked)));
}

#[test]
fn removing_primary_through_dispatch_fails() {
    let mut set = fresh_set();
    let t = thresholds();
    let r = dispatch(&mut set, &t, Some(RawEvent::DeviceRemoved { id: id(PRIMARY) }));
    assert!(matches!(r, Err(Error::CannotRemovePrimary)));
    assert_eq!(set.primary.vendor, "Acme");
}

#[test]
fn state_decoding_covers_all_codes() {
    assert_eq!(State::try_from(0), Ok(State::Unknown));
    assert_eq!(State::try_from(1), Ok(State::Charging));
    assert_eq!(State::try_from(2), Ok(State::Discharging));
    assert_eq!(State::try_from(3), Ok(State::Empty));
    assert_eq!(State::try_from(4), Ok(State::FullyCharged));
    assert_eq!(State::try_from(5), Ok(State::PendingCharge));
    assert_eq!(State::try_from(6), Ok(State::PendingDischarge));
    assert_eq!(State::try_from(7), Err(Error::InvalidState(7)));
    assert_eq!(State::try_from(u32::MAX), Err(Error::InvalidState(u32::MAX)));
}
