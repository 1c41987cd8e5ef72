//! The dispatch step of the daemon loop.
//!
//! The surrounding process pumps the power subsystem with a bounded
//! wait and hands each raw event here as plain data; this module
//! applies it to the registry, runs the change interpreter, and
//! returns the alerts to deliver, in order. Every error out of a
//! dispatch is recoverable: the registry is left consistent and the
//! caller logs the error and continues with the next event. Only the
//! event feed failing outright — which never reaches this module —
//! terminates the daemon.

use vstd::prelude::*;

use crate::alert::AlertEvent;
use crate::config::Thresholds;
use crate::interpret::{interpret_change, spec_alerts};
use crate::power::{state_code_valid, state_of_code, State};
use crate::registry::{Battery, BatteryId, BatterySet, Role};
use crate::Error;

verus! {

/// One event out of the power subsystem, reduced to plain data.
#[allow(inconsistent_fields)]
#[derive(Debug)]
pub enum RawEvent {
    /// A device appeared, with its vendor name and whole charge
    /// percent at the time it was seen.
    DeviceAdded { id: BatteryId, vendor: String, percentage: u8 },
    /// A device disappeared.
    DeviceRemoved { id: BatteryId },
    /// Properties changed on a device: a raw state code and/or a new
    /// whole charge percent.
    PropertyChanged { id: BatteryId, state_code: Option<u32>, percentage: Option<u8> },
}

/// Percent fields of an event are genuine percent values.
pub open spec fn event_wf(event: Option<RawEvent>) -> bool {
    match event {
        Some(RawEvent::DeviceAdded { percentage, .. }) => percentage <= 100,
        Some(RawEvent::PropertyChanged { percentage, .. }) => match percentage {
            Some(p) => p <= 100,
            None => true,
        },
        _ => true,
    }
}

/// The state change an event's optional code denotes, once the code
/// is known to be valid.
pub open spec fn spec_decoded_state(code: Option<u32>) -> Option<State>
    recommends
        code matches Some(c) ==> state_code_valid(c),
{
    match code {
        None => None,
        Some(c) => Some(state_of_code(c)),
    }
}

/// Applies one pumped event to the registry and decides the alerts to
/// deliver, in order. `event` is `None` on a wait timeout, which is
/// the periodic liveness tick and a no-op, not an error.
///
/// An `Err` skips exactly the current update: the registry is never
/// left half-changed, so the next event is processed as if this one
/// had not arrived.
pub fn dispatch(set: &mut BatterySet, thresholds: &Thresholds, event: Option<RawEvent>) -> (r:
    Result<Vec<AlertEvent>, Error>)
    requires
        old(set).wf(),
        event_wf(event),
    ensures
        final (set).wf(),
        final (set).primary.id@ == old(set).primary.id@,
        r is Err ==> *final (set) == *old(set),
        event is None ==> (r matches Ok(v) && v@ == Seq::<AlertEvent>::empty() && *final (set)
            == *old(set)),
        event matches Some(RawEvent::DeviceAdded { id, vendor, percentage }) ==> {
            &&& old(set).spec_tracks(id@) ==> r == Err::<Vec<AlertEvent>, Error>(
                Error::AlreadyTracked,
            )
            &&& !old(set).spec_tracks(id@) ==> {
                &&& r matches Ok(v) && v@ == seq![
                    (AlertEvent::Connected { vendor, percentage }),
                ]
                &&& final (set).primary == old(set).primary
                &&& final (set).auxiliaries@ == old(set).auxiliaries@.push(
                    (Battery {
                        id,
                        role: Role::Auxiliary,
                        vendor,
                        percentage,
                        state: State::Unknown,
                    }),
                )
                &&& final (set).auxiliaries@.len() == old(set).auxiliaries@.len() + 1
                &&& final (set).spec_tracks(id@)
            }
        },
        event matches Some(RawEvent::DeviceRemoved { id }) ==> {
            &&& id@ == old(set).primary.id@ ==> r == Err::<Vec<AlertEvent>, Error>(
                Error::CannotRemovePrimary,
            )
            &&& id@ != old(set).primary.id@ && !old(set).spec_tracks(id@) ==> r == Err::<
                Vec<AlertEvent>,
                Error,
            >(Error::NotTracked)
            &&& id@ != old(set).primary.id@ && old(set).spec_tracks(id@) ==> exists|i: int|
                {
                    &&& 0 <= i < old(set).auxiliaries@.len()
                    &&& (#[trigger] old(set).auxiliaries@[i]).id@ == id@
                    &&& r matches Ok(v) && v@ == seq![
                        (AlertEvent::Disconnected { vendor: old(set).auxiliaries@[i].vendor }),
                    ]
                    &&& final (set).primary == old(set).primary
                    &&& final (set).auxiliaries@ == old(set).auxiliaries@.remove(i)
                    &&& final (set).auxiliaries@.len() == old(set).auxiliaries@.len() - 1
                    &&& !final (set).spec_tracks(id@)
                }
        },
        event matches Some(RawEvent::PropertyChanged { id, state_code, percentage }) ==> {
            &&& state_code matches Some(c) ==> (!state_code_valid(c) ==> r == Err::<
                Vec<AlertEvent>,
                Error,
            >(Error::InvalidState(c)))
            &&& (state_code matches Some(c) ==> state_code_valid(c)) ==> {
                &&& !old(set).spec_tracks(id@) ==> r == Err::<Vec<AlertEvent>, Error>(
                    Error::NotTracked,
                )
                &&& id@ == old(set).primary.id@ ==> {
                    &&& final (set).primary == BatterySet::updated_battery(
                        old(set).primary,
                        spec_decoded_state(state_code),
                        percentage,
                    )
                    &&& final (set).auxiliaries@ == old(set).auxiliaries@
                    &&& r matches Ok(v) && v@ == spec_alerts(
                        final (set).primary,
                        old(set).primary.state,
                        final (set).primary.state,
                        *thresholds,
                    )
                }
                &&& id@ != old(set).primary.id@ && old(set).spec_tracks(id@) ==> exists|i: int|
                    {
                        &&& 0 <= i < old(set).auxiliaries@.len()
                        &&& (#[trigger] old(set).auxiliaries@[i]).id@ == id@
                        &&& final (set).primary == old(set).primary
                        &&& final (set).auxiliaries@ == old(set).auxiliaries@.update(
                            i,
                            BatterySet::updated_battery(
                                old(set).auxiliaries@[i],
                                spec_decoded_state(state_code),
                                percentage,
                            ),
                        )
                        &&& r matches Ok(v) && v@ == spec_alerts(
                            final (set).auxiliaries@[i],
                            old(set).auxiliaries@[i].state,
                            old(set).primary.state,
                            *thresholds,
                        )
                    }
            }
        },
    {
        match event {
            None => Ok(Vec::new()),
            Some(RawEvent::DeviceAdded { id, vendor, percentage }) => {
                match set.add(id, vendor, percentage) {
                    Ok(alert) => {
                        let mut alerts: Vec<AlertEvent> = Vec::new();
                        alerts.push(alert);
                        proof {
                            assert(alerts@ =~= seq![alerts@[0]]);
                        }
                        Ok(alerts)
                    },
                    Err(e) => Err(e),
                }
            },
            Some(RawEvent::DeviceRemoved { id }) => {
                match set.remove(&id) {
                    Ok((alert, _removed)) => {
                        let mut alerts: Vec<AlertEvent> = Vec::new();
                        alerts.push(alert);
                        proof {
                            assert(alerts@ =~= seq![alerts@[0]]);
                        }
                        Ok(alerts)
                    },
                    Err(e) => Err(e),
                }
            },
            Some(RawEvent::PropertyChanged { id, state_code, percentage }) => {
                let new_state = match state_code {
                    None => None,
                    Some(code) => match State::try_from(code) {
                        Ok(s) => Some(s),
                        Err(e) => {
                            return Err(e);
                        },
                    },
                };
                match set.apply_property_change(&id, new_state, percentage) {
                    Err(e) => Err(e),
                    Ok((updated, prior_state)) => {
                        let primary_state = set.primary.state;
                        Ok(interpret_change(&updated, prior_state, primary_state, thresholds))
                    },
                }
            },
        }
    }

} // verus!
