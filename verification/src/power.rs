//! Charge states of a power-supply device, as reported by the power
//! subsystem through small integer codes.

use vstd::prelude::*;

use crate::Error;

verus! {

/// The charge state of one battery. Decoded from the integer code the
/// power subsystem attaches to a device; codes run from zero
/// (`Unknown`) through six (`PendingDischarge`) in declaration order.
#[derive(Clone, Copy, Debug, PartialEq, Eq, Structural)]
pub enum State {
    Unknown,
    Charging,
    Discharging,
    Empty,
    FullyCharged,
    PendingCharge,
    PendingDischarge,
}

/// Whether an integer code denotes a charge state.
pub open spec fn state_code_valid(value: u32) -> bool {
    value <= 6
}

/// The charge state a valid code denotes.
pub open spec fn state_of_code(value: u32) -> State
    recommends
        state_code_valid(value),
{
    if value == 0 {
        State::Unknown
    } else if value == 1 {
        State::Charging
    } else if value == 2 {
        State::Discharging
    } else if value == 3 {
        State::Empty
    } else if value == 4 {
        State::FullyCharged
    } else if value == 5 {
        State::PendingCharge
    } else {
        State::PendingDischarge
    }
}

impl State {
    /// Decodes a raw state code. Every code in `0..=6` decodes to the
    /// corresponding state; any other code is an invalid-state error,
    /// never a panic.
    pub fn try_from(value: u32) -> (r: Result<State, Error>)
        ensures
            r is Ok <==> state_code_valid(value),
            state_code_valid(value) ==> r == Ok::<State, Error>(state_of_code(value)),
            !state_code_valid(value) ==> r == Err::<State, Error>(Error::InvalidState(value)),
    {
        match value {
            0 => Ok(State::Unknown),
            1 => Ok(State::Charging),
            2 => Ok(State::Discharging),
            3 => Ok(State::Empty),
            4 => Ok(State::FullyCharged),
            5 => Ok(State::PendingCharge),
            6 => Ok(State::PendingDischarge),
            _ => Err(Error::InvalidState(value)),
        }
    }

    /// The human-readable name of this state, as shown in alert text.
    pub open spec fn spec_label(self) -> Seq<char> {
        match self {
            State::Unknown => "unknown"@,
            State::Charging => "charging"@,
            State::Discharging => "discharging"@,
            State::Empty => "empty"@,
            State::FullyCharged => "fully charged"@,
            State::PendingCharge => "pending charge"@,
            State::PendingDischarge => "pending discharge"@,
        }
    }

    /// Renders this state for alert text.
    pub fn label(&self) -> (r: &'static str)
        ensures
            r@ == self.spec_label(),
    {
        match self {
            State::Unknown => "unknown",
            State::Charging => "charging",
            State::Discharging => "discharging",
            State::Empty => "empty",
            State::FullyCharged => "fully charged",
            State::PendingCharge => "pending charge",
            State::PendingDischarge => "pending discharge",
        }
    }
}

} // verus!
