//! Battery monitoring core: tracks a primary battery and hot-pluggable
//! auxiliary batteries, decodes raw power-supply change events into
//! semantic alerts, and decides which notifications to raise and with
//! what urgency and content.
//!
//! The surrounding process supplies events (device added/removed,
//! property changed) as plain data and delivers the resulting
//! notifications; everything in this crate is pure bookkeeping and
//! decision logic.

use vstd::prelude::*;

pub mod alert;
pub mod config;
pub mod daemon;
pub mod interpret;
pub mod notify;
pub mod policy;
pub mod power;
pub mod registry;

verus! {

/// Errors raised by the monitoring core.
///
/// `PrimaryNotFound` is fatal at startup; the remaining variants are
/// recoverable: the update that caused them is skipped and the event
/// loop continues.
#[derive(Clone, Copy, Debug, PartialEq, Eq, Structural)]
pub enum Error {
    /// No enumerated device matched the designated primary battery.
    PrimaryNotFound,
    /// An added device id is already tracked.
    AlreadyTracked,
    /// The id of a removal or change event is not tracked.
    NotTracked,
    /// The primary battery can never be removed from the registry.
    CannotRemovePrimary,
    /// A charge-state code outside the decodable range.
    InvalidState(u32),
    /// A threshold value outside the accepted range.
    ThresholdOutOfRange(u8),
    /// A threshold pair with `critical` above `low`.
    ThresholdInconsistent(u8, u8),
}

} // verus!
