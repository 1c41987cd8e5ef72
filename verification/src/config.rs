//! Runtime configuration: the refresh interval and the low/critical
//! charge thresholds, with defaulting and validation.
//!
//! Thresholds are whole percentages. A threshold is in range when it
//! lies in `[5, 95]`, and a pair is consistent when `critical <= low`.
//! A configuration that violates either rule falls back to the default
//! pair rather than being accepted silently or rejecting startup.

use vstd::prelude::*;

use crate::Error;

verus! {

pub const DEFAULT_LOW: u8 = 15;

pub const DEFAULT_CRITICAL: u8 = 10;

pub const DEFAULT_REFRESH: u64 = 10;

pub fn default_low() -> (r: u8)
    ensures
        r == DEFAULT_LOW,
{
    DEFAULT_LOW
}

pub fn default_critical() -> (r: u8)
    ensures
        r == DEFAULT_CRITICAL,
{
    DEFAULT_CRITICAL
}

pub fn default_refresh() -> (r: u64)
    ensures
        r == DEFAULT_REFRESH,
{
    DEFAULT_REFRESH
}

/// A threshold pair is acceptable when both values lie in `[5, 95]`
/// and the critical threshold does not exceed the low one.
pub open spec fn thresholds_valid(low: u8, critical: u8) -> bool {
    5 <= low <= 95 && 5 <= critical <= 95 && critical <= low
}

/// User-facing configuration, as read from the configuration file.
pub struct Config {
    /// Bounded wait per event-loop iteration, in seconds.
    pub refresh: u64,
    /// Percentage below which a low-battery alert fires.
    pub low: u8,
    /// Percentage below which a critical-battery alert fires.
    pub critical: u8,
    /// Optional screen-locker command; unused by the core.
    pub locker: Option<String>,
}

impl Default for Config {
    fn default() -> (c: Config)
        ensures
            c.refresh == DEFAULT_REFRESH,
            c.low == DEFAULT_LOW,
            c.critical == DEFAULT_CRITICAL,
            c.locker is None,
    {
        Config { refresh: DEFAULT_REFRESH, low: DEFAULT_LOW, critical: DEFAULT_CRITICAL, locker: None }
    }
}

impl Config {
    /// Assembles a configuration from optional parsed fields, filling
    /// each absent field with its default.
    pub fn from_parts(
        refresh: Option<u64>,
        low: Option<u8>,
        critical: Option<u8>,
        locker: Option<String>,
    ) -> (c: Config)
        ensures
            c.refresh == (match refresh {
                Some(r) => r,
                None => DEFAULT_REFRESH,
            }),
            c.low == (match low {
                Some(l) => l,
                None => DEFAULT_LOW,
            }),
            c.critical == (match critical {
                Some(cr) => cr,
                None => DEFAULT_CRITICAL,
            }),
            c.locker == locker,
    {
        Config {
            refresh: match refresh {
                Some(r) => r,
                None => DEFAULT_REFRESH,
            },
            low: match low {
                Some(l) => l,
                None => DEFAULT_LOW,
            },
            critical: match critical {
                Some(cr) => cr,
                None => DEFAULT_CRITICAL,
            },
            locker,
        }
    }

    /// Checks the low threshold on its own: it must lie in `[5, 95]`
    /// and must not be below the configured critical threshold.
    pub fn validate_low(&self) -> (r: Result<u8, Error>)
        ensures
            r is Ok <==> 5 <= self.low <= 95 && self.critical <= self.low,
            r is Ok ==> r == Ok::<u8, Error>(self.low),
            !(5 <= self.low <= 95) ==> r == Err::<u8, Error>(Error::ThresholdOutOfRange(self.low)),
            5 <= self.low <= 95 && self.low < self.critical ==> r == Err::<u8, Error>(
                Error::ThresholdInconsistent(self.low, self.critical),
            ),
    {
        if self.low < 5 || self.low > 95 {
            Err(Error::ThresholdOutOfRange(self.low))
        } else if self.low < self.critical {
            Err(Error::ThresholdInconsistent(self.low, self.critical))
        } else {
            Ok(self.low)
        }
    }

    /// Checks the critical threshold on its own: it must lie in
    /// `[5, 95]` and must not exceed the configured low threshold.
    pub fn validate_critical(&self) -> (r: Result<u8, Error>)
        ensures
            r is Ok <==> 5 <= self.critical <= 95 && self.critical <= self.low,
            r is Ok ==> r == Ok::<u8, Error>(self.critical),
            !(5 <= self.critical <= 95) ==> r == Err::<u8, Error>(
                Error::ThresholdOutOfRange(self.critical),
            ),
            5 <= self.critical <= 95 && self.low < self.critical ==> r == Err::<u8, Error>(
                Error::ThresholdInconsistent(self.low, self.critical),
            ),
    {
        if self.critical < 5 || self.critical > 95 {
            Err(Error::ThresholdOutOfRange(self.critical))
        } else if self.critical > self.low {
            Err(Error::ThresholdInconsistent(self.low, self.critical))
        } else {
            Ok(self.critical)
        }
    }

    /// Enforces the threshold invariant in place: an acceptable pair is
    /// kept as supplied, any violating pair falls back to the default
    /// pair. Either way the result satisfies `critical <= low`.
    ///
    /// A caller that wants to report the correction can consult
    /// `validate_low` / `validate_critical` beforehand.
    pub fn validate(&mut self)
        ensures
            final (self).refresh == old(self).refresh,
            final (self).locker == old(self).locker,
            thresholds_valid(old(self).low, old(self).critical) ==> final (self).low == old(
                self,
            ).low && final (self).critical == old(self).critical,
            !thresholds_valid(old(self).low, old(self).critical) ==> final (self).low
                == DEFAULT_LOW && final (self).critical == DEFAULT_CRITICAL,
            thresholds_valid(final (self).low, final (self).critical),
    {
        let low_ok = self.validate_low().is_ok();
        let critical_ok = self.validate_critical().is_ok();
        if !(low_ok && critical_ok) {
            self.low = DEFAULT_LOW;
            self.critical = DEFAULT_CRITICAL;
        }
    }

    /// The effective threshold pair of a validated configuration.
    pub fn thresholds(&self) -> (t: Thresholds)
        requires
            thresholds_valid(self.low, self.critical),
        ensures
            t.low == self.low,
            t.critical == self.critical,
            t.wf(),
    {
        Thresholds { low: self.low, critical: self.critical }
    }
}

/// The validated threshold pair the alert policy works with.
#[derive(Clone, Copy, Debug, PartialEq, Eq, Structural)]
pub struct Thresholds {
    pub low: u8,
    pub critical: u8,
}

impl Thresholds {
    /// Both thresholds in range and `critical <= low`.
    pub open spec fn wf(self) -> bool {
        thresholds_valid(self.low, self.critical)
    }

    /// Builds a threshold pair, falling back to the defaults when the
    /// supplied pair is out of range or inconsistent. The second
    /// component reports whether a correction was applied, so that the
    /// caller can record a warning rather than accept it silently.
    pub fn new(low: u8, critical: u8) -> (r: (Thresholds, bool))
        ensures
            r.0.wf(),
            thresholds_valid(low, critical) ==> r.0.low == low && r.0.critical == critical && !r.1,
            !thresholds_valid(low, critical) ==> r.0.low == DEFAULT_LOW && r.0.critical
                == DEFAULT_CRITICAL && r.1,
    {
        if 5 <= low && low <= 95 && 5 <= critical && critical <= 95 && critical <= low {
            (Thresholds { low, critical }, false)
        } else {
            (Thresholds { low: DEFAULT_LOW, critical: DEFAULT_CRITICAL }, true)
        }
    }
}

} // verus!
