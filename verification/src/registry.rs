//! The battery registry: one primary battery plus an unordered set of
//! auxiliary batteries keyed by device identifier.
//!
//! Charge percentages are whole percent values in `[0, 100]`.
//! Comparing such a value against a whole-percent threshold `t` with
//! `<` agrees with comparing the underlying fractional reading against
//! `t`, since `x < t` holds exactly when `floor(x) < t` for integer
//! `t`, so nothing is lost by keeping the registry integral.

use vstd::prelude::*;

use crate::alert::AlertEvent;
use crate::power::State;
use crate::Error;

verus! {

/// Stable identifier of one power-supply device, assigned by the
/// power subsystem (an object path). Compared by its text.
#[derive(Debug)]
pub struct BatteryId {
    path: String,
}

impl View for BatteryId {
    type V = Seq<char>;

    closed spec fn view(&self) -> Seq<char> {
        self.path@
    }
}

impl BatteryId {
    pub fn new(path: String) -> (r: BatteryId)
        ensures
            r@ == path@,
    {
        BatteryId { path }
    }
}

impl Clone for BatteryId {
    fn clone(&self) -> (r: BatteryId)
        ensures
            r == *self,
    {
        BatteryId { path: self.path.clone() }
    }
}

impl PartialEq for BatteryId {
    fn eq(&self, other: &BatteryId) -> (r: bool) {
        self.path == other.path
    }
}

impl vstd::std_specs::cmp::PartialEqSpecImpl for BatteryId {
    open spec fn obeys_eq_spec() -> bool {
        true
    }

    open spec fn eq_spec(&self, other: &BatteryId) -> bool {
        self@ == other@
    }
}

/// Whether a battery is the designated primary or a hot-pluggable
/// auxiliary. Exactly one battery holds `Primary` for the lifetime of
/// the registry.
#[derive(Clone, Copy, Debug, PartialEq, Eq, Structural)]
pub enum Role {
    Primary,
    Auxiliary,
}

/// Last-observed facts about one tracked battery.
#[derive(Debug)]
pub struct Battery {
    pub id: BatteryId,
    pub role: Role,
    pub vendor: String,
    /// Whole charge percent, in `[0, 100]`.
    pub percentage: u8,
    pub state: State,
}

impl Battery {
    pub open spec fn wf(self) -> bool {
        self.percentage <= 100
    }
}

impl Clone for Battery {
    fn clone(&self) -> (r: Battery)
        ensures
            r == *self,
    {
        Battery {
            id: self.id.clone(),
            role: self.role,
            vendor: self.vendor.clone(),
            percentage: self.percentage,
            state: self.state,
        }
    }
}

/// One enumerated power-supply device, as handed in at startup.
#[derive(Debug)]
pub struct DeviceInfo {
    pub id: BatteryId,
    pub vendor: String,
    /// Whole charge percent, in `[0, 100]`.
    pub percentage: u8,
    pub state: State,
}

impl Clone for DeviceInfo {
    fn clone(&self) -> (r: DeviceInfo)
        ensures
            r == *self,
    {
        DeviceInfo {
            id: self.id.clone(),
            vendor: self.vendor.clone(),
            percentage: self.percentage,
            state: self.state,
        }
    }
}

/// The battery a device enumerates or registers as.
pub open spec fn battery_of(d: DeviceInfo, role: Role) -> Battery {
    Battery { id: d.id, role, vendor: d.vendor, percentage: d.percentage, state: d.state }
}

/// No two enumerated devices share an identifier.
pub open spec fn distinct_device_ids(devices: Seq<DeviceInfo>) -> bool {
    forall|i: int, j: int|
        0 <= i < j < devices.len() ==> devices[i].id@ != devices[j].id@
}

/// Whether some enumerated device carries the primary designation.
/// Startup succeeds exactly when this holds of the enumeration.
pub open spec fn has_primary(devices: Seq<DeviceInfo>, primary: Seq<char>) -> bool {
    exists|i: int| 0 <= i < devices.len() && (#[trigger] devices[i]).id@ == primary
}

/// A device that belongs among the auxiliaries: neither the primary
/// battery nor the line-power pseudo-device.
pub open spec fn is_aux_device(d: DeviceInfo, primary: Seq<char>, line: Seq<char>) -> bool {
    d.id@ != primary && d.id@ != line
}

/// The auxiliary batteries that enumeration yields, in enumeration
/// order: every device except the primary match and line power.
pub open spec fn aux_seq(devices: Seq<DeviceInfo>, primary: Seq<char>, line: Seq<char>) -> Seq<
    Battery,
>
    decreases devices.len(),
{
    if devices.len() == 0 {
        Seq::empty()
    } else {
        let pre = aux_seq(devices.drop_last(), primary, line);
        if is_aux_device(devices.last(), primary, line) {
            pre.push(battery_of(devices.last(), Role::Auxiliary))
        } else {
            pre
        }
    }
}

/// Every auxiliary that enumeration yields comes from some enumerated
/// device, carries the `Auxiliary` role, and keeps the device ids
/// pairwise distinct.
proof fn lemma_aux_seq_wf(devices: Seq<DeviceInfo>, primary: Seq<char>, line: Seq<char>)
    requires
        distinct_device_ids(devices),
    ensures
        forall|j: int|
            0 <= j < aux_seq(devices, primary, line).len() ==> exists|i: int|
                0 <= i < devices.len() && #[trigger] aux_seq(devices, primary, line)[j]
                    == battery_of(devices[i], Role::Auxiliary) && is_aux_device(
                    devices[i],
                    primary,
                    line,
                ),
        forall|j: int, k: int|
            0 <= j < k < aux_seq(devices, primary, line).len() ==> aux_seq(
                devices,
                primary,
                line,
            )[j].id@ != aux_seq(devices, primary, line)[k].id@,
    decreases devices.len(),
{
    if devices.len() > 0 {
        let pre_devices = devices.drop_last();
        assert(distinct_device_ids(pre_devices)) by {
            assert(forall|i: int, j: int|
                0 <= i < j < pre_devices.len() ==> pre_devices[i].id@ != pre_devices[j].id@);
        }
        lemma_aux_seq_wf(pre_devices, primary, line);
        let pre = aux_seq(pre_devices, primary, line);
        if is_aux_device(devices.last(), primary, line) {
            let full = aux_seq(devices, primary, line);
            assert(full == pre.push(battery_of(devices.last(), Role::Auxiliary)));
            assert forall|j: int, k: int|
                0 <= j < k < full.len() implies full[j].id@ != full[k].id@ by {
                if k < pre.len() {
                    assert(full[j] == pre[j] && full[k] == pre[k]);
                } else {
                    assert(full[k] == battery_of(devices.last(), Role::Auxiliary));
                    assert(full[j] == pre[j]);
                    let i = choose|i: int|
                        0 <= i < pre_devices.len() && #[trigger] pre[j] == battery_of(
                            pre_devices[i],
                            Role::Auxiliary,
                        ) && is_aux_device(pre_devices[i], primary, line);
                    assert(pre_devices[i] == devices[i]);
                    assert(devices[i].id@ != devices[devices.len() - 1].id@);
                }
            }
        }
    }
}

/// The registry: the primary battery plus the tracked auxiliaries.
/// Auxiliary order carries no meaning.
#[derive(Debug)]
pub struct BatterySet {
    pub primary: Battery,
    pub auxiliaries: Vec<Battery>,
}

impl BatterySet {
    /// Registry invariant: the primary holds the `Primary` role, every
    /// auxiliary holds the `Auxiliary` role and an id distinct from
    /// the primary's and from every other auxiliary's, and all
    /// percentages are genuine percent values.
    pub open spec fn wf(self) -> bool {
        &&& self.primary.role == Role::Primary
        &&& self.primary.wf()
        &&& forall|i: int|
            0 <= i < self.auxiliaries@.len() ==> {
                &&& (#[trigger] self.auxiliaries@[i]).role == Role::Auxiliary
                &&& self.auxiliaries@[i].wf()
                &&& self.auxiliaries@[i].id@ != self.primary.id@
            }
        &&& forall|i: int, j: int|
            0 <= i < j < self.auxiliaries@.len() ==> self.auxiliaries@[i].id@
                != self.auxiliaries@[j].id@
    }

    /// Whether some tracked battery (primary or auxiliary) carries the
    /// given identifier.
    pub open spec fn spec_tracks(self, id: Seq<char>) -> bool {
        self.primary.id@ == id || exists|i: int|
            0 <= i < self.auxiliaries@.len() && (#[trigger] self.auxiliaries@[i]).id@ == id
    }

    /// How many auxiliary batteries are tracked.
    pub fn aux_count(&self) -> (n: usize)
        ensures
            n == self.auxiliaries@.len(),
    {
        self.auxiliaries.len()
    }

    /// The position of the auxiliary with the given id, if tracked.
    fn find_aux(&self, id: &BatteryId) -> (r: Option<usize>)
        ensures
            match r {
                Some(i) => i < self.auxiliaries@.len() && self.auxiliaries@[i as int].id@ == id@,
                None => forall|i: int|
                    0 <= i < self.auxiliaries@.len() ==> (#[trigger] self.auxiliaries@[i]).id@
                        != id@,
            },
    {
        let n = self.auxiliaries.len();
        let mut i: usize = 0;
        while i < n
            invariant
                n == self.auxiliaries@.len(),
                i <= n,
                forall|j: int|
                    0 <= j < i ==> (#[trigger] self.auxiliaries@[j]).id@ != id@,
            decreases n - i,
        {
            if self.auxiliaries[i].id == *id {
                return Some(i);
            }
            i = i + 1;
        }
        None
    }

    /// Whether the given id is tracked at all.
    pub fn contains(&self, id: &BatteryId) -> (r: bool)
        ensures
            r == self.spec_tracks(id@),
    {
        if self.primary.id == *id {
            true
        } else {
            self.find_aux(id).is_some()
        }
    }

    /// Partitions the enumerated devices into the primary battery and
    /// the auxiliaries, excluding the line-power pseudo-device. Fails
    /// with `PrimaryNotFound` when no device matches the primary
    /// designation; that failure is fatal to startup.
    pub fn initialize(
        devices: Vec<DeviceInfo>,
        primary_id: &BatteryId,
        line_power_id: &BatteryId,
    ) -> (r: Result<BatterySet, Error>)
        requires
            primary_id@ != line_power_id@,
            distinct_device_ids(devices@),
            forall|i: int| 0 <= i < devices@.len() ==> (#[trigger] devices@[i]).percentage <= 100,
        ensures
            r is Ok <==> has_primary(devices@, primary_id@),
            !has_primary(devices@, primary_id@) ==> r == Err::<BatterySet, Error>(
                Error::PrimaryNotFound,
            ),
            r matches Ok(s) ==> {
                &&& s.wf()
                &&& exists|i: int|
                    0 <= i < devices@.len() && (#[trigger] devices@[i]).id@ == primary_id@
                        && s.primary == battery_of(devices@[i], Role::Primary)
                &&& s.auxiliaries@ == aux_seq(devices@, primary_id@, line_power_id@)
            },
    {
        let n = devices.len();
        let mut primary: Option<Battery> = None;
        let mut k: usize = 0;
        while k < n
            invariant
                n == devices@.len(),
                k <= n,
                match primary {
                    Some(b) => exists|i: int|
                        0 <= i < devices@.len() && (#[trigger] devices@[i]).id@ == primary_id@ && b
                            == battery_of(devices@[i], Role::Primary),
                    None => forall|i: int|
                        0 <= i < k ==> (#[trigger] devices@[i]).id@ != primary_id@,
                },
            decreases n - k,
        {
            if primary.is_none() && devices[k].id == *primary_id {
                let d = devices[k].clone();
                primary = Some(
                    Battery {
                        id: d.id,
                        role: Role::Primary,
                        vendor: d.vendor,
                        percentage: d.percentage,
                        state: d.state,
                    },
                );
            }
            k = k + 1;
        }
        let primary = match primary {
            Some(b) => b,
            None => {
                return Err(Error::PrimaryNotFound);
            },
        };
        let mut auxiliaries: Vec<Battery> = Vec::new();
        let mut k: usize = 0;
        while k < n
            invariant
                n == devices@.len(),
                k <= n,
                auxiliaries@ == aux_seq(devices@.take(k as int), primary_id@, line_power_id@),
            decreases n - k,
        {
            let ghost prefix = devices@.take(k as int);
            let ghost next = devices@.take(k + 1int);
            proof {
                assert(next.drop_last() =~= prefix);
                assert(next.last() == devices@[k as int]);
            }
            if !(devices[k].id == *primary_id) && !(devices[k].id == *line_power_id) {
                let d = devices[k].clone();
                auxiliaries.push(
                    Battery {
                        id: d.id,
                        role: Role::Auxiliary,
                        vendor: d.vendor,
                        percentage: d.percentage,
                        state: d.state,
                    },
                );
            }
            k = k + 1;
        }
        proof {
            assert(devices@.take(n as int) =~= devices@);
            lemma_aux_seq_wf(devices@, primary_id@, line_power_id@);
        }
        let set = BatterySet { primary, auxiliaries };
        Ok(set)
    }

    /// Tracks a newly connected auxiliary battery and announces it.
    /// An id that is already tracked (the primary's included) is
    /// rejected with `AlreadyTracked` and leaves the registry
    /// unchanged; otherwise the registry grows by exactly that one
    /// auxiliary and exactly one `Connected` alert results.
    pub fn add(&mut self, id: BatteryId, vendor: String, percentage: u8) -> (r: Result<
        AlertEvent,
        Error,
    >)
        requires
            old(self).wf(),
            percentage <= 100,
        ensures
            final (self).wf(),
            r is Ok <==> !old(self).spec_tracks(id@),
            old(self).spec_tracks(id@) ==> r == Err::<AlertEvent, Error>(Error::AlreadyTracked)
                && *final (self) == *old(self),
            !old(self).spec_tracks(id@) ==> {
                &&& r == Ok::<AlertEvent, Error>(AlertEvent::Connected { vendor, percentage })
                &&& final (self).primary == old(self).primary
                &&& final (self).auxiliaries@ == old(self).auxiliaries@.push(
                    (Battery {
                        id,
                        role: Role::Auxiliary,
                        vendor,
                        percentage,
                        state: State::Unknown,
                    }),
                )
                &&& final (self).spec_tracks(id@)
            },
    {
        if self.contains(&id) {
            return Err(Error::AlreadyTracked);
        }
        let alert = AlertEvent::Connected { vendor: vendor.clone(), percentage };
        self.auxiliaries.push(
            Battery { id, role: Role::Auxiliary, vendor, percentage, state: State::Unknown },
        );
        proof {
            assert((self.auxiliaries@[self.auxiliaries@.len() - 1]).id@ == id@);
        }
        Ok(alert)
    }

    /// Untracks a disconnected auxiliary battery, announcing it and
    /// returning the removed entry. Removing the primary always fails
    /// with `CannotRemovePrimary`, an unknown id with `NotTracked`;
    /// both leave the registry unchanged. On success the registry
    /// shrinks by exactly that one auxiliary and exactly one
    /// `Disconnected` alert results.
    pub fn remove(&mut self, id: &BatteryId) -> (r: Result<(AlertEvent, Battery), Error>)
        requires
            old(self).wf(),
        ensures
            final (self).wf(),
            final (self).primary == old(self).primary,
            id@ == old(self).primary.id@ ==> r == Err::<(AlertEvent, Battery), Error>(
                Error::CannotRemovePrimary,
            ) && *final (self) == *old(self),
            id@ != old(self).primary.id@ && !old(self).spec_tracks(id@) ==> r == Err::<
                (AlertEvent, Battery),
                Error,
            >(Error::NotTracked) && *final (self) == *old(self),
            id@ != old(self).primary.id@ && old(self).spec_tracks(id@) ==> exists|i: int|
                {
                    &&& 0 <= i < old(self).auxiliaries@.len()
                    &&& (#[trigger] old(self).auxiliaries@[i]).id@ == id@
                    &&& r == Ok::<(AlertEvent, Battery), Error>(
                        (
                            AlertEvent::Disconnected { vendor: old(self).auxiliaries@[i].vendor },
                            old(self).auxiliaries@[i],
                        ),
                    )
                    &&& final (self).auxiliaries@ == old(self).auxiliaries@.remove(i)
                    &&& forall|j: int|
                        0 <= j < final (self).auxiliaries@.len()
                            ==> (#[trigger] final (self).auxiliaries@[j]).id@ != id@
                },
    {
        if self.primary.id == *id {
            return Err(Error::CannotRemovePrimary);
        }
        match self.find_aux(id) {
            None => Err(Error::NotTracked),
            Some(i) => {
                proof {
                    old(self).auxiliaries@.remove_ensures(i as int);
                }
                let removed = self.auxiliaries.remove(i);
                let alert = AlertEvent::Disconnected { vendor: removed.vendor.clone() };
                Ok((alert, removed))
            },
        }
    }

    /// The battery after a property-change event lands on it: each
    /// supplied property replaces the last-observed one, each absent
    /// property is kept.
    pub open spec fn updated_battery(
        b: Battery,
        new_state: Option<State>,
        new_percentage: Option<u8>,
    ) -> Battery {
        Battery {
            state: match new_state {
                Some(s) => s,
                None => b.state,
            },
            percentage: match new_percentage {
                Some(p) => p,
                None => b.percentage,
            },
            ..b
        }
    }

    /// Applies a property-change event in place and returns the
    /// post-update battery together with its prior charge state, for
    /// the interpreter to reason about. An id that is not tracked
    /// (which can happen when a change event races a removal) is
    /// reported as `NotTracked`, not treated as fatal, and changes
    /// nothing.
    pub fn apply_property_change(
        &mut self,
        id: &BatteryId,
        new_state: Option<State>,
        new_percentage: Option<u8>,
    ) -> (r: Result<(Battery, State), Error>)
        requires
            old(self).wf(),
            new_percentage matches Some(p) ==> p <= 100,
        ensures
            final (self).wf(),
            r is Ok <==> old(self).spec_tracks(id@),
            !old(self).spec_tracks(id@) ==> r == Err::<(Battery, State), Error>(Error::NotTracked)
                && *final (self) == *old(self),
            id@ == old(self).primary.id@ ==> {
                &&& final (self).primary == Self::updated_battery(
                    old(self).primary,
                    new_state,
                    new_percentage,
                )
                &&& final (self).auxiliaries@ == old(self).auxiliaries@
                &&& r == Ok::<(Battery, State), Error>(
                    (final (self).primary, old(self).primary.state),
                )
            },
            id@ != old(self).primary.id@ && old(self).spec_tracks(id@) ==> exists|i: int|
                {
                    &&& 0 <= i < old(self).auxiliaries@.len()
                    &&& (#[trigger] old(self).auxiliaries@[i]).id@ == id@
                    &&& final (self).primary == old(self).primary
                    &&& final (self).auxiliaries@ == old(self).auxiliaries@.update(
                        i,
                        Self::updated_battery(
                            old(self).auxiliaries@[i],
                            new_state,
                            new_percentage,
                        ),
                    )
                    &&& r == Ok::<(Battery, State), Error>(
                        (final (self).auxiliaries@[i], old(self).auxiliaries@[i].state),
                    )
                },
    {
        if self.primary.id == *id {
            let prior = self.primary.state;
            if let Some(s) = new_state {
                self.primary.state = s;
            }
            if let Some(p) = new_percentage {
                self.primary.percentage = p;
            }
            Ok((self.primary.clone(), prior))
        } else {
            match self.find_aux(id) {
                None => Err(Error::NotTracked),
                Some(i) => {
                    let prior = self.auxiliaries[i].state;
                    if let Some(s) = new_state {
                        self.auxiliaries[i].state = s;
                    }
                    if let Some(p) = new_percentage {
                        self.auxiliaries[i].percentage = p;
                    }
                    Ok((self.auxiliaries[i].clone(), prior))
                },
            }
        }
    }
}

} // verus!
