//! Energy consumption measurement: baselines, the store of measurement
//! campaigns and the deltas measured against a baseline
use std::collections::HashMap;

use nvml_wrapper::error::NvmlError;
use nvml_wrapper::{Device, Nvml};

use vstd::prelude::*;
use vstd::std_specs::hash::into_iter_keys;
use vstd::std_specs::iter::IteratorSpec;

use crate::telemetry;
use crate::util::Nanos;

verus! {

broadcast use vstd::std_specs::hash::group_hash_axioms;

/// The telemetry query that failed
#[derive(Clone, Copy, Debug, PartialEq, Eq, Structural)]
pub enum Operation {
    /// Counting the devices
    DeviceCount,
    /// Retrieving the device with the given index
    Device(u32),
    /// Determining the index of a device
    DeviceIndex,
    /// Reading the total energy consumption of the device with the given index
    TotalEnergy(u32),
    /// Reading the name of the device with the given index
    DeviceName(u32),
    /// Reading the version of the graphics driver
    DriverVersion,
    /// Reading the version of the NVML library
    NvmlVersion,
}

/// Errors of measurements and of the campaign store
#[derive(Debug)]
pub enum Error {
    /// A telemetry query failed
    Telemetry { operation: Operation, source: NvmlError },
    /// The identifier that is due next still belongs to a live campaign
    IdTaken(BMId),
}

impl Error {
    /// Whether this is the failure of the given telemetry query
    pub open spec fn is_telemetry(self, op: Operation) -> bool {
        self matches Error::Telemetry { operation, .. } && operation == op
    }

    /// Whether this is the failure to read the device with the given index
    pub open spec fn is_device_read(self, index: u32) -> bool {
        self.is_telemetry(Operation::Device(index)) || self.is_telemetry(
            Operation::TotalEnergy(index),
        )
    }
}

/// Energy consumed since a baseline reading, clamped at zero where the
/// counter went backwards (a reset of the device's counter)
pub open spec fn energy_delta(baseline: u64, current: u64) -> u64 {
    if current >= baseline {
        (current - baseline) as u64
    } else {
        0
    }
}

/// Time passed from `start` to `now`, zero where `now` lies before `start`
pub open spec fn elapsed(start: Nanos, now: Nanos) -> Nanos {
    if now >= start {
        (now - start) as Nanos
    } else {
        0
    }
}

/// Data associated with a specific device
#[derive(Clone, Copy, Debug, PartialEq, Eq, Structural)]
pub struct DeviceData {
    /// Index of the device
    pub id: u32,
    /// Energy consumption of the device in `mJ`
    pub energy: u64,
}

impl DeviceData {
    /// The data relative to this total, given the device's current total
    pub open spec fn relative_spec(self, current: u64) -> DeviceData {
        DeviceData { id: self.id, energy: energy_delta(self.energy, current) }
    }

    /// Create a new total device data for the current time instant
    pub fn new_total(device: Device) -> (r: Result<Self, Error>)
        ensures
            r is Err ==> r->Err_0.is_telemetry(Operation::DeviceIndex) || (r->Err_0 matches
                Error::Telemetry { operation: Operation::TotalEnergy(_), .. }),
    {
        let id = match telemetry::device_index(&device) {
            Ok(id) => id,
            Err(source) => {
                return Err(Error::Telemetry { operation: Operation::DeviceIndex, source });
            },
        };
        let energy = match telemetry::total_energy_consumption(&device) {
            Ok(energy) => energy,
            Err(source) => {
                return Err(Error::Telemetry { operation: Operation::TotalEnergy(id), source });
            },
        };
        Ok(DeviceData { id, energy })
    }

    /// Compute the relative device data from this total, given the current
    /// total of the same device
    pub fn relative_to(self, current: u64) -> (r: Self)
        ensures
            r == self.relative_spec(current),
            current < self.energy ==> r.energy == 0,
    {
        DeviceData { id: self.id, energy: current.saturating_sub(self.energy) }
    }

    /// Compute new relative device data from total device data, reading the
    /// device's current total
    pub fn relative(self, nvml: &Nvml) -> (r: Result<Self, Error>)
        ensures
            r is Ok ==> exists|current: u64| r->Ok_0 == self.relative_spec(current),
            r is Err ==> r->Err_0.is_telemetry(Operation::Device(self.id))
                || r->Err_0.is_telemetry(Operation::TotalEnergy(self.id)),
    {
        let current = match read_total_energy(nvml, self.id) {
            Ok(current) => current,
            Err(e) => {
                return Err(e);
            },
        };
        Ok(self.relative_to(current))
    }
}

/// Read the total energy consumption of the device with the given index
fn read_total_energy(nvml: &Nvml, id: u32) -> (r: Result<u64, Error>)
    ensures
        r is Err ==> r->Err_0.is_telemetry(Operation::Device(id)) || r->Err_0.is_telemetry(
            Operation::TotalEnergy(id),
        ),
{
    let device = match telemetry::device_by_index(nvml, id) {
        Ok(device) => device,
        Err(source) => {
            return Err(Error::Telemetry { operation: Operation::Device(id), source });
        },
    };
    match telemetry::total_energy_consumption(&device) {
        Ok(energy) => Ok(energy),
        Err(source) => Err(Error::Telemetry { operation: Operation::TotalEnergy(id), source }),
    }
}

/// Identifier for [BaseMeasurement] in a [BaseMeasurements]
pub type BMId = u32;

/// What a [BaseMeasurement] holds
pub struct BaseMeasurementView {
    /// When the baseline was taken
    pub time: Nanos,
    /// Total energy consumption of each device at that time
    pub devices: Seq<DeviceData>,
}

/// What a [Measurement] holds
pub struct MeasurementView {
    /// Time passed since the baseline
    pub duration: Nanos,
    /// Energy consumed by each device since the baseline
    pub devices: Seq<DeviceData>,
}

/// The measurement against a baseline taken at `time` with the totals
/// `devices`, at `now`, where `current` holds the devices' current totals
pub open spec fn delta_spec(
    time: Nanos,
    devices: Seq<DeviceData>,
    now: Nanos,
    current: Seq<u64>,
) -> MeasurementView {
    MeasurementView {
        duration: elapsed(time, now),
        devices: Seq::new(devices.len(), |i: int| devices[i].relative_spec(current[i])),
    }
}

/// A base measurement across multiple devices
#[derive(Debug)]
pub struct BaseMeasurement {
    time: Nanos,
    devices: Vec<DeviceData>,
}

impl View for BaseMeasurement {
    type V = BaseMeasurementView;

    closed spec fn view(&self) -> BaseMeasurementView {
        BaseMeasurementView { time: self.time, devices: self.devices@ }
    }
}

impl BaseMeasurement {
    /// The measurement against this base at `now`, where `current` holds
    /// the devices' current totals
    pub open spec fn delta(self, now: Nanos, current: Seq<u64>) -> MeasurementView {
        delta_spec(self@.time, self@.devices, now, current)
    }

    /// Whether the devices are listed by their index, from zero on
    pub open spec fn indexed_in_order(self) -> bool {
        forall|i: int| 0 <= i < self@.devices.len() ==> #[trigger] self@.devices[i].id == i
    }

    /// Create a base measurement from totals read at the given time
    pub fn from_totals(time: Nanos, devices: Vec<DeviceData>) -> (r: Self)
        ensures
            r@.time == time,
            r@.devices == devices@,
    {
        BaseMeasurement { time, devices }
    }

    /// Create a new base measurement of every device, taken at `now`
    pub fn new(nvml: &Nvml, now: Nanos) -> (r: Result<Self, Error>)
        ensures
            r is Ok ==> r->Ok_0@.time == now && r->Ok_0.indexed_in_order(),
            r is Err ==> r->Err_0.is_telemetry(Operation::DeviceCount) || exists|i: u32|
                #[trigger] r->Err_0.is_device_read(i),
    {
        let device_count = match telemetry::device_count(nvml) {
            Ok(n) => n,
            Err(source) => {
                return Err(Error::Telemetry { operation: Operation::DeviceCount, source });
            },
        };
        BaseMeasurement::read_devices(nvml, device_count, now)
    }

    /// Create a base measurement of the devices with the indices below
    /// `count`, taken at `now`: one reading per device, in index order
    pub fn read_devices(nvml: &Nvml, count: u32, now: Nanos) -> (r: Result<Self, Error>)
        ensures
            r is Ok ==> {
                &&& r->Ok_0@.time == now
                &&& r->Ok_0@.devices.len() == count
                &&& r->Ok_0.indexed_in_order()
            },
            r is Err ==> exists|i: u32| i < count && #[trigger] r->Err_0.is_device_read(i),
    {
        let mut devices: Vec<DeviceData> = Vec::new();
        for i in 0..count
            invariant
                devices.len() == i,
                forall|j: int| 0 <= j < i ==> #[trigger] devices@[j].id == j,
        {
            let energy = match read_total_energy(nvml, i) {
                Ok(energy) => energy,
                Err(e) => {
                    let r = Err(e);
                    assert(r->Err_0.is_device_read(i));
                    return r;
                },
            };
            devices.push(DeviceData { id: i, energy });
        }
        Ok(BaseMeasurement { time: now, devices })
    }

    /// When this base was taken
    pub fn time(&self) -> (r: Nanos)
        ensures
            r == self@.time,
    {
        self.time
    }

    /// The total energy consumption of each device when this base was taken
    pub fn devices(&self) -> (r: &Vec<DeviceData>)
        ensures
            r@ == self@.devices,
    {
        &self.devices
    }

    /// The measurement relative to this base at `now`, given the current
    /// total of each of its devices, in the same order
    pub fn measurement_from(&self, now: Nanos, current: &Vec<u64>) -> (r: Measurement)
        requires
            current.len() == self@.devices.len(),
        ensures
            r@ == self.delta(now, current@),
    {
        let mut devices: Vec<DeviceData> = Vec::new();
        for i in 0..self.devices.len()
            invariant
                current.len() == self.devices.len(),
                devices.len() == i,
                forall|j: int| 0 <= j < i ==> #[trigger] devices@[j] == self.devices@[j].relative_spec(current@[j]),
        {
            devices.push(self.devices[i].relative_to(current[i]));
        }
        let duration = now.saturating_sub(self.time);
        let r = Measurement { duration, devices };
        assert(r@.devices =~= self.delta(now, current@).devices);
        r
    }

    /// Create a new [Measurement] relative to this base at `now`, reading
    /// every device of the base again
    pub fn measurement(&self, nvml: &Nvml, now: Nanos) -> (r: Result<Measurement, Error>)
        ensures
            r is Ok ==> exists|current: Seq<u64>|
                current.len() == self@.devices.len() && r->Ok_0@ == #[trigger] self.delta(now, current),
            r is Err ==> exists|i: int|
                0 <= i < self@.devices.len() && (r->Err_0.is_telemetry(
                    Operation::Device(#[trigger] self@.devices[i].id),
                ) || r->Err_0.is_telemetry(Operation::TotalEnergy(self@.devices[i].id))),
    {
        let mut current: Vec<u64> = Vec::new();
        for i in 0..self.devices.len()
            invariant
                current.len() == i,
        {
            let id = self.devices[i].id;
            match read_total_energy(nvml, id) {
                Ok(energy) => current.push(energy),
                Err(e) => {
                    assert(self@.devices[i as int].id == id);
                    return Err(e);
                },
            }
        }
        Ok(self.measurement_from(now, &current))
    }
}

/// A measurement across multiple devices
#[derive(Debug)]
pub struct Measurement {
    /// Time passed since the start of a campaign
    duration: Nanos,
    /// Device data at the specific point in time
    devices: Vec<DeviceData>,
}

impl View for Measurement {
    type V = MeasurementView;

    closed spec fn view(&self) -> MeasurementView {
        MeasurementView { duration: self.duration, devices: self.devices@ }
    }
}

impl Measurement {
    /// Time passed since the start of the campaign, in nanoseconds
    pub fn duration(&self) -> (r: Nanos)
        ensures
            r == self@.duration,
    {
        self.duration
    }

    /// Energy consumed by each device since the start of the campaign
    pub fn devices(&self) -> (r: &Vec<DeviceData>)
        ensures
            r@ == self@.devices,
    {
        &self.devices
    }
}

} // verus!

verus! {

/// What a [BaseMeasurements] holds
pub struct StoreView {
    /// The identifier that the next campaign gets
    pub next_id: BMId,
    /// The live campaigns
    pub campaigns: Map<BMId, BaseMeasurement>,
}

/// The identifier that follows `id`, wrapping from `u32::MAX` to zero
pub open spec fn id_after(id: BMId) -> BMId {
    ((id + 1) % 0x1_0000_0000) as BMId
}

/// The store after a base was filed under the identifier that was due
pub open spec fn filed(s: StoreView, base: BaseMeasurement) -> StoreView {
    StoreView { next_id: id_after(s.next_id), campaigns: s.campaigns.insert(s.next_id, base) }
}

/// The campaigns of `m` that were taken at `cutoff` or later
pub open spec fn taken_since(
    m: Map<BMId, BaseMeasurement>,
    cutoff: Nanos,
) -> Map<BMId, BaseMeasurement> {
    m.restrict(m.dom().filter(|id: BMId| m[id]@.time >= cutoff))
}

/// Store for measurement campaigns
#[derive(Debug)]
pub struct BaseMeasurements {
    next_id: BMId,
    campaigns: HashMap<BMId, BaseMeasurement>,
}

impl View for BaseMeasurements {
    type V = StoreView;

    closed spec fn view(&self) -> StoreView {
        StoreView { next_id: self.next_id, campaigns: self.campaigns@ }
    }
}

impl Default for BaseMeasurements {
    fn default() -> (r: Self)
        ensures
            r@.next_id == 0,
            r@.campaigns == Map::<BMId, BaseMeasurement>::empty(),
    {
        BaseMeasurements::new()
    }
}

impl BaseMeasurements {
    /// Create an empty store, whose first campaign gets the identifier zero
    pub fn new() -> (r: Self)
        ensures
            r@.next_id == 0,
            r@.campaigns == Map::<BMId, BaseMeasurement>::empty(),
    {
        BaseMeasurements { next_id: 0, campaigns: HashMap::new() }
    }

    /// This store, with identifiers issued from `next_id` on
    pub fn with_next_id(self, next_id: BMId) -> (r: Self)
        ensures
            r@.next_id == next_id,
            r@.campaigns == self@.campaigns,
    {
        BaseMeasurements { next_id, campaigns: self.campaigns }
    }

    /// The identifier that the next campaign gets
    pub fn next_id(&self) -> (r: BMId)
        ensures
            r == self@.next_id,
    {
        self.next_id
    }

    /// File the given base as a new campaign under the identifier that is
    /// due, and return that identifier
    pub fn insert(&mut self, base: BaseMeasurement) -> (r: Result<BMId, Error>)
        ensures
            old(self)@.campaigns.contains_key(old(self)@.next_id) ==> {
                &&& r matches Err(Error::IdTaken(id)) && id == old(self)@.next_id
                &&& final(self)@ == old(self)@
            },
            !old(self)@.campaigns.contains_key(old(self)@.next_id) ==> {
                &&& r == Ok::<BMId, Error>(old(self)@.next_id)
                &&& final(self)@ == filed(old(self)@, base)
            },
    {
        let id = self.next_id;
        if self.campaigns.contains_key(&id) {
            return Err(Error::IdTaken(id));
        }
        self.campaigns.insert(id, base);
        // Identifiers are chosen by simple incrementation. Thus, one can
        // easily guess the identifiers of past campaigns after creating one.
        self.next_id = id.wrapping_add(1);
        Ok(id)
    }

    /// Create a new campaign: take a base measurement of every device at
    /// `now` and file it under the identifier that is due
    pub fn create(&mut self, nvml: &Nvml, now: Nanos) -> (r: Result<BMId, Error>)
        ensures
            old(self)@.campaigns.contains_key(old(self)@.next_id) ==> (r matches Err(
                Error::IdTaken(id),
            ) && id == old(self)@.next_id),
            r matches Err(Error::IdTaken(_)) ==> old(self)@.campaigns.contains_key(
                old(self)@.next_id,
            ),
            r is Err ==> final(self)@ == old(self)@,
            r is Ok ==> {
                &&& r->Ok_0 == old(self)@.next_id
                &&& !old(self)@.campaigns.contains_key(old(self)@.next_id)
                &&& final(self)@ == filed(old(self)@, final(self)@.campaigns[r->Ok_0])
                &&& final(self)@.campaigns[r->Ok_0]@.time == now
                &&& final(self)@.campaigns[r->Ok_0].indexed_in_order()
            },
    {
        if self.campaigns.contains_key(&self.next_id) {
            return Err(Error::IdTaken(self.next_id));
        }
        match BaseMeasurement::new(nvml, now) {
            Ok(base) => self.insert(base),
            Err(e) => Err(e),
        }
    }

    /// Delete the [BaseMeasurement] with the given id
    pub fn delete(&mut self, id: BMId) -> (r: Option<BaseMeasurement>)
        ensures
            final(self)@.next_id == old(self)@.next_id,
            final(self)@.campaigns == old(self)@.campaigns.remove(id),
            final(self)@.campaigns.dom().finite(),
            old(self)@.campaigns.contains_key(id) ==> r == Some(old(self)@.campaigns[id]),
            !old(self)@.campaigns.contains_key(id) ==> r is None,
    {
        self.campaigns.remove(&id)
    }

    /// Retrieve the [BaseMeasurement] with the given id
    pub fn get(&self, id: BMId) -> (r: Option<&BaseMeasurement>)
        ensures
            self@.campaigns.contains_key(id) ==> r == Some(&self@.campaigns[id]),
            !self@.campaigns.contains_key(id) ==> r is None,
    {
        self.campaigns.get(&id)
    }

    /// Measure the campaign with the given id at `now`, reading its devices
    /// again while the store is borrowed, so that the campaign cannot be
    /// deleted meanwhile; `None` if there is no such campaign
    pub fn measure(&self, id: BMId, nvml: &Nvml, now: Nanos) -> (r: Option<
        Result<Measurement, Error>,
    >)
        ensures
            r is None <==> !self@.campaigns.contains_key(id),
            r matches Some(Ok(m)) ==> exists|current: Seq<u64>|
                current.len() == self@.campaigns[id]@.devices.len() && m@
                    == #[trigger] self@.campaigns[id].delta(now, current),
            r matches Some(Err(e)) ==> exists|i: int|
                0 <= i < self@.campaigns[id]@.devices.len() && (e.is_telemetry(
                    Operation::Device(#[trigger] self@.campaigns[id]@.devices[i].id),
                ) || e.is_telemetry(Operation::TotalEnergy(self@.campaigns[id]@.devices[i].id))),
    {
        match self.campaigns.get(&id) {
            Some(base) => Some(base.measurement(nvml, now)),
            None => None,
        }
    }

    /// Retrieve the number of [BaseMeasurement]s currently held
    pub fn len(&self) -> (r: usize)
        ensures
            r == self@.campaigns.len(),
            self@.campaigns.dom().finite(),
    {
        self.campaigns.len()
    }

    /// Delete the [BaseMeasurement]s taken strictly before `cutoff`
    pub fn delete_older_than(&mut self, cutoff: Nanos)
        ensures
            final(self)@.next_id == old(self)@.next_id,
            final(self)@.campaigns == taken_since(old(self)@.campaigns, cutoff),
    {
        // First find the stale campaigns, then remove them
        let ghost start = self.campaigns@;
        let mut stale: Vec<BMId> = Vec::new();
        let keys = self.campaigns.keys();
        let ghost ks: Seq<BMId> = into_iter_keys(keys);
        proof {
            assert(ks == keys.remaining().unref());
            assert(ks.to_set() == start.dom());
        }
        for id in it: keys
            invariant
                self.campaigns@ == start,
                it.seq().unref() == ks,
                ks.to_set() == start.dom(),
                forall|j: int|
                    0 <= j < stale.len() ==> start.contains_key(#[trigger] stale@[j])
                        && start[stale@[j]]@.time < cutoff,
                forall|j: int|
                    0 <= j < it.index() ==> #[trigger] start.contains_key(ks[j]) && (
                    start[ks[j]]@.time < cutoff ==> stale@.contains(ks[j])),
                it.index() == ks.len() ==> forall|k: BMId|
                    start.contains_key(k) && start[k]@.time < cutoff ==> #[trigger] stale@.contains(k),
        {
            assert(*id == ks[it.index()]);
            let ghost earlier = stale@;
            match self.campaigns.get(id) {
                Some(base) => {
                    if base.time < cutoff {
                        stale.push(*id);
                        assert(stale@[stale.len() - 1] == ks[it.index()]);
                    }
                },
                None => {},
            }
            proof {
                assert forall|x: BMId| earlier.contains(x) implies stale@.contains(x) by {
                    let m = choose|m: int| 0 <= m < earlier.len() && earlier[m] == x;
                    assert(stale@[m] == x);
                }
                if it.index() + 1 == ks.len() {
                    assert forall|k: BMId|
                        start.contains_key(k) && start[k]@.time < cutoff implies stale@.contains(k) by {
                        assert(ks.to_set().contains(k));
                        let j = ks.index_of(k);
                        assert(ks[j] == k);
                    }
                }
            }
        }
        let ghost mut removed: Set<BMId> = Set::empty();
        let mut i: usize = 0;
        while i < stale.len()
            invariant
                self.next_id == old(self).next_id,
                i <= stale.len(),
                self.campaigns@ == start.remove_keys(removed),
                forall|j: int|
                    0 <= j < stale.len() ==> start.contains_key(#[trigger] stale@[j])
                        && start[stale@[j]]@.time < cutoff,
                forall|x: BMId|
                    #[trigger] removed.contains(x) ==> start.contains_key(x) && start[x]@.time
                        < cutoff,
                forall|j: int| 0 <= j < i ==> #[trigger] removed.contains(stale@[j]),
            decreases stale.len() - i,
        {
            let k = stale[i];
            let _ = self.campaigns.remove(&k);
            proof {
                removed = removed.insert(k);
            }
            assert(self.campaigns@ =~= start.remove_keys(removed));
            i = i + 1;
        }
        assert(self.campaigns@ =~= taken_since(start, cutoff)) by {
            assert forall|k: BMId| start.contains_key(k) && start[k]@.time < cutoff implies removed.contains(k) by {
                let j = choose|j: int| 0 <= j < stale.len() && stale@[j] == k;
            }
        }
    }
}

} // verus!

verus! {

/// Identifiers are issued in creation order: when campaigns are created one
/// after another with no deletion in between, the `i`-th of them gets the
/// first one's identifier plus `i`, modulo 2^32, so each identifier is the
/// one before it plus one.
///
/// `stores[i]` is the store before the `i`-th creation, which filed
/// `bases[i]`; the identifier that creation returned is `stores[i].next_id`.
pub proof fn lemma_ids_consecutive(stores: Seq<StoreView>, bases: Seq<BaseMeasurement>)
    requires
        stores.len() == bases.len() + 1,
        forall|i: int|
            0 <= i < bases.len() ==> #[trigger] stores[i + 1] == filed(stores[i], bases[i]),
    ensures
        forall|i: int|
            0 <= i < stores.len() ==> #[trigger] stores[i].next_id == (stores[0].next_id + i)
                % 0x1_0000_0000,
        forall|i: int|
            0 <= i < bases.len() ==> #[trigger] stores[i + 1].next_id == id_after(
                stores[i].next_id,
            ),
    decreases bases.len(),
{
    if bases.len() > 0 {
        let n = bases.len() - 1;
        let front = stores.subrange(0, n + 1);
        let front_bases = bases.subrange(0, n);
        assert forall|i: int| 0 <= i < n implies #[trigger] front[i + 1] == filed(
            front[i],
            front_bases[i],
        ) by {
            assert(stores[i + 1] == filed(stores[i], bases[i]));
            assert(front[i] == stores[i]);
        }
        lemma_ids_consecutive(front, front_bases);
        assert forall|i: int| 0 <= i < stores.len() implies #[trigger] stores[i].next_id == (
        stores[0].next_id + i) % 0x1_0000_0000 by {
            if i == n + 1 {
                assert(stores.subrange(0, n + 1)[n] == stores[n]);
                assert(stores[n + 1] == filed(stores[n], bases[n]));
                assert((((stores[0].next_id + n) % 0x1_0000_0000) + 1) % 0x1_0000_0000 == (
                stores[0].next_id + n + 1) % 0x1_0000_0000) by (nonlinear_arith);
            } else {
                assert(stores.subrange(0, n + 1)[i] == stores[i]);
            }
        }
    }
}

} // verus!
