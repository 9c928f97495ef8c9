//! What the monitor keeps of a vehicle: its identity, a snapshot of its
//! full state, and the record that gathers one period of telemetry.
use vstd::prelude::*;
use vstd::string::*;
use crate::telemetry::DrivingState;

verus! {

/// A vehicle as a listing names it. `id` identifies the vehicle towards the
/// owner endpoints; `vehicle_id` identifies it towards the stream and in
/// the stores. The two are different numbers.
#[derive(Debug, Clone, PartialEq, Eq)]
pub struct Vehicle {
    pub id: i64,
    pub vehicle_id: i64,
    pub vin: String,
    pub display_name: String,
    pub state: String,
}

/// One section of a snapshot, kept as the document that the service sent.
#[derive(Debug, Clone, PartialEq, Eq)]
pub struct Section {
    pub document: String,
}

/// A snapshot of the full state of a vehicle. A section is absent where
/// the service left it out.
#[derive(Debug, Clone, PartialEq, Eq)]
pub struct VehicleData {
    pub id: i64,
    pub vehicle_id: i64,
    pub state: String,
    pub climate_state: Option<Section>,
    pub charge_state: Option<Section>,
    pub drive_state: Option<Section>,
    pub vehicle_config: Option<Section>,
}

impl Vehicle {
    /// A copy of the vehicle.
    pub fn duplicate(&self) -> (copy: Self)
        ensures
            copy == *self,
    {
        Vehicle {
            id: self.id,
            vehicle_id: self.vehicle_id,
            vin: self.vin.clone(),
            display_name: self.display_name.clone(),
            state: self.state.clone(),
        }
    }
}

impl VehicleData {
    /// The snapshot as it is served while the vehicle cannot be reached:
    /// unchanged but for its state, which says `asleep`.
    pub fn asleep(self) -> (d: Self)
        ensures
            d.state@ == "asleep"@,
            d.id == self.id,
            d.vehicle_id == self.vehicle_id,
            d.climate_state == self.climate_state,
            d.charge_state == self.charge_state,
            d.drive_state == self.drive_state,
            d.vehicle_config == self.vehicle_config,
    {
        VehicleData {
            id: self.id,
            vehicle_id: self.vehicle_id,
            state: String::from_str("asleep"),
            climate_state: self.climate_state,
            charge_state: self.charge_state,
            drive_state: self.drive_state,
            vehicle_config: self.vehicle_config,
        }
    }
}

/// The telemetry of one period: the samples that arrived since the last
/// flush, in the order of their arrival, and the latest snapshot.
///
/// Samples are kept as they come. The stream may repeat a sample or
/// deliver an older one after a newer one; neither is rejected.
#[derive(Debug, Clone, PartialEq, Eq)]
pub struct VehiclePeriodRecord {
    /// When the snapshot was taken, in seconds since the epoch; zero while
    /// the period has none.
    pub timestamp: i64,
    pub updates: Vec<DrivingState>,
    pub snapshot: Option<VehicleData>,
}

impl Default for VehiclePeriodRecord {
    /// The record of a period in which nothing has happened yet.
    fn default() -> (r: Self)
        ensures
            r.is_blank(),
    {
        VehiclePeriodRecord { timestamp: 0, updates: Vec::new(), snapshot: None }
    }
}

impl VehiclePeriodRecord {
    /// Nothing has been gathered.
    pub open spec fn is_blank(&self) -> bool {
        self.timestamp == 0 && self.updates@.len() == 0 && self.snapshot is None
    }

    /// Appends a sample.
    pub fn push_update(&mut self, update: DrivingState)
        ensures
            final(self).updates@ == old(self).updates@.push(update),
            final(self).timestamp == old(self).timestamp,
            final(self).snapshot == old(self).snapshot,
    {
        self.updates.push(update);
    }

    /// Takes a snapshot fetched at `now` as the latest one.
    pub fn merge_snapshot(&mut self, snapshot: VehicleData, now: i64)
        ensures
            final(self).snapshot == Some(snapshot),
            final(self).timestamp == now,
            final(self).updates == old(self).updates,
    {
        self.timestamp = now;
        self.snapshot = Some(snapshot);
    }

    /// Whether the record is to be flushed: it has been stamped.
    pub fn is_due(&self) -> (due: bool)
        ensures
            due == (self.timestamp != 0),
    {
        self.timestamp != 0
    }

    /// Empties the record for the next period.
    pub fn reset(&mut self)
        ensures
            final(self).is_blank(),
    {
        self.timestamp = 0;
        self.updates.clear();
        self.snapshot = None;
    }
}

} // verus!
