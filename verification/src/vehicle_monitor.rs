//! The monitoring unit of one vehicle. It owns the stream consumer and the
//! record of the running period, and decides on every event what is kept
//! and what is flushed. The caller waits for the next event (a stream
//! event, a tick of the poller, the cancellation) and hands it in.
use vstd::prelude::*;
use vstd::string::*;
use crate::error::Error;
use crate::numeral::{decimal, decimal_text};
use crate::records::{Vehicle, VehicleData, VehiclePeriodRecord};
use crate::api::ApiClient;
use crate::stream::{next_state, output_of, ConsumerState, StreamEvent, StreamOutput};

verus! {

/// Seconds between two polls of the full state.
pub const POLL_INTERVAL_SECS: u64 = 60;

/// What the last poll said about reaching the vehicle.
#[derive(Debug, Clone, Copy, PartialEq, Eq, Structural)]
pub enum Availability {
    /// No poll has been answered yet.
    Unknown,
    /// The last poll brought a snapshot.
    Available,
    /// The last poll failed for a reason other than the credential.
    Degraded,
}

/// What is to be done after a tick.
#[derive(Debug, Clone, Copy, PartialEq, Eq, Structural)]
pub struct TickPlan {
    /// The service refused the credential: the credential layer is to be
    /// told that a refresh is due.
    pub refresh_due: bool,
    /// The record is to be written to the local log and to the remote
    /// store before the next tick.
    pub flush: bool,
}

/// The monitoring unit of one vehicle.
#[derive(Debug, Clone, PartialEq, Eq)]
pub struct VehicleMonitor {
    vehicle: Vehicle,
    consumer: ConsumerState,
    record: VehiclePeriodRecord,
    availability: Availability,
}

impl VehicleMonitor {
    pub closed spec fn vehicle(&self) -> Vehicle {
        self.vehicle
    }

    /// Where the stream consumer stands.
    pub closed spec fn consumer(&self) -> ConsumerState {
        self.consumer
    }

    /// The record of the running period.
    pub closed spec fn record(&self) -> VehiclePeriodRecord {
        self.record
    }

    pub closed spec fn availability(&self) -> Availability {
        self.availability
    }

    /// The unit was cancelled.
    pub open spec fn exited(&self) -> bool {
        self.consumer() == ConsumerState::Terminal
    }

    /// Starts the unit of `vehicle`: about to connect, nothing gathered.
    pub fn init(vehicle: Vehicle) -> (unit: Self)
        ensures
            unit.vehicle() == vehicle,
            unit.consumer() == ConsumerState::Connecting,
            unit.record().is_blank(),
            unit.availability() == Availability::Unknown,
    {
        VehicleMonitor {
            vehicle,
            consumer: ConsumerState::Connecting,
            record: VehiclePeriodRecord::default(),
            availability: Availability::Unknown,
        }
    }

    /// Takes an event of the stream. The consumer moves on; a sample that
    /// it hands out is appended to the record; a failure that it hands out
    /// is returned. Nothing else changes.
    pub fn on_stream(&mut self, event: StreamEvent) -> (report: Option<Error>)
        ensures
            final(self).vehicle() == old(self).vehicle(),
            final(self).availability() == old(self).availability(),
            final(self).consumer() == next_state(old(self).consumer(), event),
            final(self).record().timestamp == old(self).record().timestamp,
            final(self).record().snapshot == old(self).record().snapshot,
            match output_of(old(self).consumer(), event) {
                StreamOutput::Emit(d) => {
                    &&& final(self).record().updates@ == old(self).record().updates@.push(d)
                    &&& report is None
                },
                StreamOutput::Report(e) => {
                    &&& final(self).record().updates == old(self).record().updates
                    &&& report == Some(e)
                },
                StreamOutput::Nothing => {
                    &&& final(self).record().updates == old(self).record().updates
                    &&& report is None
                },
            },
    {
        let (next, output) = ApiClient::stream(self.consumer, event);
        self.consumer = next;
        match output {
            StreamOutput::Emit(d) => {
                self.record.push_update(d);
                None
            },
            StreamOutput::Report(e) => Some(e),
            StreamOutput::Nothing => None,
        }
    }

    /// Takes a tick of the poller with what the fetch of the full state
    /// brought at `now`.
    ///
    /// A snapshot becomes the latest one and stamps the record with `now`.
    /// A refused credential asks for a refresh and changes nothing. Any
    /// other failure marks the vehicle as degraded and keeps the snapshot
    /// held. Whatever the fetch brought, a stamped record is flushed. A
    /// cancelled unit does nothing.
    pub fn on_tick(&mut self, fetched: Result<VehicleData, Error>, now: i64) -> (plan: TickPlan)
        ensures
            final(self).vehicle() == old(self).vehicle(),
            final(self).consumer() == old(self).consumer(),
            final(self).record().updates == old(self).record().updates,
            old(self).exited() ==> {
                &&& *final(self) == *old(self)
                &&& !plan.refresh_due
                &&& !plan.flush
            },
            !old(self).exited() ==> {
                &&& plan.flush == (final(self).record().timestamp != 0)
                &&& plan.refresh_due == (fetched == Err::<VehicleData, Error>(Error::Unauthorized))
                &&& match fetched {
                    Ok(d) => {
                        &&& final(self).record().snapshot == Some(d)
                        &&& final(self).record().timestamp == now
                        &&& final(self).availability() == Availability::Available
                    },
                    Err(Error::Unauthorized) => {
                        &&& final(self).record() == old(self).record()
                        &&& final(self).availability() == old(self).availability()
                    },
                    Err(_) => {
                        &&& final(self).record() == old(self).record()
                        &&& final(self).availability() == Availability::Degraded
                    },
                }
            },
    {
        if let ConsumerState::Terminal = self.consumer {
            return TickPlan { refresh_due: false, flush: false };
        }
        let mut refresh_due = false;
        match fetched {
            Ok(d) => {
                self.record.merge_snapshot(d, now);
                self.availability = Availability::Available;
            },
            Err(Error::Unauthorized) => {
                refresh_due = true;
            },
            Err(_) => {
                self.availability = Availability::Degraded;
            },
        }
        TickPlan { refresh_due, flush: self.record.is_due() }
    }

    /// Takes the outcome of a flush. Only a record that both the local log
    /// and the remote store took is let go; after any failure the record is
    /// kept and goes out again, with what has arrived since, on the next
    /// tick.
    pub fn on_flushed(&mut self, logged: bool, stored: bool)
        ensures
            final(self).vehicle() == old(self).vehicle(),
            final(self).consumer() == old(self).consumer(),
            final(self).availability() == old(self).availability(),
            logged && stored ==> final(self).record().is_blank(),
            !(logged && stored) ==> final(self).record() == old(self).record(),
    {
        if logged && stored {
            self.record.reset();
        }
    }

    /// Cancels the unit. Cancelling a cancelled unit changes nothing.
    pub fn exit(&mut self)
        ensures
            final(self).exited(),
            final(self).vehicle() == old(self).vehicle(),
            final(self).record() == old(self).record(),
            final(self).availability() == old(self).availability(),
    {
        self.consumer = ConsumerState::Terminal;
    }

    /// The vehicle that the unit monitors.
    pub fn monitored(&self) -> (v: &Vehicle)
        ensures
            *v == self.vehicle(),
    {
        &self.vehicle
    }

    /// Where the stream consumer stands.
    pub fn state(&self) -> (s: ConsumerState)
        ensures
            s == self.consumer(),
    {
        self.consumer
    }

    /// The record of the running period.
    pub fn period(&self) -> (r: &VehiclePeriodRecord)
        ensures
            *r == self.record(),
    {
        &self.record
    }

    /// What the last poll said about reaching the vehicle.
    pub fn reachable(&self) -> (a: Availability)
        ensures
            a == self.availability(),
    {
        self.availability
    }
}

/// The path under which the latest snapshot of a vehicle is cached.
pub open spec fn cache_path_of(vehicle_id: i64) -> Seq<char> {
    ".cache/"@ + decimal(vehicle_id as int) + "/vehicle_data.json"@
}

/// The path under which the latest snapshot of a vehicle is cached.
pub fn cache_path(vehicle_id: i64) -> (path: String)
    ensures
        path@ == cache_path_of(vehicle_id),
{
    let mut path = String::from_str(".cache/");
    path.append(decimal_text(vehicle_id).as_str());
    path.append("/vehicle_data.json");
    path
}

/// Names the file that caches the snapshot `d`: the cache file of its
/// vehicle. Writing the file is the caller's part.
pub fn cache_vehicle_data(d: &VehicleData) -> (path: String)
    ensures
        path@ == cache_path_of(d.vehicle_id),
{
    cache_path(d.vehicle_id)
}

} // verus!
