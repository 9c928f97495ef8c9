//! What the stored period records of a day say about the course of a
//! vehicle: the points of its track, and its trips.
//!
//! Positions are handed out as the vehicle reported them. Projecting them
//! onto a map is the part of whoever draws the map.
use vstd::prelude::*;
use crate::records::{Section, VehiclePeriodRecord};
use crate::telemetry::{DrivingState, Reading};
use crate::text::same_text;

verus! {

/// Timestamps below this number count seconds, not milliseconds.
pub const MILLIS_FROM: i64 = 1675843854000;

/// One point of a track.
#[derive(Debug, Clone, PartialEq, Eq)]
pub struct TrackPoint {
    pub est_lat: Reading,
    pub est_lng: Reading,
    pub elevation: Reading,
}

/// One point of a trip: where the vehicle was at the end of a period, and
/// the climate section of the snapshot of that period.
#[derive(Debug, Clone, PartialEq, Eq)]
pub struct TripSnapshot {
    /// Milliseconds since the epoch.
    pub timestamp: i64,
    pub est_lat: Reading,
    pub est_lng: Reading,
    pub elevation: Reading,
    pub climate_state: Option<Section>,
}

/// A trip: the points of consecutive periods in which the vehicle was
/// online.
#[derive(Debug, Clone, PartialEq, Eq)]
pub struct Trip {
    pub track: Vec<TripSnapshot>,
}

/// The point of a sample.
pub open spec fn track_point(d: DrivingState) -> TrackPoint {
    TrackPoint { est_lat: d.est_lat, est_lng: d.est_lng, elevation: d.elevation }
}

/// The points of the samples of all records, in order.
pub open spec fn track_of(records: Seq<VehiclePeriodRecord>) -> Seq<TrackPoint>
    decreases records.len(),
{
    if records.len() == 0 {
        Seq::empty()
    } else {
        track_of(records.drop_last()) + records.last().updates@.map_values(
            |d: DrivingState| track_point(d),
        )
    }
}

/// The timestamp in milliseconds, whichever unit it was recorded in.
pub open spec fn in_millis(timestamp: i64) -> int {
    if timestamp < MILLIS_FROM {
        timestamp * 1000
    } else {
        timestamp as int
    }
}

/// Whether the snapshot of the record says that the vehicle was online.
pub open spec fn was_online(record: VehiclePeriodRecord) -> bool {
    record.snapshot matches Some(s) && s.state@ == "online"@
}

/// The trip point of a record with a snapshot: its last sample, if that
/// has a time after the epoch.
pub open spec fn trip_point(record: VehiclePeriodRecord) -> Option<TripSnapshot> {
    if record.updates@.len() > 0 && in_millis(record.updates@.last().timestamp) > 0 {
        Some(
            TripSnapshot {
                timestamp: in_millis(record.updates@.last().timestamp) as i64,
                est_lat: record.updates@.last().est_lat,
                est_lng: record.updates@.last().est_lng,
                elevation: record.updates@.last().elevation,
                climate_state: record.snapshot.unwrap().climate_state,
            },
        )
    } else {
        None
    }
}

/// The trips that `records` complete, given the points `open` of the trip
/// that is under way. A record without a snapshot says nothing. A record
/// of an online vehicle adds its point to the trip under way. Any other
/// record ends the trip under way, if it has points. A trip that is still
/// under way after the last record is not among the trips.
pub open spec fn trips_of(records: Seq<VehiclePeriodRecord>, open: Seq<TripSnapshot>) -> Seq<
    Seq<TripSnapshot>,
>
    decreases records.len(),
{
    if records.len() == 0 {
        Seq::empty()
    } else {
        let first = records[0];
        let rest = records.skip(1);
        if first.snapshot is None {
            trips_of(rest, open)
        } else if was_online(first) {
            match trip_point(first) {
                Some(p) => trips_of(rest, open.push(p)),
                None => trips_of(rest, open),
            }
        } else if open.len() > 0 {
            seq![open] + trips_of(rest, Seq::empty())
        } else {
            trips_of(rest, open)
        }
    }
}

/// The tracks of a list of trips.
pub open spec fn tracks(trips: Seq<Trip>) -> Seq<Seq<TripSnapshot>> {
    trips.map_values(|t: Trip| t.track@)
}

/// The points of the track that the records describe: one for each sample,
/// in the order of the records and of their samples.
pub fn track(records: &Vec<VehiclePeriodRecord>) -> (points: Vec<TrackPoint>)
    ensures
        points@ == track_of(records@),
{
    let mut points: Vec<TrackPoint> = Vec::new();
    let mut i: usize = 0;
    while i < records.len()
        invariant
            i <= records.len(),
            points@ == track_of(records@.take(i as int)),
        decreases records.len() - i,
    {
        let updates = &records[i].updates;
        let ghost before = points@;
        let mut j: usize = 0;
        while j < updates.len()
            invariant
                j <= updates.len(),
                points@ == before + updates@.take(j as int).map_values(
                    |d: DrivingState| track_point(d),
                ),
            decreases updates.len() - j,
        {
            let d = &updates[j];
            let p = TrackPoint {
                est_lat: d.est_lat.duplicate(),
                est_lng: d.est_lng.duplicate(),
                elevation: d.elevation.duplicate(),
            };
            points.push(p);
            j += 1;
        }
        proof {
            let upto = records@.take(i + 1);
            assert(upto.drop_last() =~= records@.take(i as int));
        }
        i += 1;
    }
    assert(records@.take(records@.len() as int) =~= records@);
    points
}

/// The trips that the records complete, as `trips_of` defines them,
/// starting with no trip under way.
pub fn history_trips(records: &Vec<VehiclePeriodRecord>) -> (trips: Vec<Trip>)
    ensures
        tracks(trips@) == trips_of(records@, Seq::empty()),
{
    let mut trips: Vec<Trip> = Vec::new();
    let mut open: Vec<TripSnapshot> = Vec::new();
    let mut i: usize = 0;
    assert(records@.skip(0) =~= records@);
    while i < records.len()
        invariant
            i <= records.len(),
            trips_of(records@, Seq::empty()) == tracks(trips@) + trips_of(
                records@.skip(i as int),
                open@,
            ),
        decreases records.len() - i,
    {
        let record = &records[i];
        proof {
            assert(records@.skip(i as int).skip(1) =~= records@.skip(i + 1));
        }
        match &record.snapshot {
            None => {},
            Some(snapshot) => {
                if same_text(snapshot.state.as_str(), "online") {
                    let n: usize = record.updates.len();
                    if n > 0 {
                        let last = &record.updates[n - 1];
                        let t: i64 = last.timestamp;
                        if t > 0 {
                            let timestamp: i64 = if t < MILLIS_FROM {
                                t * 1000
                            } else {
                                t
                            };
                            let climate_state = match &snapshot.climate_state {
                                Some(c) => Some(Section { document: c.document.clone() }),
                                None => None,
                            };
                            open.push(
                                TripSnapshot {
                                    timestamp,
                                    est_lat: last.est_lat.duplicate(),
                                    est_lng: last.est_lng.duplicate(),
                                    elevation: last.elevation.duplicate(),
                                    climate_state,
                                },
                            );
                        }
                    }
                } else if open.len() > 0 {
                    let mut track: Vec<TripSnapshot> = Vec::new();
                    std::mem::swap(&mut track, &mut open);
                    trips.push(Trip { track });
                }
            },
        }
        i += 1;
    }
    trips
}

} // verus!
