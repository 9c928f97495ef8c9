use fleet_monitor::error::Error;
use fleet_monitor::records::{Section, Vehicle, VehicleData, VehiclePeriodRecord};
use fleet_monitor::stream::{ConsumerState, Frame, StreamEvent, StreamFault};
use fleet_monitor::telemetry::DrivingState;
use fleet_monitor::vehicle_monitor::{cache_vehicle_data, Availability, TickPlan, VehicleMonitor};

fn vehicle() -> Vehicle {
    Vehicle {
        id: 7,
        vehicle_id: 1007,
        vin: "VIN7".to_string(),
        display_name: "seven".to_string(),
        state: "online".to_string(),
    }
}

fn snapshot(state: &str) -> VehicleData {
    VehicleData {
        id: 7,
        vehicle_id: 1007,
        state: state.to_string(),
        climate_state: Some(Section { document: "{\"inside_temp\":21.5}".to_string() }),
        charge_state: None,
        drive_state: None,
        vehicle_config: None,
    }
}

fn update(timestamp: i64) -> DrivingState {
    DrivingState::decode(&format!("{},1,2,3,4,5,6,7,8,D,10,11,12", timestamp)).unwrap()
}

fn subscribed() -> VehicleMonitor {
    let mut unit = VehicleMonitor::init(vehicle());
    assert_eq!(unit.on_stream(StreamEvent::Connected), None);
    unit
}

#[test]
fn unit_starts_connecting_with_a_blank_record() {
    let unit = VehicleMonitor::init(vehicle());
    assert_eq!(unit.monitored(), &vehicle());
    assert_eq!(unit.state(), ConsumerState::Connecting);
    assert_eq!(unit.period(), &VehiclePeriodRecord::default());
    assert_eq!(unit.period().timestamp, 0);
    assert_eq!(unit.reachable(), Availability::Unknown);
}

#[test]
fn updates_are_kept_in_the_order_of_arrival() {
    let mut unit = subscribed();
    for t in [5, 3, 5, 9] {
        assert_eq!(unit.on_stream(StreamEvent::Frame(Frame::Update(update(t)))), None);
    }
    let kept: Vec<i64> = unit.period().updates.iter().map(|d| d.timestamp).collect();
    assert_eq!(kept, vec![5, 3, 5, 9]);
    assert_eq!(unit.period().timestamp, 0);
    assert_eq!(unit.period().snapshot, None);
}

#[test]
fn faults_are_surfaced_and_keep_the_record() {
    let mut unit = subscribed();
    unit.on_stream(StreamEvent::Frame(Frame::Update(update(1))));
    assert_eq!(
        unit.on_stream(StreamEvent::Frame(Frame::Fault(StreamFault::Unauthorized))),
        Some(Error::Unauthorized)
    );
    assert_eq!(unit.state(), ConsumerState::Draining);
    assert_eq!(unit.period().updates, vec![update(1)]);
    assert_eq!(unit.on_stream(StreamEvent::Frame(Frame::Update(update(2)))), None);
    assert_eq!(unit.period().updates, vec![update(1)]);
    let mut fresh = VehicleMonitor::init(vehicle());
    assert_eq!(fresh.on_stream(StreamEvent::CredentialInvalid), Some(Error::AccessTokenExpired));
    assert_eq!(fresh.state(), ConsumerState::Backoff { seconds: 60 });
}

#[test]
fn snapshot_stamps_the_record_and_asks_for_a_flush() {
    let mut unit = subscribed();
    unit.on_stream(StreamEvent::Frame(Frame::Update(update(1))));
    let plan = unit.on_tick(Ok(snapshot("online")), 1686830400);
    assert_eq!(plan, TickPlan { refresh_due: false, flush: true });
    assert_eq!(
        unit.period(),
        &VehiclePeriodRecord {
            timestamp: 1686830400,
            updates: vec![update(1)],
            snapshot: Some(snapshot("online")),
        }
    );
    assert_eq!(unit.reachable(), Availability::Available);
}

#[test]
fn refused_credential_asks_for_a_refresh_and_changes_nothing() {
    let mut unit = subscribed();
    let plan = unit.on_tick(Err(Error::Unauthorized), 100);
    assert_eq!(plan, TickPlan { refresh_due: true, flush: false });
    assert_eq!(unit.period(), &VehiclePeriodRecord::default());
    assert_eq!(unit.reachable(), Availability::Unknown);
    unit.on_tick(Ok(snapshot("online")), 200);
    let plan = unit.on_tick(Err(Error::Unauthorized), 300);
    assert_eq!(plan, TickPlan { refresh_due: true, flush: true });
    assert_eq!(unit.period().timestamp, 200);
    assert_eq!(unit.reachable(), Availability::Available);
}

#[test]
fn other_failures_degrade_and_keep_the_snapshot() {
    for e in [
        Error::VehicleOffline,
        Error::VehicleUnavailable,
        Error::ReqwestError("timeout".to_string()),
        Error::SerdeJsonErr("eof".to_string()),
    ] {
        let mut unit = subscribed();
        let plan = unit.on_tick(Err(e.clone()), 50);
        assert_eq!(plan, TickPlan { refresh_due: false, flush: false });
        assert_eq!(unit.reachable(), Availability::Degraded);
        assert_eq!(unit.period(), &VehiclePeriodRecord::default());
        unit.on_tick(Ok(snapshot("online")), 60);
        let plan = unit.on_tick(Err(e), 70);
        assert_eq!(plan, TickPlan { refresh_due: false, flush: true });
        assert_eq!(unit.period().snapshot, Some(snapshot("online")));
        assert_eq!(unit.period().timestamp, 60);
        assert_eq!(unit.reachable(), Availability::Degraded);
    }
}

#[test]
fn updates_alone_are_not_flushed() {
    let mut unit = subscribed();
    unit.on_stream(StreamEvent::Frame(Frame::Update(update(1))));
    let plan = unit.on_tick(Err(Error::VehicleOffline), 50);
    assert!(!plan.flush);
    assert_eq!(unit.period().updates, vec![update(1)]);
}

#[test]
fn snapshot_fetched_at_the_epoch_is_not_flushed() {
    let mut unit = subscribed();
    let plan = unit.on_tick(Ok(snapshot("online")), 0);
    assert_eq!(plan, TickPlan { refresh_due: false, flush: false });
    let plan = unit.on_tick(Ok(snapshot("online")), -5);
    assert_eq!(plan, TickPlan { refresh_due: false, flush: true });
}

#[test]
fn record_is_let_go_only_when_both_tiers_took_it() {
    for (logged, stored) in [(false, false), (true, false), (false, true)] {
        let mut unit = subscribed();
        unit.on_stream(StreamEvent::Frame(Frame::Update(update(1))));
        unit.on_tick(Ok(snapshot("online")), 100);
        let before = unit.period().clone();
        unit.on_flushed(logged, stored);
        assert_eq!(unit.period(), &before);
        unit.on_stream(StreamEvent::Frame(Frame::Update(update(2))));
        let plan = unit.on_tick(Err(Error::VehicleOffline), 160);
        assert!(plan.flush);
        assert_eq!(unit.period().updates, vec![update(1), update(2)]);
    }
    let mut unit = subscribed();
    unit.on_stream(StreamEvent::Frame(Frame::Update(update(1))));
    unit.on_tick(Ok(snapshot("online")), 100);
    unit.on_flushed(true, true);
    assert_eq!(unit.period(), &VehiclePeriodRecord::default());
    assert_eq!(unit.state(), ConsumerState::Subscribed);
    assert_eq!(unit.reachable(), Availability::Available);
    unit.on_stream(StreamEvent::Frame(Frame::Update(update(2))));
    assert_eq!(unit.period().updates, vec![update(2)]);
    assert!(!unit.on_tick(Err(Error::VehicleOffline), 160).flush);
}

#[test]
fn cancelled_unit_does_nothing_more() {
    let mut unit = subscribed();
    unit.on_stream(StreamEvent::Frame(Frame::Update(update(1))));
    unit.exit();
    assert_eq!(unit.state(), ConsumerState::Terminal);
    let before = unit.clone();
    assert_eq!(unit.on_tick(Ok(snapshot("online")), 100), TickPlan { refresh_due: false, flush: false });
    assert_eq!(unit.on_tick(Err(Error::Unauthorized), 100), TickPlan { refresh_due: false, flush: false });
    assert_eq!(unit.on_stream(StreamEvent::Frame(Frame::Update(update(2)))), None);
    assert_eq!(unit.on_stream(StreamEvent::BackoffElapsed), None);
    assert_eq!(unit, before);
    unit.exit();
    assert_eq!(unit, before);
    let mut other = subscribed();
    assert_eq!(other.on_stream(StreamEvent::Cancelled), None);
    assert_eq!(other.state(), ConsumerState::Terminal);
}

#[test]
fn period_record_gathers_and_resets() {
    let mut r = VehiclePeriodRecord::default();
    assert!(!r.is_due());
    r.push_update(update(1));
    assert!(!r.is_due());
    r.merge_snapshot(snapshot("asleep"), 9);
    assert!(r.is_due());
    assert_eq!(
        r,
        VehiclePeriodRecord { timestamp: 9, updates: vec![update(1)], snapshot: Some(snapshot("asleep")) }
    );
    r.merge_snapshot(snapshot("online"), 10);
    assert_eq!(r.snapshot, Some(snapshot("online")));
    assert_eq!(r.timestamp, 10);
    r.reset();
    assert_eq!(r, VehiclePeriodRecord::default());
}

#[test]
fn snapshot_cache_lives_under_the_vehicle() {
    assert_eq!(cache_vehicle_data(&snapshot("online")), ".cache/1007/vehicle_data.json");
}
