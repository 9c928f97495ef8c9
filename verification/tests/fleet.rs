use fleet_monitor::config::ApiConfig;
use fleet_monitor::error::Error;
use fleet_monitor::fleet::{CycleAction, CyclePlan, Supervisor};
use fleet_monitor::records::Vehicle;
use fleet_monitor::token::{AccessTokenResponse, TokenState};

fn vehicle(id: i64) -> Vehicle {
    Vehicle {
        id,
        vehicle_id: id + 1000,
        vin: format!("VIN{}", id),
        display_name: format!("car {}", id),
        state: "online".to_string(),
    }
}

fn listing(ids: &[i64]) -> Result<Vec<Vehicle>, Error> {
    Ok(ids.iter().map(|id| vehicle(*id)).collect())
}

fn sorted(mut ids: Vec<i64>) -> Vec<i64> {
    ids.sort();
    ids
}

fn token(issued: Option<i64>) -> TokenState {
    let conf = ApiConfig {
        auth_root: "https://auth.example".to_string(),
        api_root: "https://owner.example".to_string(),
        stream_path: "wss://stream.example".to_string(),
    };
    let t = AccessTokenResponse {
        access_token: "a".to_string(),
        refresh_token: "r".to_string(),
        expires_in: 28800,
        state: None,
        token_type: "bearer".to_string(),
        create_timestamp: issued,
    };
    TokenState::new(&conf, String::new(), Ok(Some(t))).unwrap()
}

#[test]
fn first_listing_starts_every_vehicle() {
    let mut s = Supervisor::new();
    assert_eq!(s.units(), &Vec::<i64>::new());
    let plan = s.on_listing(&listing(&[3, 1, 2]));
    assert_eq!(plan, CyclePlan { spawn: vec![vehicle(3), vehicle(1), vehicle(2)], cancel: vec![] });
    assert_eq!(sorted(s.units().clone()), vec![1, 2, 3]);
    assert!(s.is_monitored(2));
    assert!(!s.is_monitored(4));
}

#[test]
fn same_listing_again_asks_for_nothing() {
    let mut s = Supervisor::new();
    s.on_listing(&listing(&[1, 2]));
    let plan = s.on_listing(&listing(&[2, 1]));
    assert_eq!(plan, CyclePlan { spawn: vec![], cancel: vec![] });
    assert_eq!(sorted(s.units().clone()), vec![1, 2]);
}

#[test]
fn listing_is_diffed_against_the_units() {
    let mut s = Supervisor::new();
    s.on_listing(&listing(&[1, 2, 3]));
    let plan = s.on_listing(&listing(&[3, 4, 5]));
    assert_eq!(plan.spawn, vec![vehicle(4), vehicle(5)]);
    assert_eq!(sorted(plan.cancel), vec![1, 2]);
    assert_eq!(sorted(s.units().clone()), vec![3, 4, 5]);
    let plan = s.on_listing(&listing(&[]));
    assert_eq!(plan.spawn, vec![]);
    assert_eq!(sorted(plan.cancel), vec![3, 4, 5]);
    assert_eq!(s.units(), &Vec::<i64>::new());
}

#[test]
fn vehicle_listed_twice_is_started_once() {
    let mut s = Supervisor::new();
    let plan = s.on_listing(&listing(&[7, 7, 8, 7]));
    assert_eq!(plan.spawn, vec![vehicle(7), vehicle(8)]);
    assert_eq!(sorted(s.units().clone()), vec![7, 8]);
}

#[test]
fn vehicle_that_returns_is_started_again() {
    let mut s = Supervisor::new();
    s.on_listing(&listing(&[1]));
    assert_eq!(s.on_listing(&listing(&[])).cancel, vec![1]);
    assert_eq!(s.on_listing(&listing(&[1])).spawn, vec![vehicle(1)]);
}

#[test]
fn failed_listing_changes_nothing() {
    let mut s = Supervisor::new();
    s.on_listing(&listing(&[1, 2]));
    for e in [
        Error::Unauthorized,
        Error::ReqwestError("timeout".to_string()),
        Error::ListingMismatch { claimed: 3, returned: 2 },
    ] {
        let plan = s.on_listing(&Err(e));
        assert_eq!(plan, CyclePlan { spawn: vec![], cancel: vec![] });
        assert_eq!(sorted(s.units().clone()), vec![1, 2]);
    }
}

#[test]
fn cycle_refreshes_before_it_lists() {
    let s = Supervisor::new();
    let issued = 1_700_000_000;
    let fresh = token(Some(issued));
    assert_eq!(s.begin_cycle(&fresh, issued + 60), CycleAction::ListVehicles);
    assert_eq!(
        s.begin_cycle(&fresh, issued + 28800 - 60),
        CycleAction::Refresh(fresh.refresh_request())
    );
    let never = token(None);
    assert_eq!(s.begin_cycle(&never, 0), CycleAction::Refresh(never.refresh_request()));
    let mut refused = token(Some(issued));
    refused.report_refused();
    assert_eq!(s.begin_cycle(&refused, issued + 60), CycleAction::Refresh(refused.refresh_request()));
}

#[test]
fn failed_refresh_skips_the_listing() {
    let s = Supervisor::new();
    assert_eq!(s.after_refresh(&Ok(())), CycleAction::ListVehicles);
    assert_eq!(s.after_refresh(&Err(Error::Unauthorized)), CycleAction::Skip);
    assert_eq!(
        s.after_refresh(&Err(Error::ReqwestError("dns".to_string()))),
        CycleAction::Skip
    );
}
