use fleet_monitor::api::{ApiClient, Listing, UsersMeResponse};
use fleet_monitor::config::ApiConfig;
use fleet_monitor::error::Error;
use fleet_monitor::records::{Vehicle, VehicleData};
use fleet_monitor::token::{AccessTokenResponse, TokenState};

fn conf() -> ApiConfig {
    ApiConfig {
        auth_root: "https://auth.example".to_string(),
        api_root: "https://owner.example".to_string(),
        stream_path: "wss://stream.example/streaming/".to_string(),
    }
}

fn credential(issued: Option<i64>, expires_in: i64) -> AccessTokenResponse {
    AccessTokenResponse {
        access_token: "access-1".to_string(),
        refresh_token: "refresh-1".to_string(),
        expires_in,
        state: None,
        token_type: "bearer".to_string(),
        create_timestamp: issued,
    }
}

fn store(t: AccessTokenResponse) -> TokenState {
    TokenState::new(&conf(), "cookie=1;".to_string(), Ok(Some(t))).unwrap()
}

fn vehicle(id: i64) -> Vehicle {
    Vehicle {
        id,
        vehicle_id: id + 1000,
        vin: format!("VIN{}", id),
        display_name: format!("car {}", id),
        state: "online".to_string(),
    }
}

#[test]
fn store_starts_from_the_cache() {
    let s = store(credential(Some(100), 28800));
    assert_eq!(s.credential(), &credential(Some(100), 28800));
    assert_eq!(s.session_cookie(), "cookie=1;");
    assert_eq!(s.config(), &conf());
    assert!(!s.was_refused());
    let empty = TokenState::new(&conf(), String::new(), Ok(None)).unwrap();
    assert_eq!(empty.credential(), &AccessTokenResponse::default());
    assert!(!empty.is_valid());
    assert_eq!(empty.credential().create_timestamp, None);
    let unreadable =
        TokenState::new(&conf(), String::new(), Err(Error::SerdeJsonErr("eof".to_string())));
    assert_eq!(unreadable, Err(Error::SerdeJsonErr("eof".to_string())));
}

#[test]
fn valid_means_both_tokens_are_there() {
    assert!(store(credential(None, 0)).is_valid());
    let mut t = credential(Some(1), 10);
    t.access_token = String::new();
    assert!(!store(t).is_valid());
    let mut t = credential(Some(1), 10);
    t.refresh_token = String::new();
    assert!(!store(t).is_valid());
    assert!(!store(AccessTokenResponse::default()).is_valid());
}

#[test]
fn refresh_is_due_in_the_last_half_hour() {
    let issued = 1_700_000_000;
    let s = store(credential(Some(issued), 28800));
    assert!(!s.needs_refresh(issued));
    assert!(!s.needs_refresh(issued + 28800 - 1801));
    assert!(!s.needs_refresh(issued + 28800 - 1800));
    assert!(s.needs_refresh(issued + 28800 - 1799));
    assert!(s.needs_refresh(issued + 28800));
    assert!(s.needs_refresh(issued + 100_000));
    assert!(!s.needs_refresh(issued - 5));
}

#[test]
fn refresh_is_due_without_an_issuance() {
    let s = store(credential(None, 28800));
    assert!(s.needs_refresh(0));
    assert!(s.needs_refresh(i64::MAX));
    assert!(s.needs_refresh(i64::MIN));
}

#[test]
fn refresh_check_survives_extreme_numbers() {
    assert!(!store(credential(Some(i64::MAX), i64::MAX)).needs_refresh(0));
    assert!(store(credential(Some(i64::MIN), i64::MIN)).needs_refresh(0));
    assert!(!store(credential(Some(i64::MAX), 0)).needs_refresh(i64::MIN));
    assert!(store(credential(Some(i64::MIN), 0)).needs_refresh(i64::MAX));
    assert!(store(credential(Some(0), 1799)).needs_refresh(0));
    assert!(!store(credential(Some(0), 1800)).needs_refresh(0));
}

#[test]
fn short_lived_credential_is_due_at_once() {
    let mut s = store(credential(None, 0));
    assert_eq!(s.refresh_token(Ok(credential(None, 1800)), 500), Ok(()));
    assert!(!s.needs_refresh(500));
    assert!(s.needs_refresh(501));
    assert_eq!(s.refresh_token(Ok(credential(None, 600)), 500), Ok(()));
    assert!(s.needs_refresh(500));
}

#[test]
fn refresh_installs_the_stamped_credential() {
    let mut s = store(credential(Some(10), 100));
    s.report_refused();
    let mut fresh = credential(None, 28800);
    fresh.access_token = "access-2".to_string();
    fresh.refresh_token = "refresh-2".to_string();
    assert_eq!(s.refresh_token(Ok(fresh.clone()), 1_700_000_000), Ok(()));
    let mut expected = fresh.clone();
    expected.create_timestamp = Some(1_700_000_000);
    assert_eq!(s.credential(), &expected);
    assert_eq!(fresh.issued(1_700_000_000), expected);
    assert!(!s.was_refused());
    assert!(!s.needs_refresh(1_700_000_000));
    assert_eq!(s.check_refresh_token(1_700_000_000), None);
    assert_eq!(s.session_cookie(), "cookie=1;");
}

#[test]
fn failed_refresh_changes_nothing() {
    let mut s = store(credential(Some(10), 100));
    s.report_refused();
    let before = s.clone();
    let r = s.refresh_token(Err(Error::ReqwestError("connection reset".to_string())), 999);
    assert_eq!(r, Err(Error::ReqwestError("connection reset".to_string())));
    assert_eq!(s, before);
    assert!(s.was_refused());
}

#[test]
fn refresh_request_carries_the_refresh_token() {
    let s = store(credential(Some(10), 100));
    let req = s.refresh_request();
    assert_eq!(req.url, "https://auth.example/oauth2/v3/token");
    assert_eq!(req.grant_type, "refresh_token");
    assert_eq!(req.client_id, "ownerapi");
    assert_eq!(req.refresh_token, "refresh-1");
    assert_eq!(req.scope, "openid email offline_access");
}

#[test]
fn check_asks_for_refresh_when_due_or_refused() {
    let issued = 1_700_000_000;
    let mut s = store(credential(Some(issued), 28800));
    assert_eq!(s.check_refresh_token(issued + 10), None);
    assert_eq!(s.check_refresh_token(issued + 28800), Some(s.refresh_request()));
    s.report_refused();
    assert_eq!(s.check_refresh_token(issued + 10), Some(s.refresh_request()));
    assert_eq!(s.credential(), &credential(Some(issued), 28800));
}

#[test]
fn tokens_set_by_hand_are_stamped() {
    let mut s = store(credential(None, 28800));
    s.set_api_token("a2", "r2", 77);
    let mut expected = credential(Some(77), 28800);
    expected.access_token = "a2".to_string();
    expected.refresh_token = "r2".to_string();
    assert_eq!(s.credential(), &expected);
    assert!(s.is_valid());
    s.set_api_token("", "r3", 78);
    assert!(!s.is_valid());
}

#[test]
fn requests_are_addressed_and_authorised() {
    let client = ApiClient::init(&conf());
    assert_eq!(client.conf, conf());
    let s = store(credential(Some(1), 2));
    let req = client.make_api_request_builder("/api/1/vehicles", &s);
    assert_eq!(req.url, "https://owner.example/api/1/vehicles");
    assert_eq!(req.authorization, "Bearer access-1");
    assert_eq!(ApiClient::vehicle_data_path(1492), "/api/1/vehicles/1492/vehicle_data");
}

#[test]
fn refused_credential_outranks_the_body() {
    let me = UsersMeResponse {
        email: "a@b.c".to_string(),
        full_name: "A B".to_string(),
        profile_image_url: String::new(),
    };
    assert_eq!(ApiClient::users_me(401, Ok(me.clone())), Err(Error::Unauthorized));
    assert_eq!(ApiClient::users_me(200, Ok(me.clone())), Ok(me));
    assert_eq!(
        ApiClient::users_me(500, Err(Error::SerdeJsonErr("x".to_string()))),
        Err(Error::SerdeJsonErr("x".to_string()))
    );
    assert_eq!(
        ApiClient::vehicles(401, Ok(Listing { response: vec![vehicle(1)], count: 1 })),
        Err(Error::Unauthorized)
    );
    assert_eq!(ApiClient::vehicle_data(401, Ok(None)), Err(Error::Unauthorized));
}

#[test]
fn listing_is_checked_against_its_count() {
    let two = vec![vehicle(1), vehicle(2)];
    assert_eq!(
        ApiClient::vehicles(200, Ok(Listing { response: two.clone(), count: 2 })),
        Ok(two.clone())
    );
    assert_eq!(
        ApiClient::vehicles(200, Ok(Listing { response: two.clone(), count: 3 })),
        Err(Error::ListingMismatch { claimed: 3, returned: 2 })
    );
    assert_eq!(
        ApiClient::vehicles(200, Ok(Listing { response: two.clone(), count: 1 })),
        Err(Error::ListingMismatch { claimed: 1, returned: 2 })
    );
    assert_eq!(
        ApiClient::vehicles(200, Ok(Listing { response: Vec::new(), count: -1 })),
        Err(Error::ListingMismatch { claimed: -1, returned: 0 })
    );
    assert_eq!(ApiClient::vehicles(200, Ok(Listing { response: Vec::new(), count: 0 })), Ok(vec![]));
    assert_eq!(
        ApiClient::vehicles(200, Err(Error::ReqwestError("x".to_string()))),
        Err(Error::ReqwestError("x".to_string()))
    );
}

#[test]
fn missing_state_document_means_unavailable() {
    let d = VehicleData {
        id: 1,
        vehicle_id: 1001,
        state: "online".to_string(),
        climate_state: None,
        charge_state: None,
        drive_state: None,
        vehicle_config: None,
    };
    assert_eq!(ApiClient::vehicle_data(200, Ok(Some(d.clone()))), Ok(d));
    assert_eq!(ApiClient::vehicle_data(200, Ok(None)), Err(Error::VehicleUnavailable));
    assert_eq!(ApiClient::vehicle_data(408, Ok(None)), Err(Error::VehicleUnavailable));
    assert_eq!(
        ApiClient::vehicle_data(200, Err(Error::SerdeJsonErr("x".to_string()))),
        Err(Error::SerdeJsonErr("x".to_string()))
    );
}

#[test]
fn stream_is_prepared_only_with_a_valid_credential() {
    let s = store(credential(Some(1), 2));
    let req = ApiClient::prepare_stream(1042, &s).unwrap();
    assert_eq!(req.address, "wss://stream.example/streaming/");
    assert_eq!(req.subscribe, ApiClient::make_ws_connect_message(1042, &s));
    assert_eq!(req.subscribe.token, "access-1");
    assert_eq!(req.subscribe.tag, "1042");
    assert_eq!(req.subscribe.msg_type, "data:subscribe_oauth");
    let empty = TokenState::new(&conf(), String::new(), Ok(None)).unwrap();
    assert_eq!(ApiClient::prepare_stream(1042, &empty), Err(Error::AccessTokenExpired));
}
