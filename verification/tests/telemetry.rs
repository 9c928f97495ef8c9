use fleet_monitor::telemetry::{DecodeError, DrivingState, Reading};

const SAMPLE: &str = "1686787200123,65.5,12345.6,80,15,180,37.7749,-122.4194,25,D,250.1,240.2,181";

#[test]
fn reading_accepts_numbers_only() {
    assert_eq!(Reading::parse("12.5").unwrap().as_str(), "12.5");
    assert_eq!(Reading::parse("-0.25e3").unwrap().as_str(), "-0.25e3");
    assert_eq!(Reading::parse(""), None);
    assert_eq!(Reading::parse("fast"), None);
    assert_eq!(Reading::parse("12,5"), None);
}

#[test]
fn empty_measurement_reads_as_zero() {
    assert_eq!(Reading::read("").unwrap().as_str(), "0");
    assert_eq!(Reading::read("").unwrap(), Reading::zero());
    assert_eq!(Reading::read("3.25").unwrap().as_str(), "3.25");
    assert_eq!(Reading::read("x"), None);
}

#[test]
fn decode_places_every_field() {
    let d = DrivingState::decode(SAMPLE).unwrap();
    assert_eq!(d.timestamp, 1686787200123);
    assert_eq!(d.speed.as_str(), "65.5");
    assert_eq!(d.odometer.as_str(), "12345.6");
    assert_eq!(d.soc.as_str(), "80");
    assert_eq!(d.elevation.as_str(), "15");
    assert_eq!(d.est_heading.as_str(), "180");
    assert_eq!(d.est_lat.as_str(), "37.7749");
    assert_eq!(d.est_lng.as_str(), "-122.4194");
    assert_eq!(d.power.as_str(), "25");
    assert_eq!(d.shift_state, "D");
    assert_eq!(d.range.as_str(), "250.1");
    assert_eq!(d.est_range.as_str(), "240.2");
    assert_eq!(d.heading.as_str(), "181");
}

#[test]
fn decode_then_encode_restores_a_canonical_payload() {
    let d = DrivingState::decode(SAMPLE).unwrap();
    assert_eq!(d.encode(), SAMPLE);
    let parked = "1686787200123,0,12345.6,80,15,180,37.7749,-122.4194,0,,250.1,240.2,181";
    assert_eq!(DrivingState::decode(parked).unwrap().encode(), parked);
    let unusual = "-5,1.50,+2,3e2,.5,5.,inf,NaN,-0,P R,1,2,3";
    assert_eq!(DrivingState::decode(unusual).unwrap().encode(), unusual);
}

#[test]
fn empty_measurements_come_back_as_zero() {
    let d = DrivingState::decode("1686787200123,,12345.6,80,15,180,37.7749,-122.4194,,,250.1,,181")
        .unwrap();
    assert_eq!(d.speed, Reading::zero());
    assert_eq!(d.power, Reading::zero());
    assert_eq!(d.est_range, Reading::zero());
    assert_eq!(d.shift_state, "");
    assert_eq!(
        d.encode(),
        "1686787200123,0,12345.6,80,15,180,37.7749,-122.4194,0,,250.1,0,181"
    );
    let all_empty = DrivingState::decode("7,,,,,,,,,,,,").unwrap();
    assert_eq!(all_empty.encode(), "7,0,0,0,0,0,0,0,0,,0,0,0");
}

#[test]
fn timestamp_comes_back_in_canonical_form() {
    let d = DrivingState::decode("+0012,1,2,3,4,5,6,7,8,D,10,11,12").unwrap();
    assert_eq!(d.timestamp, 12);
    assert_eq!(d.encode(), "12,1,2,3,4,5,6,7,8,D,10,11,12");
}

#[test]
fn encoding_normalises_once() {
    for wire in [SAMPLE, "+0012,,2,3,4,5,6,7,8,D,10,11,", "7,,,,,,,,,,,,"] {
        let once = DrivingState::decode(wire).unwrap();
        let again = DrivingState::decode(&once.encode()).unwrap();
        assert_eq!(again, once);
        assert_eq!(again.encode(), once.encode());
    }
}

#[test]
fn wrong_arity_is_rejected() {
    assert_eq!(DrivingState::decode(""), Err(DecodeError::FieldCount));
    assert_eq!(DrivingState::decode("1,2,3"), Err(DecodeError::FieldCount));
    let twelve = "1686787200123,65.5,12345.6,80,15,180,37.7749,-122.4194,25,D,250.1,240.2";
    assert_eq!(DrivingState::decode(twelve), Err(DecodeError::FieldCount));
    let fourteen = format!("{},9", SAMPLE);
    assert_eq!(DrivingState::decode(&fourteen), Err(DecodeError::FieldCount));
    assert_eq!(DrivingState::decode("x,y"), Err(DecodeError::FieldCount));
}

#[test]
fn bad_timestamp_is_rejected() {
    assert_eq!(DrivingState::decode(",1,2,3,4,5,6,7,8,D,10,11,12"), Err(DecodeError::Timestamp));
    assert_eq!(
        DrivingState::decode("12.5,1,2,3,4,5,6,7,8,D,10,11,12"),
        Err(DecodeError::Timestamp)
    );
    assert_eq!(
        DrivingState::decode("9223372036854775808,1,2,3,4,5,6,7,8,D,10,11,12"),
        Err(DecodeError::Timestamp)
    );
    assert_eq!(
        DrivingState::decode("now,x,2,3,4,5,6,7,8,D,10,11,12"),
        Err(DecodeError::Timestamp)
    );
}

#[test]
fn bad_measurement_is_rejected_wherever_it_stands() {
    let good = ["1", "1", "2", "3", "4", "5", "6", "7", "8", "D", "10", "11", "12"];
    for at in 1..13 {
        let mut fields = good.to_vec();
        fields[at] = "n/a";
        let wire = fields.join(",");
        if at == 9 {
            assert_eq!(DrivingState::decode(&wire).unwrap().shift_state, "n/a");
        } else {
            assert_eq!(DrivingState::decode(&wire), Err(DecodeError::Number), "field {}", at);
        }
    }
}
