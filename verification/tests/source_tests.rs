use field_gateway::event::{event_frame, DetectionEvent};
use field_gateway::timestamp::{now_utc, Timestamp};
use field_gateway::uconnect::{passive_line_identifier, passive_step, ReadOutcome};

#[test]
fn passive_line_with_twelve_byte_fourth_field_yields_identifier() {
    let id = passive_line_identifier(&b"x,y,z,AABBCCDDEEFF\r\n".to_vec());
    assert_eq!(id.unwrap(), b"AABBCCDDEEFF".to_vec());
}

#[test]
fn passive_line_with_short_identifier_is_dropped() {
    assert!(passive_line_identifier(&b"x,y,z,SHORT\r\n".to_vec()).is_none());
}

#[test]
fn passive_line_with_few_fields_is_dropped() {
    assert!(passive_line_identifier(&b"a,b\r\n".to_vec()).is_none());
    assert!(passive_line_identifier(&b"ERROR\r\n".to_vec()).is_none());
}

#[test]
fn passive_sentinel_lines_are_dropped() {
    assert!(passive_line_identifier(&b"".to_vec()).is_none());
    assert!(passive_line_identifier(&b"\r\n".to_vec()).is_none());
    assert!(passive_line_identifier(&b"\\r\\n".to_vec()).is_none());
}

#[test]
fn timeout_yields_no_frame_and_the_cycle_goes_on() {
    assert!(passive_step(&ReadOutcome::TimedOut).is_none());
    let next = passive_step(&ReadOutcome::Line(b"x,y,z,AABBCCDDEEFF\r\n".to_vec()));
    assert_eq!(next.unwrap(), b"AABBCCDDEEFF".to_vec());
}

#[test]
fn passive_identifier_frames_like_any_event() {
    let t = Timestamp::from_parts(2023, 11, 7, 8, 9, 10).unwrap();
    let id = passive_line_identifier(&b"x,y,z,AABBCCDDEEFF\r\n".to_vec()).unwrap();
    let event = DetectionEvent { identifier: id, observed_at: t };
    let bytes = event_frame(0x1234, &event).unwrap();
    assert_eq!(bytes.len(), 22);
    assert_eq!(&bytes[4..16], b"AABBCCDDEEFF");
}

#[test]
fn timestamp_rejects_out_of_range_parts() {
    assert!(Timestamp::from_parts(1999, 12, 31, 23, 59, 59).is_none());
    assert!(Timestamp::from_parts(2100, 1, 1, 0, 0, 0).is_none());
    assert!(Timestamp::from_parts(2024, 0, 1, 0, 0, 0).is_none());
    assert!(Timestamp::from_parts(2024, 13, 1, 0, 0, 0).is_none());
    assert!(Timestamp::from_parts(2024, 1, 0, 0, 0, 0).is_none());
    assert!(Timestamp::from_parts(2024, 1, 32, 0, 0, 0).is_none());
    assert!(Timestamp::from_parts(2024, 1, 1, 24, 0, 0).is_none());
    assert!(Timestamp::from_parts(2024, 1, 1, 0, 60, 0).is_none());
    assert!(Timestamp::from_parts(2024, 1, 1, 0, 0, 60).is_none());
    assert!(Timestamp::from_parts(2024, 2, 29, 23, 59, 59).is_some());
}

#[test]
fn clock_reading_is_well_formed() {
    let t = now_utc().expect("the system clock should lie between 2000 and 2099");
    assert!((2000..=2099).contains(&t.year));
    assert!((1..=12).contains(&t.month));
    assert!((1..=31).contains(&t.day));
    assert!(t.hour <= 23);
    assert!(t.minute <= 59);
    assert!(t.second <= 59);
}
