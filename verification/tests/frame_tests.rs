use field_gateway::bcd::{oneths_time, tenths_time};
use field_gateway::config::Configuration;
use field_gateway::event::DetectionEvent;
use field_gateway::event::event_frame;
use field_gateway::frame::IncomingMessageProtocol;
use field_gateway::frame::FRAME_LEN;
use field_gateway::heartbeat::Heartbeat;
use field_gateway::timestamp::Timestamp;

fn ts(year: i32, month: u8, day: u8, hour: u8, minute: u8, second: u8) -> Timestamp {
    Timestamp::from_parts(year, month, day, hour, minute, second).unwrap()
}

#[test]
fn bcd_digit_pairs() {
    assert_eq!(tenths_time(59), 5);
    assert_eq!(oneths_time(59), 9);
    assert_eq!(tenths_time(0), 0);
    assert_eq!(oneths_time(0), 0);
    assert_eq!(tenths_time(23), 2);
    assert_eq!(oneths_time(23), 3);
    assert_eq!(tenths_time(31), 3);
    assert_eq!(tenths_time(12), 1);
    assert_eq!(oneths_time(7), 7);
}

#[test]
fn year_2024_digits() {
    let t = ts(2024, 1, 1, 0, 0, 0);
    let frame = IncomingMessageProtocol::new(1, b"AABBCCDDEEFF".to_vec(), &t, false);
    let bytes = frame.to_bytes();
    // year_tens = 2 in the high nibble, year_ones = 4 in the low nibble
    assert_eq!(bytes[21], 0x24);
}

#[test]
fn encode_known_frame() {
    let t = ts(2023, 11, 7, 8, 9, 10);
    let frame = IncomingMessageProtocol::new(0x1234, b"AABBCCDDEEFF".to_vec(), &t, false);
    let bytes = frame.to_bytes();
    assert_eq!(bytes.len(), FRAME_LEN);
    assert_eq!(bytes[0], 0xEE);
    // source type 60 in the top six bits, no beacon, zero padding
    assert_eq!(bytes[1], 0xF0);
    // low byte of the asset number comes before the high byte
    assert_eq!(bytes[2], 0x34);
    assert_eq!(bytes[3], 0x12);
    assert_eq!(&bytes[4..16], b"AABBCCDDEEFF");
    // seconds = 10: tens 1, ones 0
    assert_eq!(bytes[16], 0x10);
    // minutes = 9
    assert_eq!(bytes[17], 0x09);
    // hours = 8
    assert_eq!(bytes[18], 0x08);
    // day = 7
    assert_eq!(bytes[19], 0x07);
    // is_utc set, month = 11: tens 1, ones 1
    assert_eq!(bytes[20], 0x91);
    // year 2023 stored as 23
    assert_eq!(bytes[21], 0x23);
}

#[test]
fn beacon_flag_sets_bit_one() {
    let t = ts(2023, 1, 2, 3, 4, 5);
    let frame = IncomingMessageProtocol::new(7, b"000000000000".to_vec(), &t, true);
    let bytes = frame.to_bytes();
    assert_eq!(bytes[1], 0xF2);
}

#[test]
fn round_trip_recovers_fields() {
    let t = ts(2047, 12, 31, 23, 59, 58);
    let frame = IncomingMessageProtocol::new(0xBEEF, b"112233445566".to_vec(), &t, false);
    let bytes = frame.to_bytes();
    assert_eq!(bytes.len(), 22);
    let asset = u16::from(bytes[3]) << 8 | u16::from(bytes[2]);
    assert_eq!(asset, 0xBEEF);
    assert_eq!(&bytes[4..16], b"112233445566");
    let second = (bytes[16] >> 4) * 10 + (bytes[16] & 0x0F);
    let minute = (bytes[17] >> 4) * 10 + (bytes[17] & 0x0F);
    let hour = ((bytes[18] >> 4) & 0x03) * 10 + (bytes[18] & 0x0F);
    let day = ((bytes[19] >> 4) & 0x03) * 10 + (bytes[19] & 0x0F);
    let month = ((bytes[20] >> 4) & 0x01) * 10 + (bytes[20] & 0x0F);
    let year = 2000 + u16::from((bytes[21] >> 4) * 10 + (bytes[21] & 0x0F));
    assert_eq!(second, 58);
    assert_eq!(minute, 59);
    assert_eq!(hour, 23);
    assert_eq!(day, 31);
    assert_eq!(month, 12);
    assert_eq!(year, 2047);
    assert_eq!(bytes[20] >> 7, 1);
}

#[test]
fn event_frame_requires_twelve_byte_identifier() {
    let t = ts(2023, 5, 6, 7, 8, 9);
    let good = DetectionEvent { identifier: b"AABBCCDDEEFF".to_vec(), observed_at: t };
    let bad = DetectionEvent { identifier: b"SHORT".to_vec(), observed_at: t };
    let framed = event_frame(42, &good).unwrap();
    assert_eq!(framed.len(), 22);
    assert_eq!(&framed[4..16], b"AABBCCDDEEFF");
    assert!(event_frame(42, &bad).is_none());
}

#[test]
fn event_frame_matches_direct_encoding() {
    let t = ts(2030, 2, 3, 4, 5, 6);
    let event = DetectionEvent { identifier: b"FFEEDDCCBBAA".to_vec(), observed_at: t };
    let framed = event_frame(9, &event).unwrap();
    let direct = IncomingMessageProtocol::new(9, b"FFEEDDCCBBAA".to_vec(), &t, false).to_bytes();
    assert_eq!(framed, direct);
}

#[test]
fn heartbeat_frame_carries_blank_identifier() {
    let config = Configuration {
        server_ip_address: String::from("203.0.113.5"),
        server_port: 4000,
        asset_number: 0x0102,
    };
    let source = Heartbeat::new(config);
    let t = ts(2024, 6, 15, 12, 30, 45);
    let bytes = source.heartbeat(&t);
    assert_eq!(bytes.len(), 22);
    assert_eq!(&bytes[4..16], b"            ");
    assert_eq!(bytes[2], 0x02);
    assert_eq!(bytes[3], 0x01);
    assert_eq!(bytes[16], 0x45);
    assert_eq!(bytes[20] >> 7, 1);
}
