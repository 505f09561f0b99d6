use field_gateway::lines::{nth_field, strip_terminator, vec_eq};
use field_gateway::parani::{
    ats_s24_command, ats_s33_command, ats_s4_command, bt_cancel_command, bt_inq_command,
    classify_inquiry_line, collect_inquiry_identifiers, setup_commands, InquiryLine,
};

#[test]
fn inquiry_commands_are_exact() {
    assert_eq!(bt_cancel_command(), b"AT+BTCANCEL\r".to_vec());
    assert_eq!(bt_inq_command(), b"AT+BTINQ?\r".to_vec());
    assert_eq!(ats_s4_command(), b"ATS4=0\r".to_vec());
    assert_eq!(ats_s24_command(), b"ATS24=1000\r".to_vec());
    assert_eq!(ats_s33_command(), b"ATS33=15\r".to_vec());
}

#[test]
fn setup_commands_in_order() {
    let commands = setup_commands();
    assert_eq!(commands.len(), 3);
    assert_eq!(commands[0], b"ATS4=0\r".to_vec());
    assert_eq!(commands[1], b"ATS24=1000\r".to_vec());
    assert_eq!(commands[2], b"ATS33=15\r".to_vec());
}

#[test]
fn ok_line_ends_results() {
    let r = classify_inquiry_line(&b"OK\r\n".to_vec());
    assert!(matches!(r, InquiryLine::EndOfResults));
}

#[test]
fn sentinel_and_empty_lines_are_ignored() {
    for line in [
        b"".to_vec(),
        b"\r\n".to_vec(),
        b"\\r\\n".to_vec(),
        b"ERROR\r\n".to_vec(),
        b"ERROR\\r\\n".to_vec(),
    ] {
        let r = classify_inquiry_line(&line);
        assert!(matches!(r, InquiryLine::Ignored));
    }
}

#[test]
fn data_line_reports_first_field() {
    let r = classify_inquiry_line(&b"ABC123456789,rest\r\n".to_vec());
    match r {
        InquiryLine::Detection(id) => assert_eq!(id, b"ABC123456789".to_vec()),
        _ => panic!("expected a detection"),
    }
}

#[test]
fn data_line_without_comma_is_whole_stripped_line() {
    let r = classify_inquiry_line(&b"ABC123456789\r\n".to_vec());
    match r {
        InquiryLine::Detection(id) => assert_eq!(id, b"ABC123456789".to_vec()),
        _ => panic!("expected a detection"),
    }
}

#[test]
fn one_data_line_yields_one_event() {
    let lines = vec![b"ABC123456789,rest\r\n".to_vec(), b"OK\r\n".to_vec()];
    let ids = collect_inquiry_identifiers(&lines);
    assert_eq!(ids, vec![b"ABC123456789".to_vec()]);
}

#[test]
fn terminator_line_yields_no_event() {
    let lines = vec![b"\r\n".to_vec(), b"OK\r\n".to_vec()];
    let ids = collect_inquiry_identifiers(&lines);
    assert!(ids.is_empty());
}

#[test]
fn collection_stops_at_the_sentinel() {
    let lines = vec![
        b"AAA111222333,x\r\n".to_vec(),
        b"ERROR\r\n".to_vec(),
        b"BBB444555666,y\r\n".to_vec(),
        b"OK\r\n".to_vec(),
        b"CCC777888999,z\r\n".to_vec(),
    ];
    let ids = collect_inquiry_identifiers(&lines);
    assert_eq!(
        ids,
        vec![b"AAA111222333".to_vec(), b"BBB444555666".to_vec()]
    );
}

#[test]
fn nth_field_splits_on_commas() {
    let line = b"x,y,z,w".to_vec();
    assert_eq!(nth_field(&line, 0).unwrap(), b"x".to_vec());
    assert_eq!(nth_field(&line, 3).unwrap(), b"w".to_vec());
    assert!(nth_field(&line, 4).is_none());
}

#[test]
fn nth_field_keeps_empty_fields() {
    let line = b"a,,c,".to_vec();
    assert_eq!(nth_field(&line, 1).unwrap(), b"".to_vec());
    assert_eq!(nth_field(&line, 3).unwrap(), b"".to_vec());
    assert_eq!(nth_field(&b"".to_vec(), 0).unwrap(), b"".to_vec());
}

#[test]
fn strip_terminator_removes_only_a_trailing_pair() {
    assert_eq!(strip_terminator(&b"abc\r\n".to_vec()), b"abc".to_vec());
    assert_eq!(strip_terminator(&b"abc".to_vec()), b"abc".to_vec());
    assert_eq!(strip_terminator(&b"\r\n".to_vec()), b"".to_vec());
    assert_eq!(strip_terminator(&b"abc\n".to_vec()), b"abc\n".to_vec());
}

#[test]
fn vec_eq_compares_bytes() {
    assert!(vec_eq(&b"abc".to_vec(), &b"abc".to_vec()));
    assert!(!vec_eq(&b"abc".to_vec(), &b"abd".to_vec()));
    assert!(!vec_eq(&b"abc".to_vec(), &b"ab".to_vec()));
}
