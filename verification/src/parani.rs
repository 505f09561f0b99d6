//! The inquiry protocol of the Bluetooth radio scanner.
//!
//! One inquiry cycle writes a cancel command and a begin-inquiry command,
//! then reads response lines until the literal `OK` sentinel line. Lines
//! that are empty, a bare or escaped line terminator, or an `ERROR`
//! sentinel in either terminator spelling carry no data; every other line
//! reports one detection whose identifier is the line's first
//! comma-delimited field. One-time setup writes three register commands:
//! anonymize device names in scan results, cap the result count at 1000,
//! and cap the scan duration at 15 seconds.

use vstd::prelude::*;

use crate::lines::{
    crlf, crlf_bytes, escaped_crlf, escaped_crlf_bytes, fields_of, lemma_fields_of_len,
    nth_field, strip_crlf, strip_terminator, vec_eq, views_of,
};

verus! {

/// The response line `OK` with its line terminator: end of results.
pub open spec fn ok_line() -> Seq<u8> {
    seq![79u8, 75u8, 13u8, 10u8]
}

/// The response line `ERROR` with its line terminator.
pub open spec fn error_line() -> Seq<u8> {
    seq![69u8, 82u8, 82u8, 79u8, 82u8, 13u8, 10u8]
}

/// The response line `ERROR` with the escaped terminator spelling.
pub open spec fn escaped_error_line() -> Seq<u8> {
    seq![69u8, 82u8, 82u8, 79u8, 82u8, 92u8, 114u8, 92u8, 110u8]
}

/// The command `AT+BTCANCEL` with its carriage return: cancel any inquiry
/// in progress.
pub open spec fn bt_cancel_bytes() -> Seq<u8> {
    seq![65u8, 84u8, 43u8, 66u8, 84u8, 67u8, 65u8, 78u8, 67u8, 69u8, 76u8, 13u8]
}

/// The command `AT+BTINQ?` with its carriage return: begin an inquiry.
pub open spec fn bt_inq_bytes() -> Seq<u8> {
    seq![65u8, 84u8, 43u8, 66u8, 84u8, 73u8, 78u8, 81u8, 63u8, 13u8]
}

/// The command `ATS4=0` with its carriage return: anonymize device names
/// in scan results.
pub open spec fn ats_s4_bytes() -> Seq<u8> {
    seq![65u8, 84u8, 83u8, 52u8, 61u8, 48u8, 13u8]
}

/// The command `ATS24=1000` with its carriage return: cap the scan result
/// count at 1000 devices.
pub open spec fn ats_s24_bytes() -> Seq<u8> {
    seq![65u8, 84u8, 83u8, 50u8, 52u8, 61u8, 49u8, 48u8, 48u8, 48u8, 13u8]
}

/// The command `ATS33=15` with its carriage return: cap the scan duration
/// at 15 seconds.
pub open spec fn ats_s33_bytes() -> Seq<u8> {
    seq![65u8, 84u8, 83u8, 51u8, 51u8, 61u8, 49u8, 53u8, 13u8]
}

/// The cancel-inquiry command, ready to write to the radio.
pub fn bt_cancel_command() -> (r: Vec<u8>)
    ensures
        r@ == bt_cancel_bytes(),
{
    let mut v: Vec<u8> = Vec::new();
    v.push(65);
    v.push(84);
    v.push(43);
    v.push(66);
    v.push(84);
    v.push(67);
    v.push(65);
    v.push(78);
    v.push(67);
    v.push(69);
    v.push(76);
    v.push(13);
    proof {
        assert(v@ =~= bt_cancel_bytes());
    }
    v
}

/// The begin-inquiry command, ready to write to the radio.
pub fn bt_inq_command() -> (r: Vec<u8>)
    ensures
        r@ == bt_inq_bytes(),
{
    let mut v: Vec<u8> = Vec::new();
    v.push(65);
    v.push(84);
    v.push(43);
    v.push(66);
    v.push(84);
    v.push(73);
    v.push(78);
    v.push(81);
    v.push(63);
    v.push(13);
    proof {
        assert(v@ =~= bt_inq_bytes());
    }
    v
}

/// The anonymize-names register command, ready to write to the radio.
pub fn ats_s4_command() -> (r: Vec<u8>)
    ensures
        r@ == ats_s4_bytes(),
{
    let mut v: Vec<u8> = Vec::new();
    v.push(65);
    v.push(84);
    v.push(83);
    v.push(52);
    v.push(61);
    v.push(48);
    v.push(13);
    proof {
        assert(v@ =~= ats_s4_bytes());
    }
    v
}

/// The result-count register command, ready to write to the radio.
pub fn ats_s24_command() -> (r: Vec<u8>)
    ensures
        r@ == ats_s24_bytes(),
{
    let mut v: Vec<u8> = Vec::new();
    v.push(65);
    v.push(84);
    v.push(83);
    v.push(50);
    v.push(52);
    v.push(61);
    v.push(49);
    v.push(48);
    v.push(48);
    v.push(48);
    v.push(13);
    proof {
        assert(v@ =~= ats_s24_bytes());
    }
    v
}

/// The scan-duration register command, ready to write to the radio.
pub fn ats_s33_command() -> (r: Vec<u8>)
    ensures
        r@ == ats_s33_bytes(),
{
    let mut v: Vec<u8> = Vec::new();
    v.push(65);
    v.push(84);
    v.push(83);
    v.push(51);
    v.push(51);
    v.push(61);
    v.push(49);
    v.push(53);
    v.push(13);
    proof {
        assert(v@ =~= ats_s33_bytes());
    }
    v
}

/// The three register commands of the one-time setup, in the order they
/// are written: anonymize names, cap the result count, cap the duration.
pub fn setup_commands() -> (r: Vec<Vec<u8>>)
    ensures
        r@.len() == 3,
        r@[0]@ == ats_s4_bytes(),
        r@[1]@ == ats_s24_bytes(),
        r@[2]@ == ats_s33_bytes(),
{
    let mut v: Vec<Vec<u8>> = Vec::new();
    v.push(ats_s4_command());
    v.push(ats_s24_command());
    v.push(ats_s33_command());
    v
}

/// A response line that carries no data and does not end the cycle: empty,
/// a bare or escaped line terminator, or an `ERROR` sentinel in either
/// terminator spelling.
pub open spec fn is_ignored_inquiry_line(s: Seq<u8>) -> bool {
    ||| s == crlf()
    ||| s == escaped_crlf()
    ||| s == Seq::<u8>::empty()
    ||| s == escaped_error_line()
    ||| s == error_line()
}

/// The identifier a data line reports: its first comma-delimited field,
/// with the line terminator stripped first.
pub open spec fn inquiry_identifier_of(s: Seq<u8>) -> Seq<u8> {
    fields_of(strip_crlf(s))[0]
}

/// What one response line means for the cycle.
pub enum InquiryLine {
    /// The `OK` sentinel: end of results for this cycle.
    EndOfResults,
    /// An empty or sentinel line: no data, keep reading.
    Ignored,
    /// A data line, reporting one detected identifier.
    Detection(Vec<u8>),
}

/// Classifies one response line exactly as the cycle treats it.
pub fn classify_inquiry_line(line: &Vec<u8>) -> (r: InquiryLine)
    ensures
        r is EndOfResults <==> line@ == ok_line(),
        r is Ignored <==> (line@ != ok_line() && is_ignored_inquiry_line(line@)),
        r is Detection <==> (line@ != ok_line() && !is_ignored_inquiry_line(line@)),
        r matches InquiryLine::Detection(id) ==> id@ == inquiry_identifier_of(line@),
{
    let mut ok: Vec<u8> = Vec::new();
    ok.push(79);
    ok.push(75);
    ok.push(13);
    ok.push(10);
    proof {
        assert(ok@ =~= ok_line());
    }
    if vec_eq(line, &ok) {
        return InquiryLine::EndOfResults;
    }
    if line.len() == 0 {
        proof {
            assert(line@ =~= Seq::<u8>::empty());
        }
        return InquiryLine::Ignored;
    }
    let mut error: Vec<u8> = Vec::new();
    error.push(69);
    error.push(82);
    error.push(82);
    error.push(79);
    error.push(82);
    error.push(13);
    error.push(10);
    proof {
        assert(error@ =~= error_line());
    }
    let mut escaped_error: Vec<u8> = Vec::new();
    escaped_error.push(69);
    escaped_error.push(82);
    escaped_error.push(82);
    escaped_error.push(79);
    escaped_error.push(82);
    escaped_error.push(92);
    escaped_error.push(114);
    escaped_error.push(92);
    escaped_error.push(110);
    proof {
        assert(escaped_error@ =~= escaped_error_line());
    }
    let terminator = crlf_bytes();
    let escaped_terminator = escaped_crlf_bytes();
    if vec_eq(line, &terminator) || vec_eq(line, &escaped_terminator) || vec_eq(line, &error)
        || vec_eq(line, &escaped_error) {
        return InquiryLine::Ignored;
    }
    let stripped = strip_terminator(line);
    match nth_field(&stripped, 0) {
        Some(id) => InquiryLine::Detection(id),
        None => {
            proof {
                lemma_fields_of_len(strip_crlf(line@));
            }
            // unreachable: every line has a first field
            InquiryLine::Ignored
        },
    }
}

/// The identifiers of the data lines before the first `OK` sentinel, in
/// the order the lines arrived; ignored lines contribute nothing, and the
/// sentinel and everything after it are dropped.
pub open spec fn identifiers_before_ok(ls: Seq<Seq<u8>>) -> Seq<Seq<u8>>
    decreases ls.len(),
{
    if ls.len() == 0 {
        Seq::empty()
    } else if ls[0] == ok_line() {
        Seq::empty()
    } else if is_ignored_inquiry_line(ls[0]) {
        identifiers_before_ok(ls.drop_first())
    } else {
        seq![inquiry_identifier_of(ls[0])] + identifiers_before_ok(ls.drop_first())
    }
}

/// Collects the detections of one inquiry cycle from its response lines:
/// exactly the identifiers of the data lines before the `OK` sentinel, in
/// arrival order.
pub fn collect_inquiry_identifiers(lines: &Vec<Vec<u8>>) -> (r: Vec<Vec<u8>>)
    ensures
        views_of(r@) == identifiers_before_ok(views_of(lines@)),
{
    let mut result: Vec<Vec<u8>> = Vec::new();
    let mut i: usize = 0;
    proof {
        assert(views_of(lines@).skip(0) =~= views_of(lines@));
        assert(views_of(result@) =~= Seq::<Seq<u8>>::empty());
    }
    while i < lines.len()
        invariant
            i <= lines@.len(),
            identifiers_before_ok(views_of(lines@)) == views_of(result@)
                + identifiers_before_ok(views_of(lines@).skip(i as int)),
        decreases lines@.len() - i,
    {
        let ghost tail = views_of(lines@).skip(i as int);
        proof {
            assert(tail[0] == lines@[i as int]@);
            assert(tail.drop_first() =~= views_of(lines@).skip(i + 1));
        }
        match classify_inquiry_line(&lines[i]) {
            InquiryLine::EndOfResults => {
                proof {
                    assert(views_of(result@) + identifiers_before_ok(tail) =~= views_of(
                        result@,
                    ));
                }
                return result;
            },
            InquiryLine::Ignored => {},
            InquiryLine::Detection(id) => {
                let ghost before = views_of(result@);
                proof {
                    assert(id@ == inquiry_identifier_of(tail[0]));
                }
                result.push(id);
                proof {
                    assert(views_of(result@) =~= before + seq![inquiry_identifier_of(tail[0])]);
                    assert(views_of(result@) + identifiers_before_ok(tail.drop_first()) =~=
                        before + identifiers_before_ok(tail));
                }
            },
        }
        i += 1;
    }
    proof {
        assert(views_of(lines@).skip(lines@.len() as int) =~= Seq::<Seq<u8>>::empty());
        assert(views_of(result@) + identifiers_before_ok(
            views_of(lines@).skip(lines@.len() as int),
        ) =~= views_of(result@));
    }
    result
}

} // verus!
