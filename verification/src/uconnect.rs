//! The passive line sensor: no command protocol, the device pushes one
//! comma-delimited line at a time.
//!
//! Each cycle reads one line under a long timeout. A timeout or read error
//! is an expected, benign outcome that simply yields no event. A line that
//! is empty or a bare (or escaped) terminator is dropped; otherwise the
//! fourth comma-delimited field is the identifier, and only an identifier
//! of exactly 12 bytes ever reaches the wire.

use vstd::prelude::*;

use crate::lines::{
    crlf, crlf_bytes, escaped_crlf, escaped_crlf_bytes, fields_of, nth_field, strip_crlf,
    strip_terminator, vec_eq,
};

verus! {

/// A passive line that carries no data: empty, or a bare or escaped line
/// terminator.
pub open spec fn is_ignored_passive_line(s: Seq<u8>) -> bool {
    ||| s == crlf()
    ||| s == escaped_crlf()
    ||| s == Seq::<u8>::empty()
}

/// The identifier a passive line yields: its fourth comma-delimited field
/// (after stripping the terminator), and only when that field is exactly
/// 12 bytes; anything else is silently dropped.
pub open spec fn passive_identifier_of(s: Seq<u8>) -> Option<Seq<u8>> {
    if is_ignored_passive_line(s) {
        None
    } else {
        let fs = fields_of(strip_crlf(s));
        if fs.len() > 3 && fs[3].len() == 12 {
            Some(fs[3])
        } else {
            None
        }
    }
}

/// Extracts the identifier of one passive line, exactly when the line
/// yields one.
pub fn passive_line_identifier(line: &Vec<u8>) -> (r: Option<Vec<u8>>)
    ensures
        r is Some <==> passive_identifier_of(line@) is Some,
        r matches Some(id) ==> passive_identifier_of(line@) == Some(id@),
{
    if line.len() == 0 {
        proof {
            assert(line@ =~= Seq::<u8>::empty());
        }
        return None;
    }
    let terminator = crlf_bytes();
    let escaped_terminator = escaped_crlf_bytes();
    if vec_eq(line, &terminator) || vec_eq(line, &escaped_terminator) {
        return None;
    }
    let stripped = strip_terminator(line);
    match nth_field(&stripped, 3) {
        Some(f) => {
            if f.len() == 12 {
                Some(f)
            } else {
                None
            }
        },
        None => None,
    }
}

/// What one read on the passive channel produced.
pub enum ReadOutcome {
    /// A line arrived.
    Line(Vec<u8>),
    /// The read timed out or failed: expected and benign.
    TimedOut,
}

/// One cycle's decision: a timeout yields no frame and the loop simply
/// proceeds; a line yields a frame-worthy identifier exactly when it is a
/// well-formed data line with a 12-byte fourth field.
pub fn passive_step(outcome: &ReadOutcome) -> (r: Option<Vec<u8>>)
    ensures
        outcome is TimedOut ==> r is None,
        outcome matches ReadOutcome::Line(l) ==> {
            &&& (r is Some <==> passive_identifier_of(l@) is Some)
            &&& (r matches Some(id) ==> passive_identifier_of(l@) == Some(id@))
        },
{
    match outcome {
        ReadOutcome::Line(l) => passive_line_identifier(l),
        ReadOutcome::TimedOut => None,
    }
}

} // verus!
