//! Detection events and their framing.
//!
//! A source produces one event per detected device or per passive read;
//! the event is framed and sent immediately, never stored, batched or
//! retried.

use vstd::prelude::*;

use crate::frame::{
    frame_bytes_for, lemma_frame_bytes_agree, IncomingMessageProtocol, FRAME_LEN,
};
use crate::lines::subvec;
use crate::timestamp::Timestamp;

verus! {

/// One detected device: its identifier bytes exactly as reported, and the
/// UTC time it was observed.
pub struct DetectionEvent {
    pub identifier: Vec<u8>,
    pub observed_at: Timestamp,
}

/// Serializes the frame for one detection: exactly 22 bytes carrying the
/// asset number, the event's identifier and its timestamp, with no beacon
/// flag — or `None` when the identifier is not exactly 12 bytes, in which
/// case the event never reaches the wire.
pub fn event_frame(asset_number: u16, event: &DetectionEvent) -> (r: Option<Vec<u8>>)
    requires
        event.observed_at.well_formed(),
    ensures
        r is Some <==> event.identifier@.len() == 12,
        r matches Some(bytes) ==> bytes@ == frame_bytes_for(
            asset_number,
            event.identifier@,
            event.observed_at,
            false,
        ) && bytes@.len() == FRAME_LEN,
{
    if event.identifier.len() == 12 {
        let id = subvec(&event.identifier, 0, 12);
        proof {
            assert(id@ =~= event.identifier@);
        }
        let packet = IncomingMessageProtocol::new(asset_number, id, &event.observed_at, false);
        let bytes = packet.to_bytes();
        proof {
            lemma_frame_bytes_agree(
                packet,
                asset_number,
                event.identifier@,
                event.observed_at,
                false,
            );
        }
        Some(bytes)
    } else {
        None
    }
}

} // verus!
