//! The synthetic liveness beacon.
//!
//! Every fixed interval the gateway emits one frame carrying a 12-byte
//! all-space identifier, the current UTC time and the configured asset
//! number; the interval pacing and the send itself belong to the caller.

use vstd::prelude::*;

use crate::config::Configuration;
use crate::frame::{
    frame_bytes_for, lemma_frame_bytes_agree, IncomingMessageProtocol, FRAME_LEN,
};
use crate::timestamp::Timestamp;

verus! {

/// Seconds between heartbeat frames.
pub const HEARTBEAT_INTERVAL_SECS: u64 = 15;

/// The all-space identifier every heartbeat frame carries.
pub open spec fn blank_identifier() -> Seq<u8> {
    Seq::new(12, |i: int| 32u8)
}

/// The heartbeat source: no state beyond its configuration.
pub struct Heartbeat {
    pub config: Configuration,
}

impl Heartbeat {
    /// A heartbeat source for this gateway's configuration.
    pub fn new(config: Configuration) -> (r: Heartbeat)
        ensures
            r.config == config,
    {
        Heartbeat { config }
    }

    /// The frame one heartbeat tick emits: the configured asset number, a
    /// 12-byte all-space identifier, the given UTC time, no beacon flag.
    pub fn heartbeat(&self, now: &Timestamp) -> (r: Vec<u8>)
        requires
            now.well_formed(),
        ensures
            r@ == frame_bytes_for(self.config.asset_number, blank_identifier(), *now, false),
            r@.len() == FRAME_LEN,
    {
        let mut id: Vec<u8> = Vec::new();
        let mut i: usize = 0;
        while i < 12
            invariant
                i <= 12,
                id@.len() == i,
                forall|j: int| 0 <= j < i ==> id@[j] == 32u8,
            decreases 12 - i,
        {
            id.push(32);
            i += 1;
        }
        proof {
            assert(id@ =~= blank_identifier());
        }
        let packet = IncomingMessageProtocol::new(
            self.config.asset_number,
            id,
            now,
            false,
        );
        let bytes = packet.to_bytes();
        proof {
            lemma_frame_bytes_agree(
                packet,
                self.config.asset_number,
                blank_identifier(),
                *now,
                false,
            );
        }
        bytes
    }
}

} // verus!
