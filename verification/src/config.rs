//! The read-only configuration each acquisition source receives by value.
//!
//! Fields are validated once, at load time, by the collaborator that reads
//! persistent storage; this crate never re-validates them.

use vstd::prelude::*;

verus! {

/// Server endpoint and the asset number this gateway embeds in every frame.
#[derive(Clone)]
pub struct Configuration {
    pub server_ip_address: String,
    pub server_port: u16,
    pub asset_number: u16,
}

} // verus!
