//! Sequencer service messages (`com.digitalasset.canton.sequencer.api.v30`).
use vstd::prelude::*;
use crate::proto::protocol::TrafficState;

pub mod sequencer_authentication;
pub mod sequencer_connect;

verus! {

/// Request for a member's traffic state at a timestamp (microseconds since epoch).
#[derive(Debug, Clone, PartialEq, Eq)]
pub struct GetTrafficStateForMemberRequest {
    pub member: String,
    pub timestamp: i64,
}

/// Response carrying a member's traffic state, if known.
#[derive(Debug, Clone, PartialEq, Eq)]
pub struct GetTrafficStateForMemberResponse {
    pub traffic_state: Option<TrafficState>,
}

/// Request for the current sequencing time.
#[derive(Debug, Clone, Copy, PartialEq, Eq, Structural)]
pub struct GetTimeRequest {}

/// Response carrying the current sequencing time, if the sequencer knows it.
#[derive(Debug, Clone, Copy, PartialEq, Eq, Structural)]
pub struct GetTimeResponse {
    pub sequencing_timestamp: Option<i64>,
}

} // verus!
