//! Messages of the sequencer connect service.
use vstd::prelude::*;
use crate::proto::protocol::SignedTopologyTransaction;

verus! {

/// Protocol version handshake request.
#[derive(Debug, Clone, PartialEq, Eq)]
pub struct HandshakeRequest {
    pub client_protocol_versions: Vec<i32>,
    pub minimum_protocol_version: Option<i32>,
}

/// Request for the synchronizer ID.
#[derive(Debug, Clone, Copy, PartialEq, Eq, Structural)]
pub struct GetSynchronizerIdRequest {}

/// The synchronizer ID and the sequencer's unique identifier.
#[derive(Debug, Clone, PartialEq, Eq)]
pub struct GetSynchronizerIdResponse {
    pub physical_synchronizer_id: String,
    pub sequencer_uid: String,
}

/// Request for the static synchronizer parameters.
#[derive(Debug, Clone, Copy, PartialEq, Eq, Structural)]
pub struct GetSynchronizerParametersRequest {}

/// Request to check whether the sequencer is active.
#[derive(Debug, Clone, Copy, PartialEq, Eq, Structural)]
pub struct VerifyActiveRequest {}

/// Request to register onboarding topology transactions.
#[derive(Debug, Clone, PartialEq, Eq)]
pub struct RegisterOnboardingTopologyTransactionsRequest {
    pub topology_transactions: Vec<SignedTopologyTransaction>,
}

/// Response to a registration of onboarding topology transactions.
#[derive(Debug, Clone, Copy, PartialEq, Eq, Structural)]
pub struct RegisterOnboardingTopologyTransactionsResponse {}

} // verus!
