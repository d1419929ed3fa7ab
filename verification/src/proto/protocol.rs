//! Protocol messages (`com.digitalasset.canton.protocol.v30`): topology
//! transactions and traffic state.
use vstd::prelude::*;
use crate::proto::crypto::{PublicKey, Signature, SigningPublicKey};

pub mod enums;
pub mod namespace_delegation;
pub mod topology_mapping;

verus! {

/// Delegates authority over a namespace to a key.
#[derive(Debug, Clone, PartialEq, Eq)]
pub struct NamespaceDelegation {
    pub namespace: String,
    pub target_key: Option<SigningPublicKey>,
    /// Deprecated; kept for compatibility.
    pub is_root_delegation: bool,
    pub restriction: Option<namespace_delegation::Restriction>,
}

/// Maps a member to its public keys.
#[derive(Debug, Clone, PartialEq, Eq)]
pub struct OwnerToKeyMapping {
    pub member: String,
    pub public_keys: Vec<PublicKey>,
}

/// A participant's declaration that it trusts a synchronizer.
#[derive(Debug, Clone, PartialEq, Eq)]
pub struct SynchronizerTrustCertificate {
    pub participant_uid: String,
    pub synchronizer_id: String,
}

/// The content of a topology transaction.
#[derive(Debug, Clone, PartialEq, Eq)]
pub struct TopologyMapping {
    pub mapping: Option<topology_mapping::Mapping>,
}

/// An unsigned topology transaction.
#[derive(Debug, Clone, PartialEq, Eq)]
pub struct TopologyTransaction {
    pub operation: i32,
    pub serial: u32,
    pub mapping: Option<TopologyMapping>,
}

/// A serialized topology transaction with its signatures.
#[derive(Debug, Clone, PartialEq, Eq)]
pub struct SignedTopologyTransaction {
    pub transaction: Vec<u8>,
    pub signatures: Vec<Signature>,
    pub proposal: bool,
}

/// Traffic control state of a member.
#[derive(Debug, Clone, Copy, PartialEq, Eq, Structural)]
pub struct TrafficState {
    pub extra_traffic_purchased: i64,
    pub extra_traffic_consumed: i64,
    pub base_traffic_remainder: i64,
    pub last_consumed_cost: u64,
    pub timestamp: i64,
    pub serial: Option<u32>,
}

} // verus!
