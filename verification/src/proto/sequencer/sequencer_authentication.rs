//! Messages of the sequencer authentication service.
use vstd::prelude::*;
use crate::proto::crypto::Signature;

verus! {

/// `prost_types::Timestamp`, carried through unchanged.
#[verifier::external_type_specification]
#[verifier::external_body]
pub struct ExTimestamp(prost_types::Timestamp);

/// Request for an authentication challenge.
#[derive(Debug, Clone, PartialEq, Eq)]
pub struct ChallengeRequest {
    pub member: String,
    pub member_protocol_versions: Vec<i32>,
}

/// The challenge: a nonce to sign and the key fingerprints accepted for signing.
#[derive(Debug, Clone, PartialEq, Eq)]
pub struct ChallengeResponse {
    pub nonce: Vec<u8>,
    pub public_key_fingerprints: Vec<String>,
}

/// Request to authenticate with a signed nonce.
#[derive(Debug, Clone, PartialEq)]
pub struct AuthenticateRequest {
    pub member: String,
    pub signature: Option<Signature>,
    pub nonce: Vec<u8>,
}

/// An authentication token and its expiry.
#[derive(Debug, Clone, PartialEq)]
pub struct AuthenticateResponse {
    pub token: Vec<u8>,
    pub expires_at: Option<prost_types::Timestamp>,
}

/// Request to revoke a token.
#[derive(Debug, Clone, PartialEq, Eq)]
pub struct LogoutRequest {
    pub token: Vec<u8>,
}

/// Response to a logout.
#[derive(Debug, Clone, Copy, PartialEq, Eq, Structural)]
pub struct LogoutResponse {}

} // verus!
