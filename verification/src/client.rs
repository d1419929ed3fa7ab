//! The requests that the sequencer clients send and the values they make of the
//! replies. The clients themselves (connections, gRPC calls) sit outside this
//! library; they hand these functions plain values and take plain values back.
use vstd::prelude::*;
use crate::member::{member_str, Member};
use crate::proto::crypto::Signature;
use crate::proto::protocol::SignedTopologyTransaction;
use crate::proto::sequencer::sequencer_authentication::{
    AuthenticateRequest, AuthenticateResponse, ChallengeRequest, LogoutRequest,
};
use crate::proto::sequencer::sequencer_connect::{
    GetSynchronizerIdResponse, HandshakeRequest, RegisterOnboardingTopologyTransactionsRequest,
};
use crate::proto::sequencer::GetTrafficStateForMemberRequest;
use crate::protocol::{version_number, LATEST_STABLE_VERSION};

verus! {

/// Authentication token returned by the sequencer after successful authentication.
#[derive(Debug, Clone)]
pub struct AuthToken {
    /// The authentication token bytes.
    pub token: Vec<u8>,
    /// When the token expires.
    pub expires_at: Option<prost_types::Timestamp>,
}

impl AuthToken {
    /// The token carried by an authentication response.
    pub fn from_response(response: AuthenticateResponse) -> (t: AuthToken)
        ensures
            t.token == response.token,
            t.expires_at == response.expires_at,
    {
        AuthToken { token: response.token, expires_at: response.expires_at }
    }
}

/// Synchronizer information returned by `GetSynchronizerId`.
#[derive(Debug, Clone, PartialEq, Eq)]
pub struct SynchronizerInfo {
    /// The physical synchronizer ID.
    pub physical_synchronizer_id: String,
    /// The sequencer's unique identifier.
    pub sequencer_uid: String,
}

impl SynchronizerInfo {
    /// The synchronizer information carried by a `GetSynchronizerId` response.
    pub fn from_response(response: GetSynchronizerIdResponse) -> (i: SynchronizerInfo)
        ensures
            i.physical_synchronizer_id == response.physical_synchronizer_id,
            i.sequencer_uid == response.sequencer_uid,
    {
        SynchronizerInfo {
            physical_synchronizer_id: response.physical_synchronizer_id,
            sequencer_uid: response.sequencer_uid,
        }
    }
}

/// The protocol versions a client offers by default: the latest stable one.
pub open spec fn default_versions() -> Seq<i32> {
    seq![version_number(LATEST_STABLE_VERSION) as i32]
}

fn default_version_list() -> (v: Vec<i32>)
    ensures
        v@ == default_versions(),
{
    let mut v = Vec::new();
    v.push(LATEST_STABLE_VERSION.as_i32());
    assert(v@ =~= default_versions());
    v
}

/// A handshake request with the given versions.
pub fn handshake_request(client_versions: Vec<i32>, minimum_version: Option<i32>) -> (r:
    HandshakeRequest)
    ensures
        r.client_protocol_versions == client_versions,
        r.minimum_protocol_version == minimum_version,
{
    HandshakeRequest {
        client_protocol_versions: client_versions,
        minimum_protocol_version: minimum_version,
    }
}

/// The default handshake request: the latest stable version, no minimum.
pub fn default_handshake_request() -> (r: HandshakeRequest)
    ensures
        r.client_protocol_versions@ == default_versions(),
        r.minimum_protocol_version is None,
{
    handshake_request(default_version_list(), None)
}

/// A challenge request for a member string with the given versions.
pub fn challenge_request(member: &str, protocol_versions: Vec<i32>) -> (r: ChallengeRequest)
    ensures
        r.member@ == member@,
        r.member_protocol_versions == protocol_versions,
{
    ChallengeRequest { member: String::from_str(member), member_protocol_versions: protocol_versions }
}

/// The challenge request of a member with the latest stable version.
pub fn member_challenge_request<M: Member>(member: &M) -> (r: ChallengeRequest)
    ensures
        r.member@ == member_str(member.member_code(), member.member_uid()),
        r.member_protocol_versions@ == default_versions(),
{
    let m = member.to_proto_primitive();
    challenge_request(m.as_str(), default_version_list())
}

/// The authentication request of a member with a signed nonce.
pub fn authenticate_request<M: Member>(member: &M, signature: Signature, nonce: Vec<u8>) -> (r:
    AuthenticateRequest)
    ensures
        r.member@ == member_str(member.member_code(), member.member_uid()),
        r.signature == Some(signature),
        r.nonce == nonce,
{
    AuthenticateRequest { member: member.to_proto_primitive(), signature: Some(signature), nonce }
}

/// The request to revoke a token.
pub fn logout_request(token: Vec<u8>) -> (r: LogoutRequest)
    ensures
        r.token == token,
{
    LogoutRequest { token }
}

/// The request for a member's traffic state at a timestamp (microseconds since epoch).
pub fn traffic_state_request<M: Member>(member: &M, timestamp: i64) -> (r:
    GetTrafficStateForMemberRequest)
    ensures
        r.member@ == member_str(member.member_code(), member.member_uid()),
        r.timestamp == timestamp,
{
    GetTrafficStateForMemberRequest { member: member.to_proto_primitive(), timestamp }
}

/// The request to register onboarding topology transactions.
pub fn register_onboarding_request(transactions: Vec<SignedTopologyTransaction>) -> (r:
    RegisterOnboardingTopologyTransactionsRequest)
    ensures
        r.topology_transactions == transactions,
{
    RegisterOnboardingTopologyTransactionsRequest { topology_transactions: transactions }
}

} // verus!
