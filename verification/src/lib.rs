//! Canton Sequencer client library: member identifiers, protocol versions,
//! Ed25519 signing, and the topology transactions and requests of participant
//! onboarding and authentication.
use vstd::prelude::*;

pub mod client;
pub mod member;
pub mod proto;
pub mod protocol;
pub mod sha256;
pub mod signing;
pub mod text;
pub mod topology;
pub mod wire;

pub use client::{AuthToken, SynchronizerInfo};
pub use member::{
    AnyMember, MediatorId, Member, MemberCode, MemberError, ParticipantId, SequencerId,
    UniqueIdentifier,
};
pub use proto::crypto::{
    Signature, SignatureDelegation, SignatureFormat, SigningAlgorithmSpec, SigningKeySpec,
};
pub use proto::protocol::{SignedTopologyTransaction, TrafficState};
pub use proto::sequencer::sequencer_authentication::{
    AuthenticateRequest, AuthenticateResponse, ChallengeRequest, ChallengeResponse, LogoutRequest,
    LogoutResponse,
};
pub use proto::sequencer::sequencer_connect::{
    GetSynchronizerIdRequest, GetSynchronizerIdResponse, GetSynchronizerParametersRequest,
    HandshakeRequest, RegisterOnboardingTopologyTransactionsRequest,
    RegisterOnboardingTopologyTransactionsResponse, VerifyActiveRequest,
};
pub use proto::sequencer::{
    GetTimeRequest, GetTimeResponse, GetTrafficStateForMemberRequest,
    GetTrafficStateForMemberResponse,
};
pub use protocol::{ProtocolVersion, LATEST_STABLE_VERSION, MINIMUM_STABLE_VERSION};
pub use topology::TopologyTransactionBuilder;

verus! {
}
