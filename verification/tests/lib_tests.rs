use canton_sequencer_client::member::Member;
use canton_sequencer_client::signing::Ed25519Signer;
use canton_sequencer_client::{
    ChallengeRequest, HandshakeRequest, ParticipantId, Signature, SignatureFormat,
    SigningAlgorithmSpec, LATEST_STABLE_VERSION, MINIMUM_STABLE_VERSION,
};

#[test]
fn test_signature_creation() {
    let sig = Signature {
        format: SignatureFormat::Concat as i32,
        signature: vec![1, 2, 3, 4],
        signed_by: "test-key-fingerprint".to_string(),
        signing_algorithm_spec: SigningAlgorithmSpec::Ed25519 as i32,
        signature_delegation: None,
    };
    assert_eq!(sig.signature, vec![1, 2, 3, 4]);
    assert_eq!(sig.signed_by, "test-key-fingerprint");
}

#[test]
fn test_challenge_request_creation() {
    let request = ChallengeRequest {
        member: "test-member".to_string(),
        member_protocol_versions: vec![LATEST_STABLE_VERSION.as_i32()],
    };
    assert_eq!(request.member, "test-member");
    assert_eq!(request.member_protocol_versions, vec![34]);
}

#[test]
fn test_handshake_request_creation() {
    let request = HandshakeRequest {
        client_protocol_versions: vec![LATEST_STABLE_VERSION.as_i32()],
        minimum_protocol_version: Some(MINIMUM_STABLE_VERSION.as_i32()),
    };
    assert_eq!(request.client_protocol_versions, vec![34]);
    assert_eq!(request.minimum_protocol_version, Some(34));
}

#[test]
fn test_member_id_generation() {
    let signer = Ed25519Signer::generate();
    let fingerprint = signer.fingerprint();

    let participant = ParticipantId::create("myparticipant", &fingerprint).unwrap();

    let proto = participant.to_proto_primitive();
    assert!(proto.starts_with("PAR::myparticipant::"));
    assert!(proto.contains(&fingerprint));
}

#[test]
fn test_protocol_version_constants() {
    assert_eq!(LATEST_STABLE_VERSION.as_i32(), 34);
    assert!(LATEST_STABLE_VERSION.is_stable());
}
