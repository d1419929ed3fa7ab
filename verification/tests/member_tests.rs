use std::str::FromStr;
use canton_sequencer_client::member::{
    AnyMember, MediatorId, Member, MemberCode, Namespace, ParticipantId, SequencerId,
    UniqueIdentifier,
};

#[test]
fn test_namespace() {
    let ns = Namespace::new("abc123def456").unwrap();
    assert_eq!(ns.fingerprint(), "abc123def456");
}

#[test]
fn test_namespace_invalid() {
    assert!(Namespace::new("").is_err());
    assert!(Namespace::new("not-hex!").is_err());
}

#[test]
fn test_unique_identifier() {
    let uid = UniqueIdentifier::new("mynode", "abc123def456").unwrap();
    assert_eq!(uid.identifier(), "mynode");
    assert_eq!(uid.namespace().fingerprint(), "abc123def456");
    assert_eq!(uid.to_proto_primitive(), "mynode::abc123def456");
}

#[test]
fn test_unique_identifier_from_proto() {
    let uid = UniqueIdentifier::from_proto_primitive("mynode::abc123").unwrap();
    assert_eq!(uid.identifier(), "mynode");
    assert_eq!(uid.namespace().fingerprint(), "abc123");
}

#[test]
fn test_unique_identifier_invalid() {
    assert!(UniqueIdentifier::new("", "abc123").is_err());
    assert!(UniqueIdentifier::new("my::node", "abc123").is_err());
    assert!(UniqueIdentifier::new("my node", "abc123").is_err());
}

#[test]
fn test_participant_id() {
    let pid = ParticipantId::create("myparticipant", "abc123def456").unwrap();
    assert_eq!(pid.code(), MemberCode::Participant);
    assert_eq!(pid.to_proto_primitive(), "PAR::myparticipant::abc123def456");
}

#[test]
fn test_participant_id_from_proto() {
    let pid = ParticipantId::from_proto_primitive("PAR::myparticipant::abc123").unwrap();
    assert_eq!(pid.uid().identifier(), "myparticipant");
}

#[test]
fn test_mediator_id() {
    let mid = MediatorId::create("mymediator", "abc123").unwrap();
    assert_eq!(mid.code(), MemberCode::Mediator);
    assert!(mid.to_proto_primitive().starts_with("MED::"));
}

#[test]
fn test_sequencer_id() {
    let sid = SequencerId::create("mysequencer", "abc123").unwrap();
    assert_eq!(sid.code(), MemberCode::Sequencer);
    assert!(sid.to_proto_primitive().starts_with("SEQ::"));
}

#[test]
fn test_any_member() {
    let par = AnyMember::from_proto_primitive("PAR::node1::abc123").unwrap();
    assert_eq!(par.code(), MemberCode::Participant);

    let med = AnyMember::from_proto_primitive("MED::node2::def456").unwrap();
    assert_eq!(med.code(), MemberCode::Mediator);

    let seq = AnyMember::from_proto_primitive("SEQ::node3::789abc").unwrap();
    assert_eq!(seq.code(), MemberCode::Sequencer);
}

#[test]
fn test_member_code() {
    assert_eq!(MemberCode::Participant.as_str(), "PAR");
    assert_eq!(MemberCode::Mediator.as_str(), "MED");
    assert_eq!(MemberCode::Sequencer.as_str(), "SEQ");

    assert_eq!(MemberCode::parse("PAR").unwrap(), MemberCode::Participant);
    assert!(MemberCode::parse("XXX").is_err());

    assert_eq!(MemberCode::from_str("PAR").unwrap(), MemberCode::Participant);
    assert_eq!("PAR".parse::<MemberCode>().unwrap(), MemberCode::Participant);
}
