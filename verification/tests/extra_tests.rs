use std::str::FromStr;
use canton_sequencer_client::client::{
    authenticate_request, default_handshake_request, logout_request, member_challenge_request,
    traffic_state_request, AuthToken, SynchronizerInfo,
};
use canton_sequencer_client::member::{
    AnyMember, MediatorId, Member, MemberCode, MemberError, Namespace, ParticipantId,
    SequencerId, UniqueIdentifier,
};
use canton_sequencer_client::proto::protocol::{TopologyMapping, TopologyTransaction};
use canton_sequencer_client::proto::protocol::enums::TopologyChangeOp;
use canton_sequencer_client::proto::protocol::namespace_delegation::Restriction;
use canton_sequencer_client::protocol::{ProtocolVersion, ProtocolVersionError};
use canton_sequencer_client::signing::{sha256, Ed25519Signer, SigningError};
use canton_sequencer_client::topology::{
    encode_topology_transaction, NamespaceDelegationBuilder, TopologyTransactionBuilder,
};
use canton_sequencer_client::{AuthenticateResponse, GetSynchronizerIdResponse};

fn hex(s: &str) -> Vec<u8> {
    (0..s.len() / 2).map(|i| u8::from_str_radix(&s[2 * i..2 * i + 2], 16).unwrap()).collect()
}

fn rfc_signer() -> Ed25519Signer {
    let secret: [u8; 32] = hex("9d61b19deffd5a60ba844af492ec2cc44449c5697b326919703bac031cae7f60")
        .try_into()
        .unwrap();
    Ed25519Signer::from_secret_key(&secret).unwrap()
}

const RFC_FINGERPRINT: &str = "21fe31dfa154a261626bf854046fd2271b7bed4b6abe45aa58877ef47f9721b9";

#[test]
fn ed25519_known_vector() {
    let signer = rfc_signer();
    assert_eq!(
        signer.public_key_bytes().to_vec(),
        hex("d75a980182b10ab7d54bfed3c964073a0ee172f3daa62325af021a68f707511a")
    );
    let sig = signer.sign(b"");
    assert_eq!(
        sig.to_vec(),
        hex("e5564300c360ac729086e2cc806e828a84877f1eb8e5d974d873e065224901555fb8821590a33bacc61e39701cf9b46bd25bf5f0595bbe24655141438e7a100b")
    );
    assert!(signer.verify(b"", &sig));
    assert_eq!(signer.fingerprint(), RFC_FINGERPRINT);
}

#[test]
fn secret_key_roundtrip() {
    let signer = rfc_signer();
    let again = Ed25519Signer::from_secret_key(&signer.secret_key_bytes()).unwrap();
    assert_eq!(again.secret_key_bytes(), signer.secret_key_bytes());
    assert_eq!(again.fingerprint(), signer.fingerprint());
    assert_eq!(SigningError::InvalidKey.to_string(), "invalid key bytes");
    assert_eq!(SigningError::InvalidSignature.to_string(), "invalid signature bytes");
}

#[test]
fn sign_then_verify_and_reject_tampering() {
    let signer = rfc_signer();
    let nonce = b"nonce";
    let s = signer.sign_nonce(nonce);
    let bytes: [u8; 64] = s.signature.clone().try_into().unwrap();
    assert!(signer.verify(nonce, &bytes));
    assert_eq!(s.signed_by, RFC_FINGERPRINT);
    assert_eq!(s.format, 3);
    assert_eq!(s.signing_algorithm_spec, 1);
    assert!(s.signature_delegation.is_none());
    let mut tampered = bytes;
    tampered[0] ^= 1;
    assert!(!signer.verify(nonce, &tampered));
}

#[test]
fn sha256_padding_edges() {
    let to_hex = |d: [u8; 32]| d.iter().map(|b| format!("{:02x}", b)).collect::<String>();
    assert_eq!(to_hex(sha256(b"")), "e3b0c44298fc1c149afbf4c8996fb92427ae41e4649b934ca495991b7852b855");
    assert_eq!(to_hex(sha256(&[b'a'; 55])), "9f4390f8d30c2dd92ec9f095b65e2b9ae9b0a925a5258e241c9f1e910f734318");
    assert_eq!(to_hex(sha256(&[b'a'; 56])), "b35439a4ac6f0948b6d6f9e3c6af0f5f590ce20f1bde7090ef7970686ec6738a");
    assert_eq!(to_hex(sha256(&[b'a'; 64])), "ffe054fe7ae0cb6dc65c3af9b61d5209f439851db43d0ba5997337df154668eb");
}

#[test]
fn namespace_errors() {
    assert_eq!(
        Namespace::new("").unwrap_err(),
        MemberError::InvalidFingerprint("fingerprint cannot be empty".to_string())
    );
    assert_eq!(
        Namespace::new("not-hex!").unwrap_err(),
        MemberError::InvalidFingerprint("fingerprint must be hex encoded".to_string())
    );
    assert_eq!(Namespace::new("ABCdef09").unwrap().to_proto_primitive(), "ABCdef09");
}

#[test]
fn identifier_errors_in_order() {
    assert_eq!(UniqueIdentifier::new("", "zz").unwrap_err(), MemberError::EmptyIdentifier);
    let long = "a".repeat(186);
    assert_eq!(UniqueIdentifier::new(&long, "ab").unwrap_err(), MemberError::IdentifierTooLong(186));
    assert!(UniqueIdentifier::new(&"a".repeat(185), "ab").is_ok());
    // Length is counted in bytes: 93 two-byte characters are 186 bytes.
    let wide = "é".repeat(93);
    assert_eq!(UniqueIdentifier::new(&wide, "ab").unwrap_err(), MemberError::IdentifierTooLong(186));
    assert_eq!(
        UniqueIdentifier::new("my::node", "zz").unwrap_err(),
        MemberError::IdentifierContainsDelimiter
    );
    assert_eq!(
        UniqueIdentifier::new("my node", "ab").unwrap_err(),
        MemberError::InvalidIdentifierChars(
            "only alphanumeric, dash, underscore, and dot allowed".to_string()
        )
    );
    assert_eq!(
        UniqueIdentifier::new("node", "xyz").unwrap_err(),
        MemberError::InvalidFingerprint("fingerprint must be hex encoded".to_string())
    );
    assert!(UniqueIdentifier::new("a-b_c.D9", "ab").is_ok());
}

#[test]
fn unique_identifier_splits_at_first_delimiter() {
    assert_eq!(
        UniqueIdentifier::from_proto_primitive("nodelimiter").unwrap_err(),
        MemberError::ParseError(
            "invalid unique identifier 'nodelimiter': expected format 'identifier::fingerprint'"
                .to_string()
        )
    );
    assert_eq!(
        UniqueIdentifier::from_proto_primitive("a::b::c").unwrap_err(),
        MemberError::InvalidFingerprint("fingerprint must be hex encoded".to_string())
    );
    assert_eq!(
        UniqueIdentifier::from_proto_primitive("a:::b").unwrap_err(),
        MemberError::InvalidFingerprint("fingerprint must be hex encoded".to_string())
    );
}

#[test]
fn member_parse_errors() {
    assert_eq!(
        AnyMember::from_proto_primitive("PAR::a:b").unwrap_err(),
        MemberError::ParseError("invalid member 'PAR::a:b': too short".to_string())
    );
    assert_eq!(
        AnyMember::from_proto_primitive("XYZ::node::abc").unwrap_err(),
        MemberError::ParseError("unknown member code: XYZ".to_string())
    );
    assert_eq!(
        AnyMember::from_proto_primitive("PAR:-node::abc").unwrap_err(),
        MemberError::ParseError("expected '::' after member code in 'PAR:-node::abc'".to_string())
    );
    assert_eq!(
        ParticipantId::from_proto_primitive("MED::node::abc").unwrap_err(),
        MemberError::ParseError("expected PAR code, got MED".to_string())
    );
    assert_eq!(
        MediatorId::from_proto_primitive("SEQ::node::abc").unwrap_err(),
        MemberError::ParseError("expected MED code, got SEQ".to_string())
    );
    assert_eq!(
        SequencerId::from_proto_primitive("PAR::node::abc").unwrap_err(),
        MemberError::ParseError("expected SEQ code, got PAR".to_string())
    );
}

#[test]
fn member_string_roundtrip() {
    for s in ["PAR::node1::abc123", "MED::m-1.x::DEAD", "SEQ::s_2::0f"] {
        let m = AnyMember::from_proto_primitive(s).unwrap();
        assert_eq!(m.to_proto_primitive(), s);
        assert_eq!(m.to_string(), s);
        let again = AnyMember::from_proto_primitive(&m.to_proto_primitive()).unwrap();
        assert_eq!(again, m);
    }
    let p = ParticipantId::create("node", "abc").unwrap();
    assert_eq!(ParticipantId::from_proto_primitive(&p.to_proto_primitive()).unwrap(), p);
    let u = UniqueIdentifier::new("node", "abc").unwrap();
    assert_eq!(UniqueIdentifier::from_proto_primitive(&u.to_proto_primitive()).unwrap(), u);
    for c in [MemberCode::Participant, MemberCode::Mediator, MemberCode::Sequencer] {
        assert_eq!(MemberCode::parse(c.as_str()).unwrap(), c);
        assert_eq!(c.to_string(), c.as_str());
    }
}

#[test]
fn error_messages() {
    assert_eq!(MemberError::EmptyIdentifier.to_string(), "identifier cannot be empty");
    assert_eq!(MemberError::IdentifierTooLong(200).to_string(), "identifier too long: 200 > 185");
    assert_eq!(
        MemberError::IdentifierContainsDelimiter.to_string(),
        "identifier cannot contain reserved delimiter '::'"
    );
    assert_eq!(
        MemberError::InvalidIdentifierChars("x".to_string()).to_string(),
        "identifier contains invalid characters: x"
    );
    assert_eq!(MemberError::InvalidFingerprint("y".to_string()).to_string(), "invalid fingerprint: y");
    assert_eq!(MemberError::ParseError("z".to_string()).to_string(), "parse error: z");
    assert_eq!(
        ProtocolVersionError::Unsupported(99).to_string(),
        "protocol version 99 is not supported; supported versions: [34, 35]"
    );
    assert_eq!(
        ProtocolVersionError::Unsupported(-5).to_string(),
        "protocol version -5 is not supported; supported versions: [34, 35]"
    );
    assert_eq!(ProtocolVersion::V35.to_string(), "35");
}

#[test]
fn protocol_version_roundtrip() {
    for v in ProtocolVersion::supported_versions() {
        assert_eq!(ProtocolVersion::try_from(v.as_i32()).unwrap(), v);
    }
    assert_eq!(ProtocolVersion::try_from(0), Err(ProtocolVersionError::Unsupported(0)));
    assert_eq!(ProtocolVersion::supported_versions(), vec![ProtocolVersion::V34, ProtocolVersion::V35]);
}

#[test]
fn signer_member_ids() {
    let signer = rfc_signer();
    let p = signer.participant_id("node").unwrap();
    assert_eq!(p.to_proto_primitive(), format!("PAR::node::{}", RFC_FINGERPRINT));
    let m = signer.mediator_id("med").unwrap();
    assert_eq!(m.to_proto_primitive(), format!("MED::med::{}", RFC_FINGERPRINT));
    let s = signer.sequencer_id("seq").unwrap();
    assert_eq!(s.to_proto_primitive(), format!("SEQ::seq::{}", RFC_FINGERPRINT));
    assert_eq!(signer.participant_id("bad name").unwrap_err(), MemberError::InvalidIdentifierChars(
        "only alphanumeric, dash, underscore, and dot allowed".to_string()
    ));
}

#[test]
fn transaction_encodings() {
    let signer = rfc_signer();
    let builder = TopologyTransactionBuilder::new(&signer);
    assert_eq!(builder.namespace(), RFC_FINGERPRINT);

    let nsd = builder.sign(builder.namespace_delegation_root());
    assert_eq!(nsd.transaction, hex("080110011a730a710a4032316665333164666131353461323631363236626638353430343666643232373162376265643462366162653435616135383837376566343766393732316239122910021a20d75a980182b10ab7d54bfed3c964073a0ee172f3daa62325af021a68f707511a2a0101300118012200"));
    let sig: [u8; 64] = nsd.signatures[0].signature.clone().try_into().unwrap();
    assert!(signer.verify(&nsd.transaction, &sig));

    let participant = signer.participant_id("node").unwrap();
    let otk = builder.sign(builder.owner_to_key_mapping(&participant));
    assert_eq!(otk.transaction, hex("080110011a7d227b0a4b5041523a3a6e6f64653a3a32316665333164666131353461323631363236626638353430343666643232373162376265643462366162653435616135383837376566343766393732316239122c0a2a10021a20d75a980182b10ab7d54bfed3c964073a0ee172f3daa62325af021a68f707511a2a0203043001"));

    let test_participant = ParticipantId::create("test", "abc123").unwrap();
    let stc = builder.sign_as_proposal(builder.synchronizer_trust_certificate(&test_participant, "sync::abc123"));
    assert_eq!(stc.transaction, vec![8, 1, 16, 1, 26, 30, 42, 28, 10, 12, 116, 101, 115, 116, 58, 58, 97, 98, 99, 49, 50, 51, 18, 12, 115, 121, 110, 99, 58, 58, 97, 98, 99, 49, 50, 51]);
    assert!(stc.proposal);

    let all = builder.onboarding_transactions(&participant, "sync::abc123");
    assert_eq!(all[0], nsd);
    assert_eq!(all[1], otk);
}

#[test]
fn negative_and_multibyte_varints() {
    let t = TopologyTransaction { operation: -1, serial: 300, mapping: None };
    assert_eq!(encode_topology_transaction(&t), vec![8, 255, 255, 255, 255, 255, 255, 255, 255, 255, 1, 16, 172, 2]);
    let empty = TopologyTransaction { operation: 0, serial: 0, mapping: None };
    assert!(encode_topology_transaction(&empty).is_empty());
    let signer = rfc_signer();
    let builder = TopologyTransactionBuilder::new(&signer);
    let custom = builder.custom(TopologyChangeOp::Remove, 7, TopologyMapping { mapping: None });
    assert_eq!(custom.operation, 2);
    assert_eq!(encode_topology_transaction(&custom), vec![8, 2, 16, 7, 26, 0]);
}

#[test]
fn non_root_delegation_restriction() {
    let nsd = NamespaceDelegationBuilder::new("abc", &[1, 2, 3]).build();
    assert!(!nsd.is_root_delegation);
    assert!(matches!(nsd.restriction, Some(Restriction::CanSignAllButNamespaceDelegations(_))));
    let root = NamespaceDelegationBuilder::new("abc", &[1, 2, 3]).root().build();
    assert!(matches!(root.restriction, Some(Restriction::CanSignAllMappings(_))));
    assert_eq!(root.target_key.unwrap().public_key, vec![1, 2, 3]);
}

#[test]
fn request_builders() {
    let h = default_handshake_request();
    assert_eq!(h.client_protocol_versions, vec![34]);
    assert_eq!(h.minimum_protocol_version, None);
    let p = ParticipantId::create("node", "abc").unwrap();
    let c = member_challenge_request(&p);
    assert_eq!(c.member, "PAR::node::abc");
    assert_eq!(c.member_protocol_versions, vec![34]);
    let signer = rfc_signer();
    let a = authenticate_request(&p, signer.sign_nonce(b"n"), b"n".to_vec());
    assert_eq!(a.member, "PAR::node::abc");
    assert_eq!(a.nonce, b"n".to_vec());
    assert_eq!(logout_request(vec![9]).token, vec![9]);
    let t = traffic_state_request(&p, 42);
    assert_eq!(t.member, "PAR::node::abc");
    assert_eq!(t.timestamp, 42);
    let token = AuthToken::from_response(AuthenticateResponse { token: vec![1, 2], expires_at: None });
    assert_eq!(token.token, vec![1, 2]);
    let info = SynchronizerInfo::from_response(GetSynchronizerIdResponse {
        physical_synchronizer_id: "sync::1".to_string(),
        sequencer_uid: "seq::2".to_string(),
    });
    assert_eq!(info.physical_synchronizer_id, "sync::1");
    assert_eq!(info.sequencer_uid, "seq::2");
}

#[test]
fn verifying_key_matches_public_key() {
    let signer = rfc_signer();
    assert_eq!(signer.verifying_key().to_bytes(), signer.public_key_bytes());
    let other = Ed25519Signer::from_secret_key(&signer.secret_key_bytes()).unwrap();
    assert_eq!(other.verifying_key(), signer.verifying_key());
}

#[test]
fn member_code_from_str_matches_parse() {
    assert_eq!(MemberCode::from_str("SEQ").unwrap(), MemberCode::Sequencer);
    assert_eq!(MemberCode::from_str("par"), MemberCode::parse("par"));
    assert_eq!(
        MemberCode::from_str("XYZ").unwrap_err(),
        MemberError::ParseError("unknown member code: XYZ".to_string())
    );
}

#[test]
fn cloned_identifiers_and_typed_parsers_agree() {
    let u = UniqueIdentifier::new("node", "abc").unwrap();
    let c = u.clone();
    assert_eq!(c, u);
    assert_eq!(c.to_proto_primitive(), "node::abc");
    let m = MediatorId::create("mymediator", "abc123").unwrap();
    assert_eq!(m.clone(), m);
    for s in ["PAR::a::1", "MED::a::1", "SEQ::a::1", "XYZ::a::1", "PAR::a", "PAR:x::a::1"] {
        let any = AnyMember::from_proto_primitive(s);
        let p = ParticipantId::from_proto_primitive(s);
        let md = MediatorId::from_proto_primitive(s);
        let q = SequencerId::from_proto_primitive(s);
        match &any {
            Ok(AnyMember::Participant(x)) => assert_eq!(p.as_ref().unwrap(), x),
            Ok(AnyMember::Mediator(x)) => assert_eq!(md.as_ref().unwrap(), x),
            Ok(AnyMember::Sequencer(x)) => assert_eq!(q.as_ref().unwrap(), x),
            Err(_) => assert!(p.is_err() && md.is_err() && q.is_err()),
        }
        assert_eq!(any.is_err(), p.is_err() && md.is_err() && q.is_err());
    }
}
