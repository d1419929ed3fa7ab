use canton_sequencer_client::member::Member;
use canton_sequencer_client::proto::protocol::enums::TopologyChangeOp;
use canton_sequencer_client::proto::protocol::topology_mapping::Mapping;
use canton_sequencer_client::signing::Ed25519Signer;
use canton_sequencer_client::topology::{
    NamespaceDelegationBuilder, OwnerToKeyMappingBuilder, SynchronizerTrustCertificateBuilder,
    TopologyTransactionBuilder,
};

#[test]
fn test_namespace_delegation_root() {
    let signer = Ed25519Signer::generate();
    let builder = TopologyTransactionBuilder::new(&signer);

    let tx = builder.namespace_delegation_root();
    assert_eq!(tx.operation, TopologyChangeOp::AddReplace as i32);
    assert_eq!(tx.serial, 1);
    assert!(tx.mapping.is_some());

    let mapping = tx.mapping.unwrap();
    match mapping.mapping {
        Some(Mapping::NamespaceDelegation(nsd)) => {
            assert_eq!(nsd.namespace, signer.fingerprint());
            assert!(nsd.target_key.is_some());
        }
        _ => panic!("Expected NamespaceDelegation"),
    }
}

#[test]
fn test_owner_to_key_mapping() {
    let signer = Ed25519Signer::generate();
    let participant = signer.participant_id("test").unwrap();
    let builder = TopologyTransactionBuilder::new(&signer);

    let tx = builder.owner_to_key_mapping(&participant);
    assert_eq!(tx.operation, TopologyChangeOp::AddReplace as i32);

    let mapping = tx.mapping.unwrap();
    match mapping.mapping {
        Some(Mapping::OwnerToKeyMapping(otk)) => {
            assert_eq!(otk.member, participant.to_proto_primitive());
            assert_eq!(otk.public_keys.len(), 1);
        }
        _ => panic!("Expected OwnerToKeyMapping"),
    }
}

#[test]
fn test_synchronizer_trust_certificate() {
    let signer = Ed25519Signer::generate();
    let participant = signer.participant_id("test").unwrap();
    let builder = TopologyTransactionBuilder::new(&signer);

    let tx = builder.synchronizer_trust_certificate(&participant, "sync::abc123");

    let mapping = tx.mapping.unwrap();
    match mapping.mapping {
        Some(Mapping::SynchronizerTrustCertificate(stc)) => {
            assert_eq!(stc.participant_uid, participant.uid().to_string());
            assert_eq!(stc.synchronizer_id, "sync::abc123");
        }
        _ => panic!("Expected SynchronizerTrustCertificate"),
    }
}

#[test]
fn test_sign_transaction() {
    let signer = Ed25519Signer::generate();
    let builder = TopologyTransactionBuilder::new(&signer);

    let tx = builder.namespace_delegation_root();
    let signed = builder.sign(tx);

    assert!(!signed.transaction.is_empty());
    assert_eq!(signed.signatures.len(), 1);
    assert!(!signed.proposal);

    let sig = &signed.signatures[0];
    assert_eq!(sig.signed_by, signer.fingerprint());
    assert_eq!(sig.signature.len(), 64);
}

#[test]
fn test_sign_as_proposal() {
    let signer = Ed25519Signer::generate();
    let builder = TopologyTransactionBuilder::new(&signer);

    let tx = builder.namespace_delegation_root();
    let signed = builder.sign_as_proposal(tx);

    assert!(signed.proposal);
}

#[test]
fn test_onboarding_transactions() {
    let signer = Ed25519Signer::generate();
    let participant = signer.participant_id("test").unwrap();
    let builder = TopologyTransactionBuilder::new(&signer);

    let transactions = builder.onboarding_transactions(&participant, "sync::abc123");

    assert_eq!(transactions.len(), 3);

    for tx in &transactions {
        assert!(!tx.transaction.is_empty());
        assert!(!tx.signatures.is_empty());
        assert!(!tx.proposal);
    }
}

#[test]
fn test_namespace_delegation_builder() {
    let signer = Ed25519Signer::generate();
    let nsd = NamespaceDelegationBuilder::new(&signer.fingerprint(), &signer.public_key_bytes())
        .root()
        .build();

    assert_eq!(nsd.namespace, signer.fingerprint());
    assert!(nsd.is_root_delegation);
}

#[test]
fn test_owner_to_key_mapping_builder() {
    let signer = Ed25519Signer::generate();
    let otk = OwnerToKeyMappingBuilder::new("PAR::test::abc123")
        .with_signing_key(&signer.public_key_bytes())
        .build();

    assert_eq!(otk.member, "PAR::test::abc123");
    assert_eq!(otk.public_keys.len(), 1);
}

#[test]
fn test_synchronizer_trust_certificate_builder() {
    let stc = SynchronizerTrustCertificateBuilder::new("test::abc123", "sync::def456").build();

    assert_eq!(stc.participant_uid, "test::abc123");
    assert_eq!(stc.synchronizer_id, "sync::def456");
}
