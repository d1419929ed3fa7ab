use canton_sequencer_client::signing::{sha256, Ed25519Signer};
use canton_sequencer_client::{SignatureFormat, SigningAlgorithmSpec};

#[test]
fn test_generate_and_sign() {
    let signer = Ed25519Signer::generate();
    let message = b"test message";
    let signature = signer.sign(message);

    assert_eq!(signature.len(), 64);
    assert!(signer.verify(message, &signature));
}

#[test]
fn test_sign_nonce() {
    let signer = Ed25519Signer::generate();
    let nonce = b"challenge-nonce";
    let signature = signer.sign_nonce(nonce);

    assert_eq!(signature.format, SignatureFormat::Concat as i32);
    assert_eq!(signature.signing_algorithm_spec, SigningAlgorithmSpec::Ed25519 as i32);
    assert_eq!(signature.signature.len(), 64);
    assert!(!signature.signed_by.is_empty());
}

#[test]
fn test_fingerprint() {
    let signer = Ed25519Signer::generate();
    let fingerprint = signer.fingerprint();

    assert_eq!(fingerprint.len(), 64);
    assert_eq!(fingerprint, signer.fingerprint());
}

#[test]
fn test_from_secret_key() {
    let signer1 = Ed25519Signer::generate();
    let secret_bytes = signer1.secret_key_bytes();

    let signer2 = Ed25519Signer::from_secret_key(&secret_bytes).unwrap();

    assert_eq!(signer1.fingerprint(), signer2.fingerprint());

    let message = b"test";
    assert_eq!(signer1.sign(message), signer2.sign(message));
}

#[test]
fn test_public_key_bytes() {
    let signer = Ed25519Signer::generate();
    let public_key = signer.public_key_bytes();

    assert_eq!(public_key.len(), 32);
}

#[test]
fn test_verify_wrong_message() {
    let signer = Ed25519Signer::generate();
    let message1 = b"message 1";
    let message2 = b"message 2";
    let signature = signer.sign(message1);

    assert!(!signer.verify(message2, &signature));
}

#[test]
fn test_sha256_known_value() {
    let hash = sha256(b"abc");
    let expected = [
        0xba, 0x78, 0x16, 0xbf, 0x8f, 0x01, 0xcf, 0xea,
        0x41, 0x41, 0x40, 0xde, 0x5d, 0xae, 0x22, 0x23,
        0xb0, 0x03, 0x61, 0xa3, 0x96, 0x17, 0x7a, 0x9c,
        0xb4, 0x10, 0xff, 0x61, 0xf2, 0x00, 0x15, 0xad,
    ];
    assert_eq!(hash, expected);
}
