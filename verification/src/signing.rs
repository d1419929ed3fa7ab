//! Ed25519 signing for Canton sequencer authentication.
//!
//! A signer holds a 32-byte Ed25519 secret key. Its fingerprint is the
//! lower-case hex encoding of the SHA-256 hash of its public key, and it is the
//! namespace of the member IDs the signer creates.
use vstd::prelude::*;
use ed25519_dalek::{Signer, Verifier};
use crate::member::{
    lemma_uid_new_valid, res_view, uid_new, valid_fingerprint, valid_uid, MediatorId,
    MemberError, ParticipantId, SequencerId, UidModel,
};
use crate::proto::crypto::{
    signature_format_value, signing_algorithm_value, Signature, SignatureFormat,
    SigningAlgorithmSpec,
};
pub use crate::sha256::sha256;
use crate::sha256::sha256_spec;
use crate::text::{
    hex_lower, hex_value, lemma_hex_lower_decodes, lemma_hex_lower_is_hex, lemma_hex_lower_len,
    to_hex_lower,
};

verus! {

/// Length in bytes of an Ed25519 secret key.
pub const SECRET_KEY_LENGTH: usize = 32;

/// `ed25519_dalek::VerifyingKey`, an opaque Ed25519 public key.
#[verifier::external_type_specification]
#[verifier::external_body]
pub struct ExVerifyingKey(ed25519_dalek::VerifyingKey);

/// The Ed25519 public key (32 bytes) that belongs to a secret key.
pub uninterp spec fn ed25519_public_key(secret: Seq<u8>) -> Seq<u8>;

/// The Ed25519 signature (64 bytes) of a message under a secret key.
pub uninterp spec fn ed25519_signature(secret: Seq<u8>, message: Seq<u8>) -> Seq<u8>;

/// The Ed25519 verifying key that belongs to a secret key.
pub uninterp spec fn ed25519_verifying_key(secret: Seq<u8>) -> ed25519_dalek::VerifyingKey;

/// Whether a 64-byte signature verifies for a message under the public key of a secret key.
pub uninterp spec fn ed25519_verifies(secret: Seq<u8>, message: Seq<u8>, signature: Seq<u8>) -> bool;

/// A fresh secret key from the operating system's random number generator.
///
/// Trusted: calls `ed25519_dalek::SigningKey::generate` with `rand::rngs::OsRng`
/// and returns the key's bytes. Nothing is stated of the bytes: they are random.
#[verifier::external_body]
fn random_secret_key() -> (k: [u8; 32]) {
    ed25519_dalek::SigningKey::generate(&mut rand::rngs::OsRng).to_bytes()
}

/// The public key of a secret key.
///
/// Trusted: calls `ed25519_dalek::SigningKey::verifying_key` on the key made by
/// `SigningKey::from_bytes` and returns `VerifyingKey::to_bytes`. Claims that the
/// result is determined by the secret key alone.
#[verifier::external_body]
fn public_key_of(secret: &[u8; 32]) -> (pk: [u8; 32])
    ensures
        pk@ == ed25519_public_key(secret@),
{
    ed25519_dalek::SigningKey::from_bytes(secret).verifying_key().to_bytes()
}

/// The verifying key of a secret key.
///
/// Trusted: calls `ed25519_dalek::SigningKey::verifying_key` on the key made by
/// `SigningKey::from_bytes`. Claims that the key is determined by the secret key
/// alone; the key itself is opaque, so nothing more is stated of it.
#[verifier::external_body]
fn verifying_key_of(secret: &[u8; 32]) -> (vk: ed25519_dalek::VerifyingKey)
    ensures
        vk == ed25519_verifying_key(secret@),
{
    ed25519_dalek::SigningKey::from_bytes(secret).verifying_key()
}

/// Signs a message.
///
/// Trusted: calls `ed25519_dalek::Signer::sign` on the key made by
/// `SigningKey::from_bytes` and returns `Signature::to_bytes`. Ed25519 signing
/// is deterministic: the result is determined by the key and the message.
#[verifier::external_body]
fn sign_with(secret: &[u8; 32], message: &[u8]) -> (sig: [u8; 64])
    ensures
        sig@ == ed25519_signature(secret@, message@),
{
    ed25519_dalek::SigningKey::from_bytes(secret).sign(message).to_bytes()
}

/// Verifies a signature.
///
/// Trusted: calls `ed25519_dalek::Verifier::verify` on the verifying key of the
/// key made by `SigningKey::from_bytes`, with `Signature::from_bytes` of the
/// given bytes, and reports whether it returned `Ok`. Claims that the result is
/// determined by its arguments, and that a signature that the same key made of
/// the same message verifies (correctness of Ed25519).
#[verifier::external_body]
fn verify_with(secret: &[u8; 32], message: &[u8], signature: &[u8; 64]) -> (ok: bool)
    ensures
        ok == ed25519_verifies(secret@, message@, signature@),
        signature@ == ed25519_signature(secret@, message@) ==> ok,
{
    let sig = ed25519_dalek::Signature::from_bytes(signature);
    ed25519_dalek::SigningKey::from_bytes(secret).verifying_key().verify(message, &sig).is_ok()
}

/// The fingerprint of the key with the given secret: hex of SHA-256 of the public key.
pub open spec fn key_fingerprint(secret: Seq<u8>) -> Seq<char> {
    hex_lower(sha256_spec(ed25519_public_key(secret)))
}

/// The signature object that [`Ed25519Signer::sign_nonce`] builds.
pub open spec fn nonce_signature(s: Signature, secret: Seq<u8>, nonce: Seq<u8>) -> bool {
    &&& s.format == signature_format_value(SignatureFormat::Concat)
    &&& s.signature@ == ed25519_signature(secret, nonce)
    &&& s.signed_by@ == key_fingerprint(secret)
    &&& s.signing_algorithm_spec == signing_algorithm_value(SigningAlgorithmSpec::Ed25519)
    &&& s.signature_delegation is None
}

/// Ed25519 signer for Canton sequencer authentication.
pub struct Ed25519Signer {
    secret: [u8; 32],
}

impl View for Ed25519Signer {
    type V = Seq<u8>;

    closed spec fn view(&self) -> Seq<u8> {
        self.secret@
    }
}

impl Ed25519Signer {
    /// Generates a new random key pair.
    pub fn generate() -> (s: Ed25519Signer)
        ensures
            s@.len() == 32,
    {
        Ed25519Signer { secret: random_secret_key() }
    }

    /// Creates a signer from the 32 bytes of a secret key. Every 32-byte string is
    /// a valid Ed25519 secret key, so this never fails.
    pub fn from_secret_key(secret_key: &[u8; 32]) -> (r: Result<Ed25519Signer, SigningError>)
        ensures
            r matches Ok(s) && s@ == secret_key@,
    {
        Ok(Ed25519Signer { secret: *secret_key })
    }

    /// The public verifying key.
    pub fn verifying_key(&self) -> (vk: ed25519_dalek::VerifyingKey)
        ensures
            vk == ed25519_verifying_key(self@),
    {
        verifying_key_of(&self.secret)
    }

    /// The raw public key bytes.
    pub fn public_key_bytes(&self) -> (pk: [u8; 32])
        ensures
            pk@ == ed25519_public_key(self@),
    {
        public_key_of(&self.secret)
    }

    /// The raw secret key bytes.
    pub fn secret_key_bytes(&self) -> (k: [u8; 32])
        ensures
            k@ == self@,
    {
        self.secret
    }

    /// The key fingerprint: lower-case hex of the SHA-256 hash of the public key.
    pub fn fingerprint(&self) -> (f: String)
        ensures
            f@ == key_fingerprint(self@),
    {
        let public_key = self.public_key_bytes();
        let hash = sha256(&public_key);
        to_hex_lower(&hash)
    }

    /// Signs raw bytes; returns the 64-byte signature `R || S`.
    pub fn sign(&self, message: &[u8]) -> (sig: [u8; 64])
        ensures
            sig@ == ed25519_signature(self@, message@),
    {
        sign_with(&self.secret, message)
    }

    /// Signs a nonce and returns a Canton signature object.
    pub fn sign_nonce(&self, nonce: &[u8]) -> (s: Signature)
        ensures
            nonce_signature(s, self@, nonce@),
    {
        let sig_bytes = self.sign(nonce);
        let mut bytes: Vec<u8> = Vec::new();
        for i in 0..64
            invariant
                bytes@ == sig_bytes@.take(i as int),
        {
            bytes.push(sig_bytes[i]);
            assert(sig_bytes@.take(i + 1) =~= sig_bytes@.take(i as int).push(sig_bytes@[i as int]));
        }
        assert(sig_bytes@.take(64) =~= sig_bytes@);
        Signature {
            format: SignatureFormat::Concat.as_i32(),
            signature: bytes,
            signed_by: self.fingerprint(),
            signing_algorithm_spec: SigningAlgorithmSpec::Ed25519.as_i32(),
            signature_delegation: None,
        }
    }

    /// Verifies a signature against a message. A signature that [`Self::sign`]
    /// made of the same message always verifies.
    pub fn verify(&self, message: &[u8], signature: &[u8; 64]) -> (ok: bool)
        ensures
            ok == ed25519_verifies(self@, message@, signature@),
            signature@ == ed25519_signature(self@, message@) ==> ok,
    {
        verify_with(&self.secret, message, signature)
    }

    /// A participant ID in the namespace of this signer's key.
    pub fn participant_id(&self, identifier: &str) -> (r: Result<ParticipantId, MemberError>)
        ensures
            res_view(r) == uid_new(identifier@, key_fingerprint(self@)),
    {
        let f = self.fingerprint();
        ParticipantId::create(identifier, f.as_str())
    }

    /// A mediator ID in the namespace of this signer's key.
    pub fn mediator_id(&self, identifier: &str) -> (r: Result<MediatorId, MemberError>)
        ensures
            res_view(r) == uid_new(identifier@, key_fingerprint(self@)),
    {
        let f = self.fingerprint();
        MediatorId::create(identifier, f.as_str())
    }

    /// A sequencer ID in the namespace of this signer's key.
    pub fn sequencer_id(&self, identifier: &str) -> (r: Result<SequencerId, MemberError>)
        ensures
            res_view(r) == uid_new(identifier@, key_fingerprint(self@)),
    {
        let f = self.fingerprint();
        SequencerId::create(identifier, f.as_str())
    }
}

/// Every key fingerprint is 64 hex characters, so it is a valid namespace, and
/// reading it as hex gives back the SHA-256 hash of the public key.
pub proof fn lemma_fingerprint_valid(secret: Seq<u8>)
    ensures
        key_fingerprint(secret).len() == 64,
        valid_fingerprint(key_fingerprint(secret)),
        forall|i: int|
            0 <= i < 32 ==> 16 * hex_value(key_fingerprint(secret)[2 * i]) + hex_value(
                key_fingerprint(secret)[2 * i + 1],
            ) == #[trigger] sha256_spec(ed25519_public_key(secret))[i],
{
    let h = sha256_spec(ed25519_public_key(secret));
    assert(h.len() == 32);
    lemma_hex_lower_len(h);
    lemma_hex_lower_is_hex(h);
    lemma_hex_lower_decodes(h);
}

/// A signer's member IDs are refused for their identifier alone: the unique
/// identifier in the namespace of a key is made exactly when it is well formed,
/// and then it holds the given identifier and the key's fingerprint.
pub proof fn lemma_signer_uid(secret: Seq<u8>, identifier: Seq<char>)
    ensures
        uid_new(identifier, key_fingerprint(secret)) is Ok <==> valid_uid(
            UidModel { identifier, fingerprint: key_fingerprint(secret) },
        ),
        uid_new(identifier, key_fingerprint(secret)) matches Ok(u) ==> u == (UidModel {
            identifier,
            fingerprint: key_fingerprint(secret),
        }),
{
    lemma_fingerprint_valid(secret);
    lemma_uid_new_valid(identifier, key_fingerprint(secret));
}

/// Error type for signing operations.
#[derive(Debug, Clone, Copy, PartialEq, Eq, Structural)]
pub enum SigningError {
    /// The provided key bytes are invalid.
    InvalidKey,
    /// The provided signature bytes are invalid.
    InvalidSignature,
}

impl SigningError {
    /// The human-readable message of this error.
    pub fn to_string(&self) -> (s: String)
        ensures
            s@ == match self {
                SigningError::InvalidKey => "invalid key bytes"@,
                SigningError::InvalidSignature => "invalid signature bytes"@,
            },
    {
        match self {
            SigningError::InvalidKey => String::from_str("invalid key bytes"),
            SigningError::InvalidSignature => String::from_str("invalid signature bytes"),
        }
    }
}

} // verus!
