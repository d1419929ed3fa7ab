//! Crypto messages (`com.digitalasset.canton.crypto.v30`).
use vstd::prelude::*;

pub mod public_key;

verus! {

/// How the bytes of a signature are laid out.
#[derive(Debug, Clone, Copy, PartialEq, Eq, Structural, Hash)]
pub enum SignatureFormat {
    Unspecified,
    Raw,
    Der,
    /// Concatenation `r || s` in little-endian form (EdDSA).
    Concat,
}

impl SignatureFormat {
    /// The wire value of this format.
    pub fn as_i32(self) -> (n: i32)
        ensures
            n == signature_format_value(self),
    {
        match self {
            SignatureFormat::Unspecified => 0,
            SignatureFormat::Raw => 1,
            SignatureFormat::Der => 2,
            SignatureFormat::Concat => 3,
        }
    }
}

/// The wire value of a signature format.
pub open spec fn signature_format_value(f: SignatureFormat) -> i32 {
    match f {
        SignatureFormat::Unspecified => 0,
        SignatureFormat::Raw => 1,
        SignatureFormat::Der => 2,
        SignatureFormat::Concat => 3,
    }
}

/// The signing algorithm.
#[derive(Debug, Clone, Copy, PartialEq, Eq, Structural, Hash)]
pub enum SigningAlgorithmSpec {
    Unspecified,
    Ed25519,
    EcDsaSha256,
    EcDsaSha384,
}

impl SigningAlgorithmSpec {
    /// The wire value of this algorithm.
    pub fn as_i32(self) -> (n: i32)
        ensures
            n == signing_algorithm_value(self),
    {
        match self {
            SigningAlgorithmSpec::Unspecified => 0,
            SigningAlgorithmSpec::Ed25519 => 1,
            SigningAlgorithmSpec::EcDsaSha256 => 2,
            SigningAlgorithmSpec::EcDsaSha384 => 3,
        }
    }
}

/// The wire value of a signing algorithm.
pub open spec fn signing_algorithm_value(a: SigningAlgorithmSpec) -> i32 {
    match a {
        SigningAlgorithmSpec::Unspecified => 0,
        SigningAlgorithmSpec::Ed25519 => 1,
        SigningAlgorithmSpec::EcDsaSha256 => 2,
        SigningAlgorithmSpec::EcDsaSha384 => 3,
    }
}

/// The curve of a signing key.
#[derive(Debug, Clone, Copy, PartialEq, Eq, Structural, Hash)]
pub enum SigningKeySpec {
    Unspecified,
    EcCurve25519,
    EcP256,
    EcP384,
    EcSecp256k1,
}

impl SigningKeySpec {
    /// The wire value of this key spec.
    pub fn as_i32(self) -> (n: i32)
        ensures
            n == signing_key_spec_value(self),
    {
        match self {
            SigningKeySpec::Unspecified => 0,
            SigningKeySpec::EcCurve25519 => 1,
            SigningKeySpec::EcP256 => 2,
            SigningKeySpec::EcP384 => 3,
            SigningKeySpec::EcSecp256k1 => 4,
        }
    }
}

/// The wire value of a signing key spec.
pub open spec fn signing_key_spec_value(k: SigningKeySpec) -> i32 {
    match k {
        SigningKeySpec::Unspecified => 0,
        SigningKeySpec::EcCurve25519 => 1,
        SigningKeySpec::EcP256 => 2,
        SigningKeySpec::EcP384 => 3,
        SigningKeySpec::EcSecp256k1 => 4,
    }
}

/// The serialization format of a key.
#[derive(Debug, Clone, Copy, PartialEq, Eq, Structural, Hash)]
pub enum CryptoKeyFormat {
    Unspecified,
    Der,
    Raw,
    DerX509SubjectPublicKeyInfo,
    DerPkcs8PrivateKeyInfo,
}

impl CryptoKeyFormat {
    /// The wire value of this key format.
    pub fn as_i32(self) -> (n: i32)
        ensures
            n == crypto_key_format_value(self),
    {
        match self {
            CryptoKeyFormat::Unspecified => 0,
            CryptoKeyFormat::Der => 1,
            CryptoKeyFormat::Raw => 2,
            CryptoKeyFormat::DerX509SubjectPublicKeyInfo => 3,
            CryptoKeyFormat::DerPkcs8PrivateKeyInfo => 4,
        }
    }
}

/// The wire value of a key format.
pub open spec fn crypto_key_format_value(k: CryptoKeyFormat) -> i32 {
    match k {
        CryptoKeyFormat::Unspecified => 0,
        CryptoKeyFormat::Der => 1,
        CryptoKeyFormat::Raw => 2,
        CryptoKeyFormat::DerX509SubjectPublicKeyInfo => 3,
        CryptoKeyFormat::DerPkcs8PrivateKeyInfo => 4,
    }
}

/// What a signing key may be used for.
#[derive(Debug, Clone, Copy, PartialEq, Eq, Structural, Hash)]
pub enum SigningKeyUsage {
    Unspecified,
    Namespace,
    IdentityDelegation,
    SequencerAuthentication,
    Protocol,
    ProofOfOwnership,
}

impl SigningKeyUsage {
    /// The wire value of this usage.
    pub fn as_i32(self) -> (n: i32)
        ensures
            n == signing_key_usage_value(self),
    {
        match self {
            SigningKeyUsage::Unspecified => 0,
            SigningKeyUsage::Namespace => 1,
            SigningKeyUsage::IdentityDelegation => 2,
            SigningKeyUsage::SequencerAuthentication => 3,
            SigningKeyUsage::Protocol => 4,
            SigningKeyUsage::ProofOfOwnership => 5,
        }
    }
}

/// The wire value of a key usage.
pub open spec fn signing_key_usage_value(u: SigningKeyUsage) -> i32 {
    match u {
        SigningKeyUsage::Unspecified => 0,
        SigningKeyUsage::Namespace => 1,
        SigningKeyUsage::IdentityDelegation => 2,
        SigningKeyUsage::SequencerAuthentication => 3,
        SigningKeyUsage::Protocol => 4,
        SigningKeyUsage::ProofOfOwnership => 5,
    }
}

/// A public signing key.
#[derive(Debug, Clone, PartialEq, Eq)]
pub struct SigningPublicKey {
    pub format: i32,
    pub public_key: Vec<u8>,
    /// Deprecated key scheme; 0 when unused.
    pub scheme: i32,
    pub usage: Vec<i32>,
    pub key_spec: i32,
}

/// A public key of any kind.
#[derive(Debug, Clone, PartialEq, Eq)]
pub struct PublicKey {
    pub key: Option<public_key::Key>,
}

/// A delegation of signing authority to a session key.
#[derive(Debug, Clone, PartialEq, Eq)]
pub struct SignatureDelegation {
    pub session_key: Option<SigningPublicKey>,
    pub validity_period_from_inclusive: i64,
    pub validity_period_duration_seconds: u32,
    pub format: i32,
    pub signature: Vec<u8>,
    pub signing_algorithm_spec: i32,
}

/// A signature together with the fingerprint of the key that made it.
#[derive(Debug, Clone, PartialEq, Eq)]
pub struct Signature {
    pub format: i32,
    pub signature: Vec<u8>,
    pub signed_by: String,
    pub signing_algorithm_spec: i32,
    pub signature_delegation: Option<SignatureDelegation>,
}

} // verus!
