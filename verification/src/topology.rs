//! Topology transactions for participant onboarding.
//!
//! Three transactions onboard a participant:
//! 1. a root **namespace delegation**, which makes the signer's key the root
//!    authority of its namespace;
//! 2. an **owner-to-key mapping**, which maps the member to the signer's key;
//! 3. a **synchronizer trust certificate**, in which the participant declares
//!    that it trusts a synchronizer.
//!
//! A transaction is signed over its protocol buffer encoding.
use vstd::prelude::*;
use crate::member::{member_str, uid_str, Member};
use crate::proto::crypto::public_key::Key;
use crate::proto::crypto::{
    crypto_key_format_value, signing_key_spec_value, signing_key_usage_value, CryptoKeyFormat,
    PublicKey, Signature, SigningKeySpec, SigningKeyUsage, SigningPublicKey,
};
use crate::proto::protocol::enums::{topology_change_op_value, TopologyChangeOp};
use crate::proto::protocol::namespace_delegation::{
    CanSignAllButNamespaceDelegations, CanSignAllMappings, Restriction,
};
use crate::proto::protocol::topology_mapping::Mapping;
use crate::proto::protocol::{
    NamespaceDelegation, OwnerToKeyMapping, SignedTopologyTransaction,
    SynchronizerTrustCertificate, TopologyMapping, TopologyTransaction,
};
use crate::signing::{ed25519_public_key, key_fingerprint, nonce_signature, Ed25519Signer};
use crate::wire::{
    bool_field, bytes_field, int32_field, len_delimited, packed_int32_field, put_bool_field,
    put_bytes_field, put_int32_field, put_len_delimited, put_packed_int32_field,
    put_string_field, put_uint32_field, string_field, uint32_field,
};

verus! {

// ---------------------------------------------------------------------------
// Encoding
// ---------------------------------------------------------------------------

/// Encoding of a `SigningPublicKey` (fields: format 2, public_key 3, scheme 4,
/// usage 5, key_spec 6).
pub open spec fn signing_public_key_bytes(k: SigningPublicKey) -> Seq<u8> {
    int32_field(2, k.format) + bytes_field(3, k.public_key@) + int32_field(4, k.scheme)
        + packed_int32_field(5, k.usage@) + int32_field(6, k.key_spec)
}

/// Encoding of a `PublicKey` (oneof key: signing_public_key 1).
pub open spec fn public_key_bytes(pk: PublicKey) -> Seq<u8> {
    match pk.key {
        None => seq![],
        Some(Key::SigningPublicKey(k)) => len_delimited(1, signing_public_key_bytes(k)),
    }
}

/// Encoding of the repeated `public_keys` field (2) of an owner-to-key mapping.
pub open spec fn public_keys_bytes(ks: Seq<PublicKey>) -> Seq<u8>
    decreases ks.len(),
{
    if ks.len() == 0 {
        seq![]
    } else {
        public_keys_bytes(ks.drop_last()) + len_delimited(2, public_key_bytes(ks.last()))
    }
}

/// The repeated `public_keys` field encodes each key in order, one entry per
/// key: the encoding of a list is the encodings of its parts one after the
/// other, and a single key is one length-delimited entry holding its encoding.
pub proof fn lemma_public_keys_bytes_concat(a: Seq<PublicKey>, b: Seq<PublicKey>)
    ensures
        public_keys_bytes(a + b) == public_keys_bytes(a) + public_keys_bytes(b),
        forall|k: PublicKey|
            #[trigger] public_keys_bytes(seq![k]) == len_delimited(2, public_key_bytes(k)),
    decreases b.len(),
{
    assert forall|k: PublicKey| #[trigger]
        public_keys_bytes(seq![k]) == len_delimited(2, public_key_bytes(k)) by {
        assert(seq![k].drop_last() =~= Seq::<PublicKey>::empty());
        assert(seq![k].drop_last().len() == 0);
        assert(public_keys_bytes(seq![k].drop_last()) =~= Seq::<u8>::empty());
        assert(seq![k].last() == k);
        assert(Seq::<u8>::empty() + len_delimited(2, public_key_bytes(k)) =~= len_delimited(
            2,
            public_key_bytes(k),
        ));
    }
    if b.len() == 0 {
        assert(a + b =~= a);
        assert(public_keys_bytes(a) + public_keys_bytes(b) =~= public_keys_bytes(a));
    } else {
        lemma_public_keys_bytes_concat(a, b.drop_last());
        assert((a + b).drop_last() =~= a + b.drop_last());
        assert((a + b).last() == b.last());
        assert(public_keys_bytes(a + b) =~= public_keys_bytes(a) + public_keys_bytes(b));
    }
}

/// The `i`-th entry of the `public_keys` encoding holds the encoding of the
/// `i`-th key: the field is the first `i` entries, then that key's entry, then
/// the entries of the keys after it.
pub proof fn lemma_public_keys_entry(ks: Seq<PublicKey>, i: int)
    requires
        0 <= i < ks.len(),
    ensures
        public_keys_bytes(ks) == public_keys_bytes(ks.take(i)) + len_delimited(
            2,
            public_key_bytes(ks[i]),
        ) + public_keys_bytes(ks.skip(i + 1)),
{
    lemma_public_keys_bytes_concat(ks.take(i), ks.skip(i));
    assert(ks =~= ks.take(i) + ks.skip(i));
    lemma_public_keys_bytes_concat(seq![ks[i]], ks.skip(i + 1));
    assert(ks.skip(i) =~= seq![ks[i]] + ks.skip(i + 1));
    assert(public_keys_bytes(seq![ks[i]]) == len_delimited(2, public_key_bytes(ks[i])));
}

/// Encoding of a `NamespaceDelegation` (fields: namespace 1, target_key 2,
/// is_root_delegation 3; oneof restriction: can_sign_all_mappings 4,
/// can_sign_all_but_namespace_delegations 5).
pub open spec fn namespace_delegation_bytes(n: NamespaceDelegation) -> Seq<u8> {
    string_field(1, n.namespace@) + match n.target_key {
        None => seq![],
        Some(k) => len_delimited(2, signing_public_key_bytes(k)),
    } + bool_field(3, n.is_root_delegation) + match n.restriction {
        None => seq![],
        Some(Restriction::CanSignAllMappings(_)) => len_delimited(4, seq![]),
        Some(Restriction::CanSignAllButNamespaceDelegations(_)) => len_delimited(5, seq![]),
    }
}

/// Encoding of an `OwnerToKeyMapping` (fields: member 1, public_keys 2).
pub open spec fn owner_to_key_mapping_bytes(o: OwnerToKeyMapping) -> Seq<u8> {
    string_field(1, o.member@) + public_keys_bytes(o.public_keys@)
}

/// Encoding of a `SynchronizerTrustCertificate` (fields: participant_uid 1,
/// synchronizer_id 2).
pub open spec fn trust_certificate_bytes(s: SynchronizerTrustCertificate) -> Seq<u8> {
    string_field(1, s.participant_uid@) + string_field(2, s.synchronizer_id@)
}

/// Encoding of a `TopologyMapping` (oneof mapping: namespace_delegation 1,
/// owner_to_key_mapping 4, synchronizer_trust_certificate 5).
pub open spec fn topology_mapping_bytes(m: TopologyMapping) -> Seq<u8> {
    match m.mapping {
        None => seq![],
        Some(Mapping::NamespaceDelegation(n)) => len_delimited(1, namespace_delegation_bytes(n)),
        Some(Mapping::OwnerToKeyMapping(o)) => len_delimited(4, owner_to_key_mapping_bytes(o)),
        Some(Mapping::SynchronizerTrustCertificate(s)) => len_delimited(
            5,
            trust_certificate_bytes(s),
        ),
    }
}

/// Encoding of a `TopologyTransaction` (fields: operation 1, serial 2, mapping 3).
pub open spec fn topology_transaction_bytes(t: TopologyTransaction) -> Seq<u8> {
    int32_field(1, t.operation) + uint32_field(2, t.serial) + match t.mapping {
        None => seq![],
        Some(m) => len_delimited(3, topology_mapping_bytes(m)),
    }
}

fn encode_signing_public_key(k: &SigningPublicKey) -> (b: Vec<u8>)
    ensures
        b@ == signing_public_key_bytes(*k),
{
    let mut b: Vec<u8> = Vec::new();
    put_int32_field(2, k.format, &mut b);
    put_bytes_field(3, k.public_key.as_slice(), &mut b);
    put_int32_field(4, k.scheme, &mut b);
    put_packed_int32_field(5, k.usage.as_slice(), &mut b);
    put_int32_field(6, k.key_spec, &mut b);
    assert(b@ =~= signing_public_key_bytes(*k));
    b
}

fn encode_public_key(pk: &PublicKey) -> (b: Vec<u8>)
    ensures
        b@ == public_key_bytes(*pk),
{
    let mut b: Vec<u8> = Vec::new();
    match &pk.key {
        None => {},
        Some(Key::SigningPublicKey(k)) => {
            let body = encode_signing_public_key(k);
            put_len_delimited(1, body.as_slice(), &mut b);
        },
    }
    assert(b@ =~= public_key_bytes(*pk));
    b
}

fn encode_namespace_delegation(n: &NamespaceDelegation) -> (b: Vec<u8>)
    ensures
        b@ == namespace_delegation_bytes(*n),
{
    let mut b: Vec<u8> = Vec::new();
    put_string_field(1, n.namespace.as_str(), &mut b);
    match &n.target_key {
        None => {},
        Some(k) => {
            let body = encode_signing_public_key(k);
            put_len_delimited(2, body.as_slice(), &mut b);
        },
    }
    put_bool_field(3, n.is_root_delegation, &mut b);
    let empty: Vec<u8> = Vec::new();
    match &n.restriction {
        None => {},
        Some(Restriction::CanSignAllMappings(_)) => {
            put_len_delimited(4, empty.as_slice(), &mut b);
        },
        Some(Restriction::CanSignAllButNamespaceDelegations(_)) => {
            put_len_delimited(5, empty.as_slice(), &mut b);
        },
    }
    assert(b@ =~= namespace_delegation_bytes(*n));
    b
}

fn encode_owner_to_key_mapping(o: &OwnerToKeyMapping) -> (b: Vec<u8>)
    ensures
        b@ == owner_to_key_mapping_bytes(*o),
{
    let mut b: Vec<u8> = Vec::new();
    put_string_field(1, o.member.as_str(), &mut b);
    let ghost start = b@;
    let n = o.public_keys.len();
    for i in 0..n
        invariant
            n == o.public_keys@.len(),
            b@ == start + public_keys_bytes(o.public_keys@.take(i as int)),
    {
        let body = encode_public_key(&o.public_keys[i]);
        put_len_delimited(2, body.as_slice(), &mut b);
        assert(o.public_keys@.take(i + 1).drop_last() =~= o.public_keys@.take(i as int));
        assert(b@ =~= start + public_keys_bytes(o.public_keys@.take(i + 1)));
    }
    assert(o.public_keys@.take(n as int) =~= o.public_keys@);
    assert(b@ =~= owner_to_key_mapping_bytes(*o));
    b
}

fn encode_trust_certificate(s: &SynchronizerTrustCertificate) -> (b: Vec<u8>)
    ensures
        b@ == trust_certificate_bytes(*s),
{
    let mut b: Vec<u8> = Vec::new();
    put_string_field(1, s.participant_uid.as_str(), &mut b);
    put_string_field(2, s.synchronizer_id.as_str(), &mut b);
    assert(b@ =~= trust_certificate_bytes(*s));
    b
}

fn encode_topology_mapping(m: &TopologyMapping) -> (b: Vec<u8>)
    ensures
        b@ == topology_mapping_bytes(*m),
{
    let mut b: Vec<u8> = Vec::new();
    match &m.mapping {
        None => {},
        Some(Mapping::NamespaceDelegation(n)) => {
            let body = encode_namespace_delegation(n);
            put_len_delimited(1, body.as_slice(), &mut b);
        },
        Some(Mapping::OwnerToKeyMapping(o)) => {
            let body = encode_owner_to_key_mapping(o);
            put_len_delimited(4, body.as_slice(), &mut b);
        },
        Some(Mapping::SynchronizerTrustCertificate(s)) => {
            let body = encode_trust_certificate(s);
            put_len_delimited(5, body.as_slice(), &mut b);
        },
    }
    assert(b@ =~= topology_mapping_bytes(*m));
    b
}

/// Encodes a topology transaction in the protocol buffer wire format.
pub fn encode_topology_transaction(t: &TopologyTransaction) -> (b: Vec<u8>)
    ensures
        b@ == topology_transaction_bytes(*t),
{
    let mut b: Vec<u8> = Vec::new();
    put_int32_field(1, t.operation, &mut b);
    put_uint32_field(2, t.serial, &mut b);
    match &t.mapping {
        None => {},
        Some(m) => {
            let body = encode_topology_mapping(m);
            put_len_delimited(3, body.as_slice(), &mut b);
        },
    }
    assert(b@ =~= topology_transaction_bytes(*t));
    b
}

// ---------------------------------------------------------------------------
// Shapes of the transactions built here
// ---------------------------------------------------------------------------

/// Key usages of a namespace key.
pub open spec fn namespace_key_usage() -> Seq<i32> {
    seq![signing_key_usage_value(SigningKeyUsage::Namespace)]
}

/// Key usages of a member's key: sequencer authentication and protocol signing.
pub open spec fn member_key_usage() -> Seq<i32> {
    seq![
        signing_key_usage_value(SigningKeyUsage::SequencerAuthentication),
        signing_key_usage_value(SigningKeyUsage::Protocol),
    ]
}

/// A raw Curve25519 signing key with the given bytes and usages.
pub open spec fn is_raw_ed25519_key(k: SigningPublicKey, key: Seq<u8>, usage: Seq<i32>) -> bool {
    &&& k.format == crypto_key_format_value(CryptoKeyFormat::Raw)
    &&& k.public_key@ == key
    &&& k.scheme == 0
    &&& k.usage@ == usage
    &&& k.key_spec == signing_key_spec_value(SigningKeySpec::EcCurve25519)
}

/// A public key that is a raw Curve25519 signing key with the given bytes and usages.
pub open spec fn is_raw_ed25519_public_key(pk: PublicKey, key: Seq<u8>, usage: Seq<i32>) -> bool {
    pk.key matches Some(Key::SigningPublicKey(k)) && is_raw_ed25519_key(k, key, usage)
}

/// An add-or-replace transaction with serial 1 whose mapping satisfies nothing more yet.
pub open spec fn is_first_add(t: TopologyTransaction) -> bool {
    &&& t.operation == topology_change_op_value(TopologyChangeOp::AddReplace)
    &&& t.serial == 1
}

/// The root namespace delegation of the key with the given secret.
pub open spec fn is_root_delegation_tx(t: TopologyTransaction, secret: Seq<u8>) -> bool {
    &&& is_first_add(t)
    &&& t.mapping matches Some(m)
    &&& m.mapping matches Some(Mapping::NamespaceDelegation(n))
    &&& n.namespace@ == key_fingerprint(secret)
    &&& n.target_key matches Some(k)
    &&& is_raw_ed25519_key(k, ed25519_public_key(secret), namespace_key_usage())
    &&& n.is_root_delegation
    &&& n.restriction == Some(Restriction::CanSignAllMappings(CanSignAllMappings {}))
}

/// The mapping of a member (given by its proto primitive form) to the key with the given secret.
pub open spec fn is_owner_to_key_tx(t: TopologyTransaction, member: Seq<char>, secret: Seq<u8>) -> bool {
    &&& is_first_add(t)
    &&& t.mapping matches Some(m)
    &&& m.mapping matches Some(Mapping::OwnerToKeyMapping(o))
    &&& o.member@ == member
    &&& o.public_keys@.len() == 1
    &&& is_raw_ed25519_public_key(o.public_keys@[0], ed25519_public_key(secret), member_key_usage())
}

/// A participant's trust certificate for a synchronizer.
pub open spec fn is_trust_certificate_tx(
    t: TopologyTransaction,
    participant_uid: Seq<char>,
    synchronizer_id: Seq<char>,
) -> bool {
    &&& is_first_add(t)
    &&& t.mapping matches Some(m)
    &&& m.mapping matches Some(Mapping::SynchronizerTrustCertificate(c))
    &&& c.participant_uid@ == participant_uid
    &&& c.synchronizer_id@ == synchronizer_id
}

/// `s` is `t` encoded and signed once with the key of the given secret.
pub open spec fn is_signed_by(
    s: SignedTopologyTransaction,
    t: TopologyTransaction,
    secret: Seq<u8>,
    proposal: bool,
) -> bool {
    &&& s.transaction@ == topology_transaction_bytes(t)
    &&& s.signatures@.len() == 1
    &&& nonce_signature(s.signatures@[0], secret, topology_transaction_bytes(t))
    &&& s.proposal == proposal
}

fn raw_ed25519_key(key: &[u8], usage: Vec<i32>) -> (k: SigningPublicKey)
    ensures
        is_raw_ed25519_key(k, key@, usage@),
{
    let mut bytes: Vec<u8> = Vec::new();
    let n = key.len();
    for i in 0..n
        invariant
            n == key@.len(),
            bytes@ == key@.take(i as int),
    {
        bytes.push(key[i]);
        assert(key@.take(i + 1) =~= key@.take(i as int).push(key@[i as int]));
    }
    assert(key@.take(n as int) =~= key@);
    SigningPublicKey {
        format: CryptoKeyFormat::Raw.as_i32(),
        public_key: bytes,
        scheme: 0,
        usage,
        key_spec: SigningKeySpec::EcCurve25519.as_i32(),
    }
}

fn namespace_usage_vec() -> (v: Vec<i32>)
    ensures
        v@ == namespace_key_usage(),
{
    let mut v = Vec::new();
    v.push(SigningKeyUsage::Namespace.as_i32());
    assert(v@ =~= namespace_key_usage());
    v
}

fn member_usage_vec() -> (v: Vec<i32>)
    ensures
        v@ == member_key_usage(),
{
    let mut v = Vec::new();
    v.push(SigningKeyUsage::SequencerAuthentication.as_i32());
    v.push(SigningKeyUsage::Protocol.as_i32());
    assert(v@ =~= member_key_usage());
    v
}

// ---------------------------------------------------------------------------
// TopologyTransactionBuilder
// ---------------------------------------------------------------------------

/// Builds and signs topology transactions with one signer.
pub struct TopologyTransactionBuilder<'a> {
    signer: &'a Ed25519Signer,
}

impl<'a> View for TopologyTransactionBuilder<'a> {
    /// The secret key of the signer.
    type V = Seq<u8>;

    closed spec fn view(&self) -> Seq<u8> {
        self.signer@
    }
}

impl<'a> TopologyTransactionBuilder<'a> {
    /// Creates a builder that signs with `signer`.
    pub fn new(signer: &'a Ed25519Signer) -> (b: TopologyTransactionBuilder<'a>)
        ensures
            b@ == signer@,
    {
        TopologyTransactionBuilder { signer }
    }

    /// The namespace: the fingerprint of the signer's key.
    pub fn namespace(&self) -> (r: String)
        ensures
            r@ == key_fingerprint(self@),
    {
        self.signer.fingerprint()
    }

    /// The root namespace delegation: the signer's key becomes the root authority
    /// of its namespace and may sign all mappings.
    pub fn namespace_delegation_root(&self) -> (t: TopologyTransaction)
        ensures
            is_root_delegation_tx(t, self@),
    {
        let public_key = self.signer.public_key_bytes();
        let target_key = raw_ed25519_key(&public_key, namespace_usage_vec());
        let nsd = NamespaceDelegation {
            namespace: self.namespace(),
            target_key: Some(target_key),
            is_root_delegation: true,
            restriction: Some(Restriction::CanSignAllMappings(CanSignAllMappings {})),
        };
        TopologyTransaction {
            operation: TopologyChangeOp::AddReplace.as_i32(),
            serial: 1,
            mapping: Some(TopologyMapping { mapping: Some(Mapping::NamespaceDelegation(nsd)) }),
        }
    }

    /// Maps `member` to the signer's key, for sequencer authentication and
    /// protocol signing.
    pub fn owner_to_key_mapping<M: Member>(&self, member: &M) -> (t: TopologyTransaction)
        ensures
            is_owner_to_key_tx(t, member_str(member.member_code(), member.member_uid()), self@),
    {
        let public_key = self.signer.public_key_bytes();
        let signing_key = raw_ed25519_key(&public_key, member_usage_vec());
        let public_key = PublicKey { key: Some(Key::SigningPublicKey(signing_key)) };
        let mut public_keys = Vec::new();
        public_keys.push(public_key);
        let otk = OwnerToKeyMapping { member: member.to_proto_primitive(), public_keys };
        TopologyTransaction {
            operation: TopologyChangeOp::AddReplace.as_i32(),
            serial: 1,
            mapping: Some(TopologyMapping { mapping: Some(Mapping::OwnerToKeyMapping(otk)) }),
        }
    }

    /// The participant's declaration that it trusts the given synchronizer.
    pub fn synchronizer_trust_certificate<M: Member>(
        &self,
        participant: &M,
        synchronizer_id: &str,
    ) -> (t: TopologyTransaction)
        ensures
            is_trust_certificate_tx(t, uid_str(participant.member_uid()), synchronizer_id@),
    {
        let stc = SynchronizerTrustCertificate {
            participant_uid: participant.uid().to_string(),
            synchronizer_id: String::from_str(synchronizer_id),
        };
        TopologyTransaction {
            operation: TopologyChangeOp::AddReplace.as_i32(),
            serial: 1,
            mapping: Some(
                TopologyMapping { mapping: Some(Mapping::SynchronizerTrustCertificate(stc)) },
            ),
        }
    }

    /// A transaction with the given operation, serial and mapping.
    pub fn custom(&self, operation: TopologyChangeOp, serial: u32, mapping: TopologyMapping) -> (t:
        TopologyTransaction)
        ensures
            t.operation == topology_change_op_value(operation),
            t.serial == serial,
            t.mapping == Some(mapping),
    {
        TopologyTransaction { operation: operation.as_i32(), serial, mapping: Some(mapping) }
    }

    /// Encodes the transaction and signs the encoding with the signer's key.
    pub fn sign(&self, transaction: TopologyTransaction) -> (s: SignedTopologyTransaction)
        ensures
            is_signed_by(s, transaction, self@, false),
    {
        let transaction_bytes = encode_topology_transaction(&transaction);
        let sig = self.signer.sign_nonce(transaction_bytes.as_slice());
        let mut signatures: Vec<Signature> = Vec::new();
        signatures.push(sig);
        SignedTopologyTransaction { transaction: transaction_bytes, signatures, proposal: false }
    }

    /// Like [`Self::sign`], but marks the result as a proposal (not yet fully authorized).
    pub fn sign_as_proposal(&self, transaction: TopologyTransaction) -> (s:
        SignedTopologyTransaction)
        ensures
            is_signed_by(s, transaction, self@, true),
    {
        let mut signed = self.sign(transaction);
        signed.proposal = true;
        signed
    }

    /// The three signed onboarding transactions of a participant: the root
    /// namespace delegation, the owner-to-key mapping and the synchronizer trust
    /// certificate, in that order.
    pub fn onboarding_transactions<M: Member>(&self, participant: &M, synchronizer_id: &str) -> (r:
        Vec<SignedTopologyTransaction>)
        ensures
            r@.len() == 3,
            exists|t: TopologyTransaction|
                is_root_delegation_tx(t, self@) && #[trigger] is_signed_by(r@[0], t, self@, false),
            exists|t: TopologyTransaction|
                is_owner_to_key_tx(t, member_str(participant.member_code(), participant.member_uid()), self@)
                    && #[trigger] is_signed_by(r@[1], t, self@, false),
            exists|t: TopologyTransaction|
                is_trust_certificate_tx(t, uid_str(participant.member_uid()), synchronizer_id@)
                    && #[trigger] is_signed_by(r@[2], t, self@, false),
    {
        let t0 = self.namespace_delegation_root();
        let t1 = self.owner_to_key_mapping(participant);
        let t2 = self.synchronizer_trust_certificate(participant, synchronizer_id);
        let ghost (g0, g1, g2) = (t0, t1, t2);
        let mut r = Vec::new();
        r.push(self.sign(t0));
        r.push(self.sign(t1));
        r.push(self.sign(t2));
        assert(is_signed_by(r@[0], g0, self@, false));
        assert(is_signed_by(r@[1], g1, self@, false));
        assert(is_signed_by(r@[2], g2, self@, false));
        r
    }
}

// ---------------------------------------------------------------------------
// Builders of single mappings
// ---------------------------------------------------------------------------

/// Builder of a namespace delegation.
pub struct NamespaceDelegationBuilder {
    namespace: String,
    target_key: SigningPublicKey,
    is_root: bool,
}

impl View for NamespaceDelegationBuilder {
    /// The namespace, the target key and whether the delegation is a root delegation.
    type V = (Seq<char>, SigningPublicKey, bool);

    closed spec fn view(&self) -> (Seq<char>, SigningPublicKey, bool) {
        (self.namespace@, self.target_key, self.is_root)
    }
}

impl NamespaceDelegationBuilder {
    /// A non-root delegation of `namespace` to the raw Curve25519 key `target_key_bytes`.
    pub fn new(namespace: &str, target_key_bytes: &[u8]) -> (b: NamespaceDelegationBuilder)
        ensures
            b@.0 == namespace@,
            is_raw_ed25519_key(b@.1, target_key_bytes@, namespace_key_usage()),
            !b@.2,
    {
        NamespaceDelegationBuilder {
            namespace: String::from_str(namespace),
            target_key: raw_ed25519_key(target_key_bytes, namespace_usage_vec()),
            is_root: false,
        }
    }

    /// Marks the delegation as a root delegation.
    pub fn root(self) -> (b: NamespaceDelegationBuilder)
        ensures
            b@ == (self@.0, self@.1, true),
    {
        let mut b = self;
        b.is_root = true;
        b
    }

    /// Builds the delegation. A root delegation may sign all mappings; any other
    /// may sign all but namespace delegations.
    pub fn build(self) -> (n: NamespaceDelegation)
        ensures
            n.namespace@ == self@.0,
            n.target_key == Some(self@.1),
            n.is_root_delegation == self@.2,
            n.restriction == Some(
                if self@.2 {
                    Restriction::CanSignAllMappings(CanSignAllMappings {})
                } else {
                    Restriction::CanSignAllButNamespaceDelegations(
                        CanSignAllButNamespaceDelegations {},
                    )
                },
            ),
    {
        let restriction = if self.is_root {
            Restriction::CanSignAllMappings(CanSignAllMappings {})
        } else {
            Restriction::CanSignAllButNamespaceDelegations(CanSignAllButNamespaceDelegations {})
        };
        NamespaceDelegation {
            namespace: self.namespace,
            target_key: Some(self.target_key),
            is_root_delegation: self.is_root,
            restriction: Some(restriction),
        }
    }
}

/// Builder of an owner-to-key mapping.
pub struct OwnerToKeyMappingBuilder {
    member: String,
    public_keys: Vec<PublicKey>,
}

impl View for OwnerToKeyMappingBuilder {
    /// The member and the keys added so far.
    type V = (Seq<char>, Seq<PublicKey>);

    closed spec fn view(&self) -> (Seq<char>, Seq<PublicKey>) {
        (self.member@, self.public_keys@)
    }
}

impl OwnerToKeyMappingBuilder {
    /// A mapping of `member` (e.g. `PAR::name::fingerprint`) to no keys yet.
    pub fn new(member: &str) -> (b: OwnerToKeyMappingBuilder)
        ensures
            b@.0 == member@,
            b@.1 == Seq::<PublicKey>::empty(),
    {
        OwnerToKeyMappingBuilder { member: String::from_str(member), public_keys: Vec::new() }
    }

    /// Adds a raw Curve25519 signing key for sequencer authentication and protocol signing.
    pub fn with_signing_key(self, key_bytes: &[u8]) -> (b: OwnerToKeyMappingBuilder)
        ensures
            b@.0 == self@.0,
            b@.1.len() == self@.1.len() + 1,
            b@.1.drop_last() == self@.1,
            is_raw_ed25519_public_key(b@.1.last(), key_bytes@, member_key_usage()),
    {
        let signing_key = raw_ed25519_key(key_bytes, member_usage_vec());
        let mut b = self;
        b.public_keys.push(PublicKey { key: Some(Key::SigningPublicKey(signing_key)) });
        assert(b@.1.drop_last() =~= self@.1);
        b
    }

    /// Builds the mapping.
    pub fn build(self) -> (o: OwnerToKeyMapping)
        ensures
            o.member@ == self@.0,
            o.public_keys@ == self@.1,
    {
        OwnerToKeyMapping { member: self.member, public_keys: self.public_keys }
    }
}

/// Builder of a synchronizer trust certificate.
pub struct SynchronizerTrustCertificateBuilder {
    participant_uid: String,
    synchronizer_id: String,
}

impl View for SynchronizerTrustCertificateBuilder {
    /// The participant's unique identifier and the synchronizer's identifier.
    type V = (Seq<char>, Seq<char>);

    closed spec fn view(&self) -> (Seq<char>, Seq<char>) {
        (self.participant_uid@, self.synchronizer_id@)
    }
}

impl SynchronizerTrustCertificateBuilder {
    /// A certificate of `participant_uid` trusting `synchronizer_id`.
    pub fn new(participant_uid: &str, synchronizer_id: &str) -> (b: SynchronizerTrustCertificateBuilder)
        ensures
            b@ == (participant_uid@, synchronizer_id@),
    {
        SynchronizerTrustCertificateBuilder {
            participant_uid: String::from_str(participant_uid),
            synchronizer_id: String::from_str(synchronizer_id),
        }
    }

    /// Builds the certificate.
    pub fn build(self) -> (c: SynchronizerTrustCertificate)
        ensures
            c.participant_uid@ == self@.0,
            c.synchronizer_id@ == self@.1,
    {
        SynchronizerTrustCertificate {
            participant_uid: self.participant_uid,
            synchronizer_id: self.synchronizer_id,
        }
    }
}

} // verus!
