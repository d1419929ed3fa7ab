//! Canton member identifiers.
//!
//! A member ID has the form `<CODE>::<identifier>::<namespace_fingerprint>`, where
//! `CODE` is `PAR` (participant), `MED` (mediator) or `SEQ` (sequencer), the
//! identifier is a human-readable name of at most 185 bytes, and the namespace
//! fingerprint is hex-encoded.
use vstd::prelude::*;
use vstd::utf8::*;
use crate::text::{decimal_nat, digit_char, is_hex_char, push_decimal};

verus! {

broadcast use vstd::utf8::group_utf8_lib;

/// Delimiter used to separate parts of identifiers.
pub const DELIMITER: &'static str = "::";

/// Maximum length, in bytes, of the identifier part.
pub const MAX_IDENTIFIER_LENGTH: usize = 185;

/// Maximum length for the full member ID string.
pub const MAX_MEMBER_LENGTH: usize = 300;

// ---------------------------------------------------------------------------
// Errors
// ---------------------------------------------------------------------------

/// Error type for member ID operations.
#[derive(Debug, Clone, PartialEq, Eq)]
pub enum MemberError {
    /// The identifier is empty.
    EmptyIdentifier,
    /// The identifier is too long (its length in bytes).
    IdentifierTooLong(usize),
    /// The identifier contains the reserved delimiter.
    IdentifierContainsDelimiter,
    /// The identifier contains invalid characters.
    InvalidIdentifierChars(String),
    /// The fingerprint is invalid.
    InvalidFingerprint(String),
    /// Failed to parse a member string.
    ParseError(String),
}

/// The abstract value of a [`MemberError`].
pub ghost enum ErrorModel {
    EmptyIdentifier,
    IdentifierTooLong(nat),
    IdentifierContainsDelimiter,
    InvalidIdentifierChars(Seq<char>),
    InvalidFingerprint(Seq<char>),
    ParseError(Seq<char>),
}

impl View for MemberError {
    type V = ErrorModel;

    open spec fn view(&self) -> ErrorModel {
        match self {
            MemberError::EmptyIdentifier => ErrorModel::EmptyIdentifier,
            MemberError::IdentifierTooLong(n) => ErrorModel::IdentifierTooLong(*n as nat),
            MemberError::IdentifierContainsDelimiter => ErrorModel::IdentifierContainsDelimiter,
            MemberError::InvalidIdentifierChars(m) => ErrorModel::InvalidIdentifierChars(m@),
            MemberError::InvalidFingerprint(m) => ErrorModel::InvalidFingerprint(m@),
            MemberError::ParseError(m) => ErrorModel::ParseError(m@),
        }
    }
}

/// The message that `Display` shows for an error.
pub open spec fn error_message(e: ErrorModel) -> Seq<char> {
    match e {
        ErrorModel::EmptyIdentifier => "identifier cannot be empty"@,
        ErrorModel::IdentifierTooLong(n) => "identifier too long: "@ + decimal_nat(n) + " > "@
            + decimal_nat(185),
        ErrorModel::IdentifierContainsDelimiter => "identifier cannot contain reserved delimiter '"@
            + "::"@ + "'"@,
        ErrorModel::InvalidIdentifierChars(m) => "identifier contains invalid characters: "@ + m,
        ErrorModel::InvalidFingerprint(m) => "invalid fingerprint: "@ + m,
        ErrorModel::ParseError(m) => "parse error: "@ + m,
    }
}

impl MemberError {
    /// The human-readable message of this error.
    pub fn to_string(&self) -> (s: String)
        ensures
            s@ == error_message(self@),
    {
        match self {
            MemberError::EmptyIdentifier => String::from_str("identifier cannot be empty"),
            MemberError::IdentifierTooLong(n) => {
                let mut s = String::from_str("identifier too long: ");
                push_decimal(&mut s, *n as u64);
                s.append(" > ");
                push_decimal(&mut s, MAX_IDENTIFIER_LENGTH as u64);
                s
            },
            MemberError::IdentifierContainsDelimiter => {
                let mut s = String::from_str("identifier cannot contain reserved delimiter '");
                s.append(DELIMITER);
                s.append("'");
                s
            },
            MemberError::InvalidIdentifierChars(m) => {
                let mut s = String::from_str("identifier contains invalid characters: ");
                s.append(m.as_str());
                s
            },
            MemberError::InvalidFingerprint(m) => {
                let mut s = String::from_str("invalid fingerprint: ");
                s.append(m.as_str());
                s
            },
            MemberError::ParseError(m) => {
                let mut s = String::from_str("parse error: ");
                s.append(m.as_str());
                s
            },
        }
    }
}

// ---------------------------------------------------------------------------
// Character classes and the delimiter
// ---------------------------------------------------------------------------

/// Characters allowed in an identifier: ASCII alphanumerics, `-`, `_` and `.`.
pub open spec fn is_id_char(c: char) -> bool {
    ('a' <= c && c <= 'z') || ('A' <= c && c <= 'Z') || ('0' <= c && c <= '9') || c == '-' || c
        == '_' || c == '.'
}

/// The first index at or after `i` where `::` starts in `s`.
pub open spec fn find_delim(s: Seq<char>, i: int) -> Option<int>
    decreases s.len() - i,
{
    if i < 0 || i + 1 >= s.len() {
        None
    } else if s[i] == ':' && s[i + 1] == ':' {
        Some(i)
    } else {
        find_delim(s, i + 1)
    }
}

/// What [`find_delim`] returns: the first `::` at or after `j`.
pub proof fn lemma_find_delim(s: Seq<char>, j: int)
    ensures
        find_delim(s, j) matches Some(i) ==> {
            &&& 0 <= j <= i
            &&& i + 1 < s.len()
            &&& s[i] == ':'
            &&& s[i + 1] == ':'
            &&& forall|k: int| j <= k < i ==> !(s[k] == ':' && #[trigger] s[k + 1] == ':')
        },
        find_delim(s, j) is None ==> forall|k: int|
            0 <= j <= k && k + 1 < s.len() ==> !(s[k] == ':' && #[trigger] s[k + 1] == ':'),
    decreases s.len() - j,
{
    if j < 0 || j + 1 >= s.len() {
    } else if s[j] == ':' && s[j + 1] == ':' {
    } else {
        lemma_find_delim(s, j + 1);
    }
}

/// Whether `s` contains the delimiter `::`.
pub open spec fn contains_delim(s: Seq<char>) -> bool {
    find_delim(s, 0) is Some
}

/// The length of a string in bytes (UTF-8).
pub open spec fn byte_len(s: Seq<char>) -> nat {
    encode_utf8(s).len()
}

/// The ASCII letter at position `k` of the alphabet, upper or lower case.
pub open spec fn ascii_letter(k: nat, upper: bool) -> char {
    if upper {
        (k + 65) as char
    } else {
        (k + 97) as char
    }
}

/// The characters allowed in an identifier are exactly the ten decimal digits,
/// the twenty-six ASCII letters in either case, `-`, `_` and `.`.
pub proof fn lemma_id_chars(c: char)
    ensures
        forall|d: nat| d < 10 ==> is_id_char(#[trigger] digit_char(d)),
        forall|k: nat, upper: bool| k < 26 ==> is_id_char(#[trigger] ascii_letter(k, upper)),
        is_id_char('-') && is_id_char('_') && is_id_char('.'),
        is_id_char(c) ==> {
            ||| exists|d: nat| d < 10 && c == #[trigger] digit_char(d)
            ||| exists|k: nat, upper: bool| k < 26 && c == #[trigger] ascii_letter(k, upper)
            ||| c == '-' || c == '_' || c == '.'
        },
{
    if is_id_char(c) {
        if '0' <= c && c <= '9' {
            let d: nat = (c as int - 48) as nat;
            assert(c == digit_char(d));
        } else if 'a' <= c && c <= 'z' {
            let k: nat = (c as int - 97) as nat;
            assert(c == ascii_letter(k, false));
        } else if 'A' <= c && c <= 'Z' {
            let k: nat = (c as int - 65) as nat;
            assert(c == ascii_letter(k, true));
        }
    }
}

fn is_id_char_exec(c: char) -> (b: bool)
    ensures
        b == is_id_char(c),
{
    ('a' <= c && c <= 'z') || ('A' <= c && c <= 'Z') || ('0' <= c && c <= '9') || c == '-' || c
        == '_' || c == '.'
}

fn is_hex_char_exec(c: char) -> (b: bool)
    ensures
        b == is_hex_char(c),
{
    ('0' <= c && c <= '9') || ('a' <= c && c <= 'f') || ('A' <= c && c <= 'F')
}

/// Finds the first occurrence of `::` in `s`, as a character index.
fn find_delimiter(s: &str) -> (r: Option<usize>)
    ensures
        r matches Some(i) ==> find_delim(s@, 0) == Some(i as int),
        r is None ==> find_delim(s@, 0) is None,
{
    let n = s.unicode_len();
    let mut i: usize = 0;
    while n > 0 && i < n - 1
        invariant
            n == s@.len(),
            find_delim(s@, 0) == find_delim(s@, i as int),
        decreases n - i,
    {
        if s.get_char(i) == ':' && s.get_char(i + 1) == ':' {
            return Some(i);
        }
        i = i + 1;
    }
    None
}

// ---------------------------------------------------------------------------
// Namespace
// ---------------------------------------------------------------------------

/// A namespace identified by a fingerprint (typically SHA-256 of a public key).
#[derive(Debug, Clone, PartialEq, Eq, Hash)]
pub struct Namespace {
    fingerprint: String,
}

impl View for Namespace {
    type V = Seq<char>;

    closed spec fn view(&self) -> Seq<char> {
        self.fingerprint@
    }
}

/// A fingerprint is valid when it is non-empty and hex encoded.
pub open spec fn valid_fingerprint(f: Seq<char>) -> bool {
    f.len() > 0 && forall|i: int| 0 <= i < f.len() ==> is_hex_char(#[trigger] f[i])
}

/// What [`Namespace::new`] returns for a fingerprint.
pub open spec fn namespace_new(f: Seq<char>) -> Result<Seq<char>, ErrorModel> {
    if f.len() == 0 {
        Err(ErrorModel::InvalidFingerprint("fingerprint cannot be empty"@))
    } else if !valid_fingerprint(f) {
        Err(ErrorModel::InvalidFingerprint("fingerprint must be hex encoded"@))
    } else {
        Ok(f)
    }
}

impl Namespace {
    /// Creates a namespace from a hex-encoded fingerprint.
    pub fn new(fingerprint: &str) -> (r: Result<Namespace, MemberError>)
        ensures
            match (r, namespace_new(fingerprint@)) {
                (Ok(ns), Ok(f)) => ns@ == f,
                (Err(e), Err(m)) => e@ == m,
                _ => false,
            },
    {
        if fingerprint.is_empty() {
            return Err(MemberError::InvalidFingerprint(String::from_str("fingerprint cannot be empty")));
        }
        let n = fingerprint.unicode_len();
        for i in 0..n
            invariant
                n == fingerprint@.len(),
                forall|j: int| 0 <= j < i ==> is_hex_char(#[trigger] fingerprint@[j]),
        {
            if !is_hex_char_exec(fingerprint.get_char(i)) {
                return Err(MemberError::InvalidFingerprint(String::from_str("fingerprint must be hex encoded")));
            }
        }
        Ok(Namespace { fingerprint: String::from_str(fingerprint) })
    }

    /// The fingerprint string.
    pub fn fingerprint(&self) -> (r: &str)
        ensures
            r@ == self@,
    {
        self.fingerprint.as_str()
    }

    /// The proto primitive form: the fingerprint itself.
    pub fn to_proto_primitive(&self) -> (r: &str)
        ensures
            r@ == self@,
    {
        self.fingerprint.as_str()
    }

    /// The string that `Display` shows: the fingerprint.
    pub fn to_string(&self) -> (r: String)
        ensures
            r@ == self@,
    {
        String::from_str(self.fingerprint.as_str())
    }
}

// ---------------------------------------------------------------------------
// UniqueIdentifier
// ---------------------------------------------------------------------------

/// The abstract value of a [`UniqueIdentifier`].
pub ghost struct UidModel {
    pub identifier: Seq<char>,
    pub fingerprint: Seq<char>,
}

/// A unique identifier within a namespace: `<identifier>::<namespace_fingerprint>`.
#[derive(Debug, PartialEq, Eq, Hash)]
pub struct UniqueIdentifier {
    identifier: String,
    namespace: Namespace,
}

impl Clone for UniqueIdentifier {
    fn clone(&self) -> (r: UniqueIdentifier)
        ensures
            r@ == self@,
    {
        proof {
            use_type_invariant(self);
        }
        UniqueIdentifier {
            identifier: self.identifier.clone(),
            namespace: Namespace { fingerprint: self.namespace.fingerprint.clone() },
        }
    }
}

impl View for UniqueIdentifier {
    type V = UidModel;

    closed spec fn view(&self) -> UidModel {
        UidModel { identifier: self.identifier@, fingerprint: self.namespace@ }
    }
}

/// The message of the error for an identifier with disallowed characters.
pub open spec fn invalid_chars_message() -> Seq<char> {
    "only alphanumeric, dash, underscore, and dot allowed"@
}

/// What [`UniqueIdentifier::new`] returns for an identifier and a fingerprint.
pub open spec fn uid_new(id: Seq<char>, f: Seq<char>) -> Result<UidModel, ErrorModel> {
    if id.len() == 0 {
        Err(ErrorModel::EmptyIdentifier)
    } else if byte_len(id) > 185 {
        Err(ErrorModel::IdentifierTooLong(byte_len(id)))
    } else if contains_delim(id) {
        Err(ErrorModel::IdentifierContainsDelimiter)
    } else if !(forall|i: int| 0 <= i < id.len() ==> is_id_char(#[trigger] id[i])) {
        Err(ErrorModel::InvalidIdentifierChars(invalid_chars_message()))
    } else {
        match namespace_new(f) {
            Ok(f) => Ok(UidModel { identifier: id, fingerprint: f }),
            Err(e) => Err(e),
        }
    }
}

/// A well-formed unique identifier: one that [`UniqueIdentifier::new`] accepts.
pub open spec fn valid_uid(u: UidModel) -> bool {
    &&& u.identifier.len() > 0
    &&& byte_len(u.identifier) <= 185
    &&& forall|i: int| 0 <= i < u.identifier.len() ==> is_id_char(#[trigger] u.identifier[i])
    &&& valid_fingerprint(u.fingerprint)
}

/// The proto primitive form `identifier::fingerprint`.
pub open spec fn uid_str(u: UidModel) -> Seq<char> {
    u.identifier + "::"@ + u.fingerprint
}

/// The message of the error for a string with no `::`.
pub open spec fn uid_format_message(s: Seq<char>) -> Seq<char> {
    "invalid unique identifier '"@ + s + "': expected format 'identifier::fingerprint'"@
}

/// What [`UniqueIdentifier::from_proto_primitive`] returns for a string: it is
/// split at the first `::`, and the two parts go to [`UniqueIdentifier::new`].
pub open spec fn uid_parse(s: Seq<char>) -> Result<UidModel, ErrorModel> {
    match find_delim(s, 0) {
        None => Err(ErrorModel::ParseError(uid_format_message(s))),
        Some(i) => uid_new(s.take(i), s.skip(i + 2)),
    }
}

/// The abstract value of a result whose error is a [`MemberError`].
pub open spec fn res_view<T: View>(r: Result<T, MemberError>) -> Result<T::V, ErrorModel> {
    match r {
        Ok(u) => Ok(u@),
        Err(e) => Err(e@),
    }
}

/// The abstract value of a result that holds a unique identifier.
pub open spec fn uid_result(r: Result<UniqueIdentifier, MemberError>) -> Result<UidModel, ErrorModel> {
    match r {
        Ok(u) => Ok(u@),
        Err(e) => Err(e@),
    }
}

impl UniqueIdentifier {
    /// Every unique identifier is well formed: it was validated when it was made.
    #[verifier::type_invariant]
    closed spec fn well_formed(self) -> bool {
        valid_uid(self@)
    }

    /// Creates a unique identifier after validating both parts.
    pub fn new(identifier: &str, fingerprint: &str) -> (r: Result<UniqueIdentifier, MemberError>)
        ensures
            uid_result(r) == uid_new(identifier@, fingerprint@),
    {
        if identifier.is_empty() {
            return Err(MemberError::EmptyIdentifier);
        }
        let byte_count = identifier.as_bytes().len();
        if byte_count > MAX_IDENTIFIER_LENGTH {
            return Err(MemberError::IdentifierTooLong(byte_count));
        }
        if find_delimiter(identifier).is_some() {
            return Err(MemberError::IdentifierContainsDelimiter);
        }
        let n = identifier.unicode_len();
        for i in 0..n
            invariant
                n == identifier@.len(),
                identifier@.len() > 0,
                byte_len(identifier@) <= 185,
                !contains_delim(identifier@),
                forall|j: int| 0 <= j < i ==> is_id_char(#[trigger] identifier@[j]),
        {
            if !is_id_char_exec(identifier.get_char(i)) {
                assert(!is_id_char(identifier@[i as int]));
                return Err(MemberError::InvalidIdentifierChars(String::from_str("only alphanumeric, dash, underscore, and dot allowed")));
            }
        }
        let namespace = Namespace::new(fingerprint)?;
        Ok(UniqueIdentifier { identifier: String::from_str(identifier), namespace })
    }

    /// Parses `identifier::fingerprint`, splitting at the first `::`.
    pub fn from_proto_primitive(s: &str) -> (r: Result<UniqueIdentifier, MemberError>)
        ensures
            uid_result(r) == uid_parse(s@),
    {
        match find_delimiter(s) {
            None => {
                let mut m = String::from_str("invalid unique identifier '");
                m.append(s);
                m.append("': expected format 'identifier::fingerprint'");
                Err(MemberError::ParseError(m))
            },
            Some(i) => {
                proof {
                    lemma_find_delim(s@, 0);
                }
                let n = s.unicode_len();
                let id = s.substring_char(0, i);
                let fp = s.substring_char(i + 2, n);
                assert(id@ =~= s@.take(i as int));
                assert(fp@ =~= s@.skip(i + 2));
                UniqueIdentifier::new(id, fp)
            },
        }
    }

    /// The identifier part.
    pub fn identifier(&self) -> (r: &str)
        ensures
            r@ == self@.identifier,
            valid_uid(self@),
    {
        proof {
            use_type_invariant(self);
        }
        self.identifier.as_str()
    }

    /// The namespace.
    pub fn namespace(&self) -> (r: &Namespace)
        ensures
            r@ == self@.fingerprint,
            valid_uid(self@),
    {
        proof {
            use_type_invariant(self);
        }
        &self.namespace
    }

    /// The proto primitive form `identifier::fingerprint`; parsing it gives
    /// this identifier back.
    pub fn to_proto_primitive(&self) -> (r: String)
        ensures
            r@ == uid_str(self@),
            valid_uid(self@),
            uid_parse(r@) == Ok::<UidModel, ErrorModel>(self@),
    {
        proof {
            use_type_invariant(self);
            lemma_uid_roundtrip(self@);
        }
        let mut r = String::from_str(self.identifier.as_str());
        r.append(DELIMITER);
        r.append(self.namespace.fingerprint());
        r
    }

    /// The string that `Display` shows: the proto primitive form.
    pub fn to_string(&self) -> (r: String)
        ensures
            r@ == uid_str(self@),
    {
        self.to_proto_primitive()
    }
}

// ---------------------------------------------------------------------------
// MemberCode
// ---------------------------------------------------------------------------

/// Three-letter member type code.
#[derive(Debug, Clone, Copy, PartialEq, Eq, Structural, Hash)]
pub enum MemberCode {
    /// Participant (PAR)
    Participant,
    /// Mediator (MED)
    Mediator,
    /// Sequencer (SEQ)
    Sequencer,
}

/// The three letters of a member code.
pub open spec fn code_str(c: MemberCode) -> Seq<char> {
    match c {
        MemberCode::Participant => "PAR"@,
        MemberCode::Mediator => "MED"@,
        MemberCode::Sequencer => "SEQ"@,
    }
}

/// What [`MemberCode::parse`] returns for a string.
pub open spec fn code_parse(s: Seq<char>) -> Result<MemberCode, ErrorModel> {
    if s == "PAR"@ {
        Ok(MemberCode::Participant)
    } else if s == "MED"@ {
        Ok(MemberCode::Mediator)
    } else if s == "SEQ"@ {
        Ok(MemberCode::Sequencer)
    } else {
        Err(ErrorModel::ParseError("unknown member code: "@ + s))
    }
}

/// The member codes as character sequences, letter by letter.
pub proof fn lemma_code_letters()
    ensures
        "PAR"@ == seq!['P', 'A', 'R'],
        "MED"@ == seq!['M', 'E', 'D'],
        "SEQ"@ == seq!['S', 'E', 'Q'],
        "::"@ == seq![':', ':'],
{
    reveal_strlit("PAR");
    reveal_strlit("MED");
    reveal_strlit("SEQ");
    reveal_strlit("::");
}

fn is_three(s: &str, a: char, b: char, c: char) -> (r: bool)
    ensures
        r == (s@ == seq![a, b, c]),
{
    if s.unicode_len() == 3 && s.get_char(0) == a && s.get_char(1) == b && s.get_char(2) == c {
        assert(s@ =~= seq![a, b, c]);
        true
    } else {
        false
    }
}

impl MemberCode {
    /// The three-letter code string.
    pub fn as_str(&self) -> (r: &'static str)
        ensures
            r@ == code_str(*self),
    {
        match self {
            MemberCode::Participant => "PAR",
            MemberCode::Mediator => "MED",
            MemberCode::Sequencer => "SEQ",
        }
    }

    /// Parses a three-letter code.
    pub fn parse(s: &str) -> (r: Result<MemberCode, MemberError>)
        ensures
            match (r, code_parse(s@)) {
                (Ok(c), Ok(d)) => c == d,
                (Err(e), Err(m)) => e@ == m,
                _ => false,
            },
    {
        proof {
            lemma_code_letters();
        }
        if is_three(s, 'P', 'A', 'R') {
            Ok(MemberCode::Participant)
        } else if is_three(s, 'M', 'E', 'D') {
            Ok(MemberCode::Mediator)
        } else if is_three(s, 'S', 'E', 'Q') {
            Ok(MemberCode::Sequencer)
        } else {
            let mut m = String::from_str("unknown member code: ");
            m.append(s);
            Err(MemberError::ParseError(m))
        }
    }

    /// The string that `Display` shows: the three-letter code.
    pub fn to_string(&self) -> (r: String)
        ensures
            r@ == code_str(*self),
    {
        String::from_str(self.as_str())
    }
}

impl std::str::FromStr for MemberCode {
    type Err = MemberError;

    fn from_str(s: &str) -> (r: Result<MemberCode, MemberError>)
        ensures
            match (r, code_parse(s@)) {
                (Ok(c), Ok(d)) => c == d,
                (Err(e), Err(m)) => e@ == m,
                _ => false,
            },
    {
        MemberCode::parse(s)
    }
}

// ---------------------------------------------------------------------------
// Members
// ---------------------------------------------------------------------------

/// The proto primitive form `CODE::identifier::fingerprint` of a member.
pub open spec fn member_str(c: MemberCode, u: UidModel) -> Seq<char> {
    code_str(c) + "::"@ + uid_str(u)
}

/// Common interface of member types (participant, mediator, sequencer).
pub trait Member: Clone {
    /// The member's type code.
    spec fn member_code(&self) -> MemberCode;

    /// The member's unique identifier.
    spec fn member_uid(&self) -> UidModel;

    /// The member type code.
    fn code(&self) -> (c: MemberCode)
        ensures
            c == self.member_code(),
    ;

    /// The unique identifier.
    fn uid(&self) -> (u: &UniqueIdentifier)
        ensures
            u@ == self.member_uid(),
            valid_uid(u@),
    ;

    /// The proto primitive form `CODE::identifier::fingerprint`; parsing it
    /// gives this member's code and identifier back.
    fn to_proto_primitive(&self) -> (s: String)
        ensures
            s@ == member_str(self.member_code(), self.member_uid()),
            member_sliceable(s@),
            member_parse(s@) == Ok::<(MemberCode, UidModel), ErrorModel>(
                (self.member_code(), self.member_uid()),
            ),
            typed_member_parse(s@, self.member_code()) == Ok::<UidModel, ErrorModel>(
                self.member_uid(),
            ),
    {
        let mut s = String::from_str(self.code().as_str());
        s.append(DELIMITER);
        let uid = self.uid();
        proof {
            lemma_member_roundtrip(self.member_code(), self.member_uid());
        }
        let u = uid.to_proto_primitive();
        s.append(u.as_str());
        s
    }
}

/// The inputs on which parsing a member string is defined: where the string is
/// long enough to be cut after its first three bytes, that cut falls between
/// two characters.
pub open spec fn member_sliceable(s: Seq<char>) -> bool {
    encode_utf8(s).len() >= 9 ==> is_char_boundary(encode_utf8(s), 3)
}

/// The characters encoded in the first three bytes of `s`.
pub open spec fn code_part(s: Seq<char>) -> Seq<char> {
    decode_utf8(encode_utf8(s).subrange(0, 3))
}

/// The characters encoded after the first three bytes of `s`.
pub open spec fn after_code_part(s: Seq<char>) -> Seq<char> {
    decode_utf8(encode_utf8(s).subrange(3, encode_utf8(s).len() as int))
}

/// What parsing `CODE::identifier::fingerprint` gives for a string.
pub open spec fn member_parse(s: Seq<char>) -> Result<(MemberCode, UidModel), ErrorModel> {
    if encode_utf8(s).len() < 9 {
        Err(ErrorModel::ParseError("invalid member '"@ + s + "': too short"@))
    } else {
        match code_parse(code_part(s)) {
            Err(e) => Err(e),
            Ok(c) => {
                let rest = after_code_part(s);
                if !(rest.len() >= 2 && rest[0] == ':' && rest[1] == ':') {
                    Err(
                        ErrorModel::ParseError(
                            "expected '"@ + "::"@ + "' after member code in '"@ + s + "'"@,
                        ),
                    )
                } else {
                    match uid_parse(rest.skip(2)) {
                        Err(e) => Err(e),
                        Ok(u) => Ok((c, u)),
                    }
                }
            },
        }
    }
}

/// What parsing a member string of the given expected code gives.
pub open spec fn typed_member_parse(s: Seq<char>, expected: MemberCode) -> Result<UidModel, ErrorModel> {
    match member_parse(s) {
        Err(e) => Err(e),
        Ok((c, u)) => if c == expected {
            Ok(u)
        } else {
            Err(ErrorModel::ParseError("expected "@ + code_str(expected) + " code, got "@ + code_str(c)))
        },
    }
}

/// Parses a member string into its code and unique identifier.
fn parse_member_string(s: &str) -> (r: Result<(MemberCode, UniqueIdentifier), MemberError>)
    requires
        member_sliceable(s@),
    ensures
        match (r, member_parse(s@)) {
            (Ok((c, u)), Ok((d, v))) => c == d && u@ == v,
            (Err(e), Err(m)) => e@ == m,
            _ => false,
        },
{
    let nbytes = s.as_bytes().len();
    if nbytes < 9 {
        let mut m = String::from_str("invalid member '");
        m.append(s);
        m.append("': too short");
        return Err(MemberError::ParseError(m));
    }
    let (code_str_part, after_code) = s.split_at(3);
    assert(code_str_part@ == decode_utf8(encode_utf8(code_str_part@)));
    assert(after_code@ == decode_utf8(encode_utf8(after_code@)));
    assert(code_str_part@ == code_part(s@));
    assert(after_code@ == after_code_part(s@));
    let code = match MemberCode::parse(code_str_part) {
        Ok(c) => c,
        Err(e) => {
            return Err(e);
        },
    };
    let n = after_code.unicode_len();
    if !(n >= 2 && after_code.get_char(0) == ':' && after_code.get_char(1) == ':') {
        let mut m = String::from_str("expected '");
        m.append(DELIMITER);
        m.append("' after member code in '");
        m.append(s);
        m.append("'");
        return Err(MemberError::ParseError(m));
    }
    let uid_part = after_code.substring_char(2, n);
    assert(uid_part@ =~= after_code@.skip(2));
    match UniqueIdentifier::from_proto_primitive(uid_part) {
        Ok(u) => Ok((code, u)),
        Err(e) => Err(e),
    }
}

/// Parses a member string that must carry the code `expected`.
fn parse_typed_member(s: &str, expected: MemberCode) -> (r: Result<UniqueIdentifier, MemberError>)
    requires
        member_sliceable(s@),
    ensures
        res_view(r) == typed_member_parse(s@, expected),
{
    match parse_member_string(s) {
        Err(e) => Err(e),
        Ok((c, u)) => {
            if c == expected {
                Ok(u)
            } else {
                let mut m = String::from_str("expected ");
                m.append(expected.as_str());
                m.append(" code, got ");
                m.append(c.as_str());
                Err(MemberError::ParseError(m))
            }
        },
    }
}

/// A participant identifier: `PAR::identifier::fingerprint`.
#[derive(Debug, Clone, PartialEq, Eq, Hash)]
pub struct ParticipantId {
    uid: UniqueIdentifier,
}

impl View for ParticipantId {
    type V = UidModel;

    closed spec fn view(&self) -> UidModel {
        self.uid@
    }
}

impl ParticipantId {
    /// Creates a participant ID from a unique identifier.
    pub fn new(uid: UniqueIdentifier) -> (r: ParticipantId)
        ensures
            r@ == uid@,
    {
        ParticipantId { uid }
    }

    /// Creates a participant ID from an identifier and a fingerprint.
    pub fn create(identifier: &str, fingerprint: &str) -> (r: Result<ParticipantId, MemberError>)
        ensures
            res_view(r) == uid_new(identifier@, fingerprint@),
    {
        match UniqueIdentifier::new(identifier, fingerprint) {
            Ok(u) => Ok(ParticipantId::new(u)),
            Err(e) => Err(e),
        }
    }

    /// Parses `PAR::identifier::fingerprint`.
    pub fn from_proto_primitive(s: &str) -> (r: Result<ParticipantId, MemberError>)
        requires
            member_sliceable(s@),
        ensures
            res_view(r) == typed_member_parse(s@, MemberCode::Participant),
    {
        match parse_typed_member(s, MemberCode::Participant) {
            Ok(u) => Ok(ParticipantId::new(u)),
            Err(e) => Err(e),
        }
    }

    /// The string that `Display` shows: the proto primitive form.
    pub fn to_string(&self) -> (r: String)
        ensures
            r@ == member_str(MemberCode::Participant, self@),
    {
        self.to_proto_primitive()
    }
}

impl Member for ParticipantId {
    open spec fn member_code(&self) -> MemberCode {
        MemberCode::Participant
    }

    open spec fn member_uid(&self) -> UidModel {
        self@
    }

    fn code(&self) -> (c: MemberCode) {
        MemberCode::Participant
    }

    fn uid(&self) -> (u: &UniqueIdentifier) {
        proof {
            use_type_invariant(&self.uid);
        }
        &self.uid
    }
}

/// A mediator identifier: `MED::identifier::fingerprint`.
#[derive(Debug, Clone, PartialEq, Eq, Hash)]
pub struct MediatorId {
    uid: UniqueIdentifier,
}

impl View for MediatorId {
    type V = UidModel;

    closed spec fn view(&self) -> UidModel {
        self.uid@
    }
}

impl MediatorId {
    /// Creates a mediator ID from a unique identifier.
    pub fn new(uid: UniqueIdentifier) -> (r: MediatorId)
        ensures
            r@ == uid@,
    {
        MediatorId { uid }
    }

    /// Creates a mediator ID from an identifier and a fingerprint.
    pub fn create(identifier: &str, fingerprint: &str) -> (r: Result<MediatorId, MemberError>)
        ensures
            res_view(r) == uid_new(identifier@, fingerprint@),
    {
        match UniqueIdentifier::new(identifier, fingerprint) {
            Ok(u) => Ok(MediatorId::new(u)),
            Err(e) => Err(e),
        }
    }

    /// Parses `MED::identifier::fingerprint`.
    pub fn from_proto_primitive(s: &str) -> (r: Result<MediatorId, MemberError>)
        requires
            member_sliceable(s@),
        ensures
            res_view(r) == typed_member_parse(s@, MemberCode::Mediator),
    {
        match parse_typed_member(s, MemberCode::Mediator) {
            Ok(u) => Ok(MediatorId::new(u)),
            Err(e) => Err(e),
        }
    }

    /// The string that `Display` shows: the proto primitive form.
    pub fn to_string(&self) -> (r: String)
        ensures
            r@ == member_str(MemberCode::Mediator, self@),
    {
        self.to_proto_primitive()
    }
}

impl Member for MediatorId {
    open spec fn member_code(&self) -> MemberCode {
        MemberCode::Mediator
    }

    open spec fn member_uid(&self) -> UidModel {
        self@
    }

    fn code(&self) -> (c: MemberCode) {
        MemberCode::Mediator
    }

    fn uid(&self) -> (u: &UniqueIdentifier) {
        proof {
            use_type_invariant(&self.uid);
        }
        &self.uid
    }
}

/// A sequencer identifier: `SEQ::identifier::fingerprint`.
#[derive(Debug, Clone, PartialEq, Eq, Hash)]
pub struct SequencerId {
    uid: UniqueIdentifier,
}

impl View for SequencerId {
    type V = UidModel;

    closed spec fn view(&self) -> UidModel {
        self.uid@
    }
}

impl SequencerId {
    /// Creates a sequencer ID from a unique identifier.
    pub fn new(uid: UniqueIdentifier) -> (r: SequencerId)
        ensures
            r@ == uid@,
    {
        SequencerId { uid }
    }

    /// Creates a sequencer ID from an identifier and a fingerprint.
    pub fn create(identifier: &str, fingerprint: &str) -> (r: Result<SequencerId, MemberError>)
        ensures
            res_view(r) == uid_new(identifier@, fingerprint@),
    {
        match UniqueIdentifier::new(identifier, fingerprint) {
            Ok(u) => Ok(SequencerId::new(u)),
            Err(e) => Err(e),
        }
    }

    /// Parses `SEQ::identifier::fingerprint`.
    pub fn from_proto_primitive(s: &str) -> (r: Result<SequencerId, MemberError>)
        requires
            member_sliceable(s@),
        ensures
            res_view(r) == typed_member_parse(s@, MemberCode::Sequencer),
    {
        match parse_typed_member(s, MemberCode::Sequencer) {
            Ok(u) => Ok(SequencerId::new(u)),
            Err(e) => Err(e),
        }
    }

    /// The string that `Display` shows: the proto primitive form.
    pub fn to_string(&self) -> (r: String)
        ensures
            r@ == member_str(MemberCode::Sequencer, self@),
    {
        self.to_proto_primitive()
    }
}

impl Member for SequencerId {
    open spec fn member_code(&self) -> MemberCode {
        MemberCode::Sequencer
    }

    open spec fn member_uid(&self) -> UidModel {
        self@
    }

    fn code(&self) -> (c: MemberCode) {
        MemberCode::Sequencer
    }

    fn uid(&self) -> (u: &UniqueIdentifier) {
        proof {
            use_type_invariant(&self.uid);
        }
        &self.uid
    }
}

/// A member of any type.
#[derive(Debug, Clone, PartialEq, Eq)]
pub enum AnyMember {
    Participant(ParticipantId),
    Mediator(MediatorId),
    Sequencer(SequencerId),
}

impl View for AnyMember {
    type V = (MemberCode, UidModel);

    open spec fn view(&self) -> (MemberCode, UidModel) {
        match self {
            AnyMember::Participant(p) => (MemberCode::Participant, p@),
            AnyMember::Mediator(m) => (MemberCode::Mediator, m@),
            AnyMember::Sequencer(q) => (MemberCode::Sequencer, q@),
        }
    }
}

impl AnyMember {
    /// Parses `CODE::identifier::fingerprint` into the member of that code.
    pub fn from_proto_primitive(s: &str) -> (r: Result<AnyMember, MemberError>)
        requires
            member_sliceable(s@),
        ensures
            res_view(r) == member_parse(s@),
    {
        match parse_member_string(s) {
            Err(e) => Err(e),
            Ok((code, uid)) => match code {
                MemberCode::Participant => Ok(AnyMember::Participant(ParticipantId::new(uid))),
                MemberCode::Mediator => Ok(AnyMember::Mediator(MediatorId::new(uid))),
                MemberCode::Sequencer => Ok(AnyMember::Sequencer(SequencerId::new(uid))),
            },
        }
    }

    /// The member code.
    pub fn code(&self) -> (c: MemberCode)
        ensures
            c == self@.0,
    {
        match self {
            AnyMember::Participant(_) => MemberCode::Participant,
            AnyMember::Mediator(_) => MemberCode::Mediator,
            AnyMember::Sequencer(_) => MemberCode::Sequencer,
        }
    }

    /// The unique identifier.
    pub fn uid(&self) -> (u: &UniqueIdentifier)
        ensures
            u@ == self@.1,
            valid_uid(u@),
    {
        match self {
            AnyMember::Participant(p) => p.uid(),
            AnyMember::Mediator(m) => m.uid(),
            AnyMember::Sequencer(q) => q.uid(),
        }
    }

    /// The proto primitive form `CODE::identifier::fingerprint`; parsing it
    /// gives this member back.
    pub fn to_proto_primitive(&self) -> (s: String)
        ensures
            s@ == member_str(self@.0, self@.1),
            member_sliceable(s@),
            member_parse(s@) == Ok::<(MemberCode, UidModel), ErrorModel>(self@),
    {
        match self {
            AnyMember::Participant(p) => p.to_proto_primitive(),
            AnyMember::Mediator(m) => m.to_proto_primitive(),
            AnyMember::Sequencer(q) => q.to_proto_primitive(),
        }
    }

    /// The string that `Display` shows: the proto primitive form.
    pub fn to_string(&self) -> (s: String)
        ensures
            s@ == member_str(self@.0, self@.1),
    {
        self.to_proto_primitive()
    }
}

// ---------------------------------------------------------------------------
// Laws
// ---------------------------------------------------------------------------

proof fn lemma_encode_concat(a: Seq<char>, b: Seq<char>)
    ensures
        encode_utf8(a + b) == encode_utf8(a) + encode_utf8(b),
    decreases a.len(),
{
    if a.len() == 0 {
        assert(a + b =~= b);
        assert(encode_utf8(a) + encode_utf8(b) =~= encode_utf8(b));
    } else {
        lemma_encode_concat(a.drop_first(), b);
        assert((a + b).drop_first() =~= a.drop_first() + b);
        assert((a + b)[0] == a[0]);
        assert(encode_utf8(a + b) =~= encode_utf8(a) + encode_utf8(b));
    }
}

proof fn lemma_encode_len(a: Seq<char>)
    ensures
        encode_utf8(a).len() >= a.len(),
    decreases a.len(),
{
    if a.len() > 0 {
        lemma_encode_len(a.drop_first());
    }
}

proof fn lemma_char_boundary_concat(a: Seq<char>, b: Seq<char>)
    ensures
        is_char_boundary(encode_utf8(a + b), encode_utf8(a).len() as int),
    decreases a.len(),
{
    if a.len() == 0 {
    } else {
        let ab = a + b;
        let bytes = encode_utf8(ab);
        encode_utf8_first_scalar(ab);
        assert(pop_first_scalar(bytes) =~= encode_utf8(ab.drop_first()));
        assert(ab.drop_first() =~= a.drop_first() + b);
        assert((a + b)[0] == a[0]);
        lemma_char_boundary_concat(a.drop_first(), b);
        lemma_encode_concat(a.drop_first(), b);
        assert(encode_utf8(a).len() == encode_scalar(a[0] as u32).len() + encode_utf8(a.drop_first()).len());
    }
}

proof fn lemma_no_delim_in_id(id: Seq<char>)
    requires
        forall|i: int| 0 <= i < id.len() ==> is_id_char(#[trigger] id[i]),
    ensures
        !contains_delim(id),
{
    lemma_find_delim(id, 0);
    if let Some(i) = find_delim(id, 0) {
        assert(is_id_char(id[i]));
    }
}

proof fn lemma_find_delim_after_id(id: Seq<char>, rest: Seq<char>, j: int)
    requires
        forall|i: int| 0 <= i < id.len() ==> is_id_char(#[trigger] id[i]),
        0 <= j <= id.len(),
        rest.len() >= 2,
        rest[0] == ':',
        rest[1] == ':',
    ensures
        find_delim(id + rest, j) == Some(id.len() as int),
    decreases id.len() - j,
{
    let s = id + rest;
    if j < id.len() {
        assert(is_id_char(id[j]));
        assert(s[j] == id[j]);
        lemma_find_delim_after_id(id, rest, j + 1);
    } else {
        assert(s[j] == rest[0]);
        assert(s[j + 1] == rest[1]);
    }
}

/// Whatever [`UniqueIdentifier::new`] accepts is a well-formed identifier made of
/// exactly the given parts.
pub proof fn lemma_uid_new_valid(id: Seq<char>, f: Seq<char>)
    ensures
        uid_new(id, f) matches Ok(u) ==> valid_uid(u) && u.identifier == id && u.fingerprint == f,
        valid_uid(UidModel { identifier: id, fingerprint: f }) ==> uid_new(id, f) == Ok::<
            UidModel,
            ErrorModel,
        >(UidModel { identifier: id, fingerprint: f }),
{
    if valid_uid(UidModel { identifier: id, fingerprint: f }) {
        lemma_no_delim_in_id(id);
    }
}

/// Parsing the string form of a well-formed unique identifier gives it back.
pub proof fn lemma_uid_roundtrip(u: UidModel)
    requires
        valid_uid(u),
    ensures
        uid_parse(uid_str(u)) == Ok::<UidModel, ErrorModel>(u),
{
    lemma_code_letters();
    let rest = "::"@ + u.fingerprint;
    let s = u.identifier + rest;
    assert(uid_str(u) =~= s);
    lemma_find_delim_after_id(u.identifier, rest, 0);
    let i = u.identifier.len() as int;
    assert(s.take(i) =~= u.identifier);
    assert(s.skip(i + 2) =~= u.fingerprint);
    lemma_uid_new_valid(u.identifier, u.fingerprint);
}

/// A string that parses as a unique identifier is the string form of the
/// (well-formed) identifier it parses to.
pub proof fn lemma_uid_parse_inverse(s: Seq<char>)
    ensures
        uid_parse(s) matches Ok(u) ==> valid_uid(u) && uid_str(u) == s,
{
    lemma_code_letters();
    lemma_find_delim(s, 0);
    if let Some(i) = find_delim(s, 0) {
        lemma_uid_new_valid(s.take(i), s.skip(i + 2));
        if let Ok(u) = uid_parse(s) {
            assert(s =~= s.take(i) + "::"@ + s.skip(i + 2));
        }
    }
}

/// Parsing a three-letter code gives back that code.
pub proof fn lemma_code_roundtrip(c: MemberCode)
    ensures
        code_parse(code_str(c)) == Ok::<MemberCode, ErrorModel>(c),
        is_ascii_chars(code_str(c)),
        code_str(c).len() == 3,
{
    lemma_code_letters();
    assert("PAR"@[0] != "MED"@[0]);
    assert("PAR"@[0] != "SEQ"@[0]);
    assert("MED"@[0] != "SEQ"@[0]);
}

/// The string form of a member (with a well-formed unique identifier) can be
/// parsed, and parsing it gives back the same code and unique identifier.
pub proof fn lemma_member_roundtrip(c: MemberCode, u: UidModel)
    requires
        valid_uid(u),
    ensures
        member_sliceable(member_str(c, u)),
        member_parse(member_str(c, u)) == Ok::<(MemberCode, UidModel), ErrorModel>((c, u)),
        typed_member_parse(member_str(c, u), c) == Ok::<UidModel, ErrorModel>(u),
{
    lemma_code_letters();
    lemma_code_roundtrip(c);
    let code = code_str(c);
    let rest = "::"@ + uid_str(u);
    let s = member_str(c, u);
    assert(s =~= code + rest);
    lemma_encode_concat(code, rest);
    let b = encode_utf8(s);
    assert(encode_utf8(code).len() == 3);
    lemma_encode_len(rest);
    assert(rest.len() >= 6);
    lemma_char_boundary_concat(code, rest);
    assert(b.subrange(0, 3) =~= encode_utf8(code));
    assert(b.subrange(3, b.len() as int) =~= encode_utf8(rest));
    assert(code_part(s) == code);
    assert(after_code_part(s) == rest);
    assert(rest.skip(2) =~= uid_str(u));
    lemma_uid_roundtrip(u);
}

/// A string that parses as a member is the string form of the code and (well-formed)
/// unique identifier it parses to.
pub proof fn lemma_member_parse_inverse(s: Seq<char>)
    requires
        member_sliceable(s),
    ensures
        member_parse(s) matches Ok((c, u)) ==> valid_uid(u) && member_str(c, u) == s,
{
    lemma_code_letters();
    if let Ok((c, u)) = member_parse(s) {
        let b = encode_utf8(s);
        decode_utf8_split(b, 3);
        assert(b.subrange(0, b.len() as int) =~= b);
        assert(code_part(s) == code_str(c));
        let rest = after_code_part(s);
        assert(s == code_part(s) + rest);
        lemma_uid_parse_inverse(rest.skip(2));
        assert(rest =~= "::"@ + rest.skip(2));
        assert(member_str(c, u) =~= s);
    }
}

/// Parsing a string as a member of any type agrees with the typed parsers: it
/// gives a code and an identifier exactly when the parser of that code gives
/// the identifier, and it fails exactly when all three typed parsers fail.
pub proof fn lemma_any_member_parse_agrees(s: Seq<char>)
    ensures
        forall|c: MemberCode| #[trigger]
            typed_member_parse(s, c) matches Ok(u) ==> member_parse(s) == Ok::<
                (MemberCode, UidModel),
                ErrorModel,
            >((c, u)),
        member_parse(s) matches Ok((c, u)) ==> typed_member_parse(s, c) == Ok::<
            UidModel,
            ErrorModel,
        >(u),
        member_parse(s) is Err <==> {
            &&& typed_member_parse(s, MemberCode::Participant) is Err
            &&& typed_member_parse(s, MemberCode::Mediator) is Err
            &&& typed_member_parse(s, MemberCode::Sequencer) is Err
        },
{
}

} // verus!
