//! Canton protocol versions.
//!
//! Protocol versions define how Canton nodes communicate. When connecting to a
//! sequencer, [`LATEST_STABLE_VERSION`] is the version to use by default.
use vstd::prelude::*;
use crate::text::{decimal_int, push_decimal_i32};

verus! {

/// The latest stable protocol version.
pub const LATEST_STABLE_VERSION: ProtocolVersion = ProtocolVersion::V34;

/// The minimum supported protocol version.
pub const MINIMUM_STABLE_VERSION: ProtocolVersion = ProtocolVersion::V34;

/// Canton protocol version.
#[derive(Debug, Clone, Copy, PartialEq, Eq, Structural, PartialOrd, Ord, Hash)]
pub enum ProtocolVersion {
    /// Protocol version 34 (latest stable)
    V34,
    /// Protocol version 35 (alpha)
    V35,
}

/// The wire number of a protocol version.
pub open spec fn version_number(v: ProtocolVersion) -> int {
    match v {
        ProtocolVersion::V34 => 34,
        ProtocolVersion::V35 => 35,
    }
}

/// The version whose wire number is `n`, if there is one.
pub open spec fn version_of_number(n: int) -> Option<ProtocolVersion> {
    if n == 34 {
        Some(ProtocolVersion::V34)
    } else if n == 35 {
        Some(ProtocolVersion::V35)
    } else {
        None
    }
}

/// Whether a version is stable.
pub open spec fn stable(v: ProtocolVersion) -> bool {
    v == ProtocolVersion::V34
}

/// Whether a version is an alpha version.
pub open spec fn alpha(v: ProtocolVersion) -> bool {
    v == ProtocolVersion::V35
}

/// The versions that are stable.
pub open spec fn stable_seq() -> Seq<ProtocolVersion> {
    seq![ProtocolVersion::V34]
}

/// The versions that are supported (stable, alpha or beta).
pub open spec fn supported_seq() -> Seq<ProtocolVersion> {
    seq![ProtocolVersion::V34, ProtocolVersion::V35]
}

impl ProtocolVersion {
    /// All stable protocol versions.
    pub fn stable_versions() -> (r: Vec<ProtocolVersion>)
        ensures
            r@ == stable_seq(),
    {
        let mut r = Vec::new();
        r.push(ProtocolVersion::V34);
        r
    }

    /// All supported protocol versions (stable + alpha/beta).
    pub fn supported_versions() -> (r: Vec<ProtocolVersion>)
        ensures
            r@ == supported_seq(),
    {
        let mut r = Vec::new();
        r.push(ProtocolVersion::V34);
        r.push(ProtocolVersion::V35);
        r
    }

    /// Whether this is a stable protocol version.
    pub fn is_stable(self) -> (b: bool)
        ensures
            b == stable(self),
    {
        match self {
            ProtocolVersion::V34 => true,
            ProtocolVersion::V35 => false,
        }
    }

    /// Whether this is an alpha protocol version.
    pub fn is_alpha(self) -> (b: bool)
        ensures
            b == alpha(self),
    {
        match self {
            ProtocolVersion::V34 => false,
            ProtocolVersion::V35 => true,
        }
    }

    /// The version as an integer.
    pub fn as_i32(self) -> (n: i32)
        ensures
            n == version_number(self),
    {
        match self {
            ProtocolVersion::V34 => 34,
            ProtocolVersion::V35 => 35,
        }
    }

    /// The version with the given wire number, or `Unsupported` with that number.
    pub fn try_from_i32(value: i32) -> (r: Result<ProtocolVersion, ProtocolVersionError>)
        ensures
            match version_of_number(value as int) {
                Some(v) => r == Ok::<ProtocolVersion, ProtocolVersionError>(v),
                None => r == Err::<ProtocolVersion, ProtocolVersionError>(
                    ProtocolVersionError::Unsupported(value),
                ),
            },
    {
        if value == 34 {
            Ok(ProtocolVersion::V34)
        } else if value == 35 {
            Ok(ProtocolVersion::V35)
        } else {
            Err(ProtocolVersionError::Unsupported(value))
        }
    }

    /// The decimal rendering of the version number, as `Display` shows it.
    pub fn to_string(self) -> (s: String)
        ensures
            s@ == decimal_int(version_number(self)),
    {
        let mut s = String::new();
        push_decimal_i32(&mut s, self.as_i32());
        assert(s@ =~= decimal_int(version_number(self)));
        s
    }
}

impl From<ProtocolVersion> for i32 {
    fn from(version: ProtocolVersion) -> (n: i32) {
        version.as_i32()
    }
}

impl vstd::std_specs::convert::FromSpecImpl<ProtocolVersion> for i32 {
    open spec fn obeys_from_spec() -> bool {
        true
    }

    open spec fn from_spec(v: ProtocolVersion) -> i32 {
        version_number(v) as i32
    }
}

impl TryFrom<i32> for ProtocolVersion {
    type Error = ProtocolVersionError;

    fn try_from(value: i32) -> (r: Result<ProtocolVersion, ProtocolVersionError>) {
        ProtocolVersion::try_from_i32(value)
    }
}

impl vstd::std_specs::convert::TryFromSpecImpl<i32> for ProtocolVersion {
    open spec fn obeys_try_from_spec() -> bool {
        true
    }

    open spec fn try_from_spec(v: i32) -> Result<ProtocolVersion, ProtocolVersionError> {
        match version_of_number(v as int) {
            Some(p) => Ok(p),
            None => Err(ProtocolVersionError::Unsupported(v)),
        }
    }
}

/// Error when parsing or using protocol versions.
#[derive(Debug, Clone, PartialEq, Eq, Structural)]
pub enum ProtocolVersionError {
    /// The protocol version is not supported.
    Unsupported(i32),
}

/// The message that `Display` shows for an unsupported version `v`.
pub open spec fn unsupported_message(v: int) -> Seq<char> {
    "protocol version "@ + decimal_int(v) + " is not supported; supported versions: ["@
        + decimal_int(34) + ", "@ + decimal_int(35) + "]"@
}

impl ProtocolVersionError {
    /// The human-readable message of this error.
    pub fn to_string(&self) -> (s: String)
        ensures
            match self {
                ProtocolVersionError::Unsupported(v) => s@ == unsupported_message(*v as int),
            },
    {
        match self {
            ProtocolVersionError::Unsupported(v) => {
                let mut s = String::from_str("protocol version ");
                push_decimal_i32(&mut s, *v);
                s.append(" is not supported; supported versions: [");
                let versions = ProtocolVersion::supported_versions();
                push_decimal_i32(&mut s, versions[0].as_i32());
                s.append(", ");
                push_decimal_i32(&mut s, versions[1].as_i32());
                s.append("]");
                s
            },
        }
    }
}

/// A version's number takes it back to the same version.
pub proof fn lemma_version_number_roundtrip(v: ProtocolVersion)
    ensures
        version_of_number(version_number(v)) == Some(v),
{
}

/// A number that names a version is that version's number.
pub proof fn lemma_number_version_roundtrip(n: int)
    ensures
        version_of_number(n) matches Some(v) ==> version_number(v) == n,
{
}

/// Exactly the versions that `stable_versions` lists are stable; every version
/// is supported, and a supported version is either stable or alpha, not both.
pub proof fn lemma_stable_versions_consistent(v: ProtocolVersion)
    ensures
        stable(v) <==> stable_seq().contains(v),
        supported_seq().contains(v),
        stable(v) != alpha(v),
        stable_seq().contains(LATEST_STABLE_VERSION),
        stable_seq().contains(MINIMUM_STABLE_VERSION),
{
    assert(stable_seq()[0] == ProtocolVersion::V34);
    assert(supported_seq()[0] == ProtocolVersion::V34);
    assert(supported_seq()[1] == ProtocolVersion::V35);
}

} // verus!
