//! Restrictions of a [`super::NamespaceDelegation`].
use vstd::prelude::*;

verus! {

/// The delegated key may sign all mappings.
#[derive(Debug, Clone, Copy, PartialEq, Eq, Structural)]
pub struct CanSignAllMappings {}

/// The delegated key may sign all mappings except namespace delegations.
#[derive(Debug, Clone, Copy, PartialEq, Eq, Structural)]
pub struct CanSignAllButNamespaceDelegations {}

/// What the delegated key may sign.
#[derive(Debug, Clone, Copy, PartialEq, Eq, Structural)]
pub enum Restriction {
    CanSignAllMappings(CanSignAllMappings),
    CanSignAllButNamespaceDelegations(CanSignAllButNamespaceDelegations),
}

} // verus!
