//! The alternatives of a [`super::TopologyMapping`].
use vstd::prelude::*;
use super::{NamespaceDelegation, OwnerToKeyMapping, SynchronizerTrustCertificate};

verus! {

/// The kind of topology mapping.
#[derive(Debug, Clone, PartialEq, Eq)]
pub enum Mapping {
    NamespaceDelegation(NamespaceDelegation),
    OwnerToKeyMapping(OwnerToKeyMapping),
    SynchronizerTrustCertificate(SynchronizerTrustCertificate),
}

} // verus!
