//! The alternatives of a [`super::PublicKey`].
use vstd::prelude::*;
use super::SigningPublicKey;

verus! {

/// The kind of public key.
#[derive(Debug, Clone, PartialEq, Eq)]
pub enum Key {
    SigningPublicKey(SigningPublicKey),
}

} // verus!
