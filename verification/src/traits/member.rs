//! The member interface: one entry of the EID's membership record.

use vstd::prelude::*;

verus! {

/// A member of the EID. A member is identified by a stable identity that
/// never changes; its public key material rotates on update. Implementors
/// must compare members by identity, never by current key, so that a member
/// stays equal to itself across key rotations.
pub trait Member: Sized + Clone {
    /// The credential a member is created from.
    type CredentialProvider;

    /// Create a member from a credential.
    fn new(cred: Self::CredentialProvider) -> Self;

    /// Get the signature public key of the member.
    fn get_pk(&self) -> Vec<u8>;
}

} // verus!
