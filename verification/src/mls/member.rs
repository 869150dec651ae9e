//! The member record of the engine-based EID implementation.

use vstd::prelude::*;

use crate::bytes::{bytes_eq, clone_bytes};
use crate::mls::bindings::credential_signature_key_bytes;
use crate::traits::member::Member;

verus! {

/// The mathematical content of one member record: the stable signature key
/// that identifies the member, the rotating encryption key, the member's leaf
/// position once it is part of a group, and whether a key package for adding
/// it is at hand.
pub struct MlsMemberView {
    pub signature_key: Seq<u8>,
    pub encryption_key: Seq<u8>,
    pub leaf_index: Option<u32>,
    pub has_key_package: bool,
}

/// A member of the engine-based EID. The signature key is the stable
/// identity — the engine rotates a leaf's encryption key on update while its
/// signature key stays — so equality is defined over the signature key alone.
#[derive(Debug, Clone)]
pub struct EidMlsMember {
    pub(crate) leaf_index: Option<u32>,
    pub(crate) signature_key: Vec<u8>,
    pub(crate) encryption_key: Vec<u8>,
    pub(crate) key_package: Option<openmls::prelude::KeyPackage>,
    pub(crate) credential: openmls::prelude::CredentialWithKey,
}

impl View for EidMlsMember {
    type V = MlsMemberView;

    open(crate) spec fn view(&self) -> MlsMemberView {
        MlsMemberView {
            signature_key: self.signature_key@,
            encryption_key: self.encryption_key@,
            leaf_index: self.leaf_index,
            has_key_package: self.key_package is Some,
        }
    }
}

impl PartialEq for EidMlsMember {
    /// Members are equal when their stable signature keys are: the rotating
    /// encryption key and the leaf position do not enter, so that a member
    /// stays equal to itself across key rotations.
    fn eq(&self, other: &Self) -> (r: bool) {
        bytes_eq(&self.signature_key, &other.signature_key)
    }
}

impl vstd::std_specs::cmp::PartialEqSpecImpl for EidMlsMember {
    open spec fn obeys_eq_spec() -> bool {
        true
    }

    open spec fn eq_spec(&self, other: &Self) -> bool {
        self@.signature_key == other@.signature_key
    }
}

impl Member for EidMlsMember {
    type CredentialProvider = (
        openmls::prelude::KeyPackage,
        openmls::prelude::CredentialWithKey,
    );

    /// A fresh member, not yet part of any group: it has no leaf position,
    /// and carries the key package it can be added with.
    fn new(cred: (openmls::prelude::KeyPackage, openmls::prelude::CredentialWithKey)) -> (r: Self)
        ensures
            r@.leaf_index is None,
            r@.has_key_package,
    {
        let (key_package, credential) = cred;
        let signature_key = credential_signature_key_bytes(&credential);
        EidMlsMember {
            leaf_index: None,
            signature_key,
            encryption_key: Vec::new(),
            key_package: Some(key_package),
            credential,
        }
    }

    /// The member's current public key material: the encryption key as read
    /// back from the group, empty for a member that was generated but not yet
    /// read back.
    fn get_pk(&self) -> (r: Vec<u8>)
        ensures
            r@ == self@.encryption_key,
    {
        clone_bytes(&self.encryption_key)
    }
}

/// Relies on MlsGroup::members and the index, signature_key, encryption_key
/// and credential fields of the member listing: one record per member of the
/// group's current epoch, each at its leaf index.
#[verifier::external_body]
pub(crate) fn group_members_info(group: &openmls::group::MlsGroup) -> (r: Vec<EidMlsMember>)
    ensures
        forall|i: int| 0 <= i < r@.len() ==> (#[trigger] r@[i])@.leaf_index is Some,
{
    group.members().map(
        |m| EidMlsMember {
            leaf_index: Some(m.index.u32()),
            signature_key: m.signature_key.clone(),
            encryption_key: m.encryption_key.clone(),
            key_package: None,
            credential: openmls::prelude::CredentialWithKey {
                credential: m.credential,
                signature_key: m.signature_key.into(),
            },
        },
    ).collect()
}

/// Relies on PublicGroup::members and the index, signature_key,
/// encryption_key and credential fields of the member listing: one record per
/// member of the public view's current epoch, each at its leaf index.
#[verifier::external_body]
pub(crate) fn public_group_members_info(
    group: &openmls::group::PublicGroup,
) -> (r: Vec<EidMlsMember>)
    ensures
        forall|i: int| 0 <= i < r@.len() ==> (#[trigger] r@[i])@.leaf_index is Some,
{
    group.members().map(
        |m| EidMlsMember {
            leaf_index: Some(m.index.u32()),
            signature_key: m.signature_key.clone(),
            encryption_key: m.encryption_key.clone(),
            key_package: None,
            credential: openmls::prelude::CredentialWithKey {
                credential: m.credential,
                signature_key: m.signature_key.into(),
            },
        },
    ).collect()
}

} // verus!
