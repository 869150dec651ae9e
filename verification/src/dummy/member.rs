//! The member record of the plaintext EID implementation.

use vstd::prelude::*;

use crate::bytes::{bytes_eq, clone_bytes};

use crate::traits::member::Member;

verus! {

/// An explicit boolean, kept as a one-byte tagged value on the wire.
#[derive(Debug, Clone, Copy, PartialEq, Eq, Structural)]
pub enum BOOLEAN {
    TRUE,
    FALSE,
}

impl BOOLEAN {
    /// The truth value this tag stands for.
    pub open spec fn holds(self) -> bool {
        self is TRUE
    }
}

/// The mathematical content of one member record: a stable identity, the
/// current public key, and whether the member has cross-signed its own
/// membership.
pub struct MemberView {
    pub id: Seq<u8>,
    pub pk: Seq<u8>,
    pub cross_signed: bool,
}

/// A member of the plaintext EID. The identity never changes across updates;
/// the public key rotates on update; equality is identity-based, so a member
/// compares equal to itself across key rotations.
#[derive(Debug, Eq)]
pub struct EidDummyMember {
    pub(crate) id: Vec<u8>,
    pub(crate) pk: Vec<u8>,
    pub(crate) cross_signed: BOOLEAN,
}

impl View for EidDummyMember {
    type V = MemberView;

    open(crate) spec fn view(&self) -> MemberView {
        MemberView { id: self.id@, pk: self.pk@, cross_signed: self.cross_signed.holds() }
    }
}

impl PartialEq for EidDummyMember {
    /// Members are equal when their identities are: the key and the
    /// cross-sign flag do not enter, so that a member stays equal to itself
    /// across key rotations.
    fn eq(&self, other: &Self) -> (r: bool) {
        bytes_eq(&self.id, &other.id)
    }
}

impl vstd::std_specs::cmp::PartialEqSpecImpl for EidDummyMember {
    open spec fn obeys_eq_spec() -> bool {
        true
    }

    open spec fn eq_spec(&self, other: &Self) -> bool {
        self@.id == other@.id
    }
}

impl Clone for EidDummyMember {
    /// Cloning keeps identity, key and cross-sign flag.
    fn clone(&self) -> (r: Self)
        ensures
            r@ == self@,
    {
        EidDummyMember {
            id: clone_bytes(&self.id),
            pk: clone_bytes(&self.pk),
            cross_signed: self.cross_signed,
        }
    }
}

impl Member for EidDummyMember {
    type CredentialProvider = Vec<u8>;

    /// A fresh member starts with its credential as both identity and key,
    /// and has not cross-signed yet.
    fn new(cred: Vec<u8>) -> (r: Self)
        ensures
            r@ == (MemberView { id: cred@, pk: cred@, cross_signed: false }),
    {
        EidDummyMember { id: clone_bytes(&cred), pk: cred, cross_signed: BOOLEAN::FALSE }
    }

    /// The member's current public key.
    fn get_pk(&self) -> (r: Vec<u8>)
        ensures
            r@ == self@.pk,
    {
        clone_bytes(&self.pk)
    }
}


/// The views of a list of member records.
pub open spec fn mview(s: Seq<EidDummyMember>) -> Seq<MemberView> {
    s.map_values(|m: EidDummyMember| m@)
}

/// Copy a list of member records.
pub(crate) fn clone_members(v: &Vec<EidDummyMember>) -> (r: Vec<EidDummyMember>)
    ensures
        mview(r@) == mview(v@),
{
    let mut r: Vec<EidDummyMember> = Vec::new();
    let mut i: usize = 0;
    while i < v.len()
        invariant
            i <= v.len(),
            r@.len() == i,
            forall|j: int| 0 <= j < i ==> r@[j]@ == v@[j]@,
        decreases v.len() - i,
    {
        r.push(v[i].clone());
        i = i + 1;
    }
    proof {
        assert(mview(r@) =~= mview(v@));
    }
    r
}

} // verus!
