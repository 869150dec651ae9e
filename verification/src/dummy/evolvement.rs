//! The evolvement of the plaintext EID implementation.

use vstd::prelude::*;

use crate::dummy::codec::{deserialize_evolvement, parse_evolvement_spec, ser_evolvement, serialize_evolvement};
use crate::bytes::clone_bytes;
use crate::dummy::member::{clone_members, mview, EidDummyMember, MemberView};
use crate::traits::evolvement::Evolvement;
use crate::traits::types::EidError;

verus! {

/// The mathematical content of one evolvement: its position in the history
/// (`count`), the full member list that results from applying it, and, for an
/// addition, the identity of the invited member.
pub enum EvolvementView {
    Add { count: nat, members: Seq<MemberView>, invited_id: Seq<u8> },
    Update { count: nat, members: Seq<MemberView> },
    Remove { count: nat, members: Seq<MemberView> },
}

impl EvolvementView {
    /// The position of this evolvement in the EID's history: a valid
    /// evolvement carries the count of the state it was authored from,
    /// plus one.
    pub open spec fn count(self) -> nat {
        match self {
            EvolvementView::Add { count, .. } => count,
            EvolvementView::Update { count, .. } => count,
            EvolvementView::Remove { count, .. } => count,
        }
    }

    /// The member list that results from applying this evolvement.
    pub open spec fn members(self) -> Seq<MemberView> {
        match self {
            EvolvementView::Add { members, .. } => members,
            EvolvementView::Update { members, .. } => members,
            EvolvementView::Remove { members, .. } => members,
        }
    }

    /// Whether this evolvement is a valid successor of `previous`: it must
    /// sit exactly one position later in the history.
    pub open spec fn valid_successor_of(self, previous: EvolvementView) -> bool {
        self.count() == previous.count() + 1
    }
}

/// One membership transition of the plaintext EID. It is a transition
/// artifact, not a snapshot: it carries enough material (here, in plaintext,
/// the full resulting member list) for any receiver to derive the resulting
/// membership deterministically, plus its position in the history, which
/// receivers use to reject replayed or reordered evolvements.
#[derive(Debug)]
pub enum EidDummyEvolvement {
    Add { count: u64, members: Vec<EidDummyMember>, invited_id: Vec<u8> },
    Update { count: u64, members: Vec<EidDummyMember> },
    Remove { count: u64, members: Vec<EidDummyMember> },
}

impl View for EidDummyEvolvement {
    type V = EvolvementView;

    open(crate) spec fn view(&self) -> EvolvementView {
        match self {
            EidDummyEvolvement::Add { count, members, invited_id } => EvolvementView::Add {
                count: *count as nat,
                members: mview(members@),
                invited_id: invited_id@,
            },
            EidDummyEvolvement::Update { count, members } => EvolvementView::Update {
                count: *count as nat,
                members: mview(members@),
            },
            EidDummyEvolvement::Remove { count, members } => EvolvementView::Remove {
                count: *count as nat,
                members: mview(members@),
            },
        }
    }
}

impl Clone for EidDummyEvolvement {
    /// Cloning keeps the evolvement's whole content.
    fn clone(&self) -> (r: Self)
        ensures
            r@ == self@,
    {
        match self {
            EidDummyEvolvement::Add { count, members, invited_id } => EidDummyEvolvement::Add {
                count: *count,
                members: clone_members(members),
                invited_id: clone_bytes(invited_id),
            },
            EidDummyEvolvement::Update { count, members } => EidDummyEvolvement::Update {
                count: *count,
                members: clone_members(members),
            },
            EidDummyEvolvement::Remove { count, members } => EidDummyEvolvement::Remove {
                count: *count,
                members: clone_members(members),
            },
        }
    }
}

impl EidDummyEvolvement {
    /// The position of this evolvement in the EID's history.
    pub fn count(&self) -> (r: u64)
        ensures
            r as nat == self@.count(),
    {
        match self {
            EidDummyEvolvement::Add { count, .. } => *count,
            EidDummyEvolvement::Update { count, .. } => *count,
            EidDummyEvolvement::Remove { count, .. } => *count,
        }
    }

    /// Whether this evolvement is a valid successor of `previous`: true iff
    /// it sits exactly one position later in the EID's history, so that it
    /// can only have been produced from the state that results from applying
    /// `previous`.
    pub fn is_valid_successor(&self, previous: &Self) -> (r: bool)
        ensures
            r == self@.valid_successor_of(previous@),
    {
        let prev = previous.count();
        prev < u64::MAX && self.count() == prev + 1
    }
}

impl Evolvement for EidDummyEvolvement {
    /// Serialization always succeeds and yields exactly the wire encoding.
    fn tls_serialize_detached(&self) -> (r: Result<Vec<u8>, EidError>)
        ensures
            r matches Ok(v) && v@ == ser_evolvement(self@),
    {
        Ok(serialize_evolvement(self))
    }

    /// Deserialization accepts exactly the byte strings that encode one
    /// evolvement with nothing following it, and returns that evolvement;
    /// everything else is a `DeserializationError`.
    fn tls_deserialize_detached(bytes: &[u8]) -> (r: Result<Self, EidError>)
        ensures
            match parse_evolvement_spec(bytes@, 0) {
                Some((v, end)) => if end == bytes@.len() {
                    r matches Ok(e) && e@ == v
                } else {
                    r matches Err(EidError::DeserializationError(_))
                },
                None => r matches Err(EidError::DeserializationError(_)),
            },
    {
        match deserialize_evolvement(bytes) {
            Some(e) => Ok(e),
            None => Err(EidError::DeserializationError("Malformed evolvement".to_owned())),
        }
    }
}

} // verus!
