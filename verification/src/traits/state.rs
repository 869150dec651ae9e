//! The state interface: one participant's view of the EID.

use vstd::prelude::*;

use crate::traits::backend::EidBackend;
use crate::traits::evolvement::Evolvement;
use crate::traits::member::Member;
use crate::traits::types::EidError;

verus! {

/// The state of an EID. Each client and each transcript holds its own state;
/// applying the same evolvements to equal states must yield equal states, so
/// that all honest parties converge.
pub trait EidState: Sized {
    /// The evolvements this state applies.
    type EvolvementProvider: Evolvement;

    /// The members this state records.
    type MemberProvider: Member;

    /// The backend this state validates against.
    type BackendProvider: EidBackend;

    /// Apply one evolvement, advancing this state, or reject it and leave the
    /// state unchanged.
    fn apply(
        &mut self,
        evolvement: Self::EvolvementProvider,
        backend: &Self::BackendProvider,
    ) -> Result<(), EidError>;

    /// Get all members recorded in this state.
    fn get_members(&self) -> Vec<Self::MemberProvider>;

    /// Whether a member is part of the EID as this state records it.
    fn verify_member(&self, member: &Self::MemberProvider) -> bool;
}

} // verus!
