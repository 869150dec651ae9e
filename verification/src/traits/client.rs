//! The client interface: a live participant of the EID.

use vstd::prelude::*;

use crate::traits::backend::EidBackend;
use crate::traits::evolvement::Evolvement;
use crate::traits::member::Member;
use crate::traits::state::EidState;
use crate::traits::transcript::{EidExportedTranscriptState, EidTranscript};
use crate::traits::types::EidError;

verus! {

/// A client of an EID: it authors new evolvements and evolves its own state
/// by applying evolvements, its own and those of the other participants.
pub trait EidClient: Sized {
    /// The evolvements this client creates and applies.
    type EvolvementProvider: Evolvement;

    /// The members that can be added to or removed from the EID.
    type MemberProvider: Member;

    /// The transcript state that corresponds to this client.
    type TranscriptStateProvider: EidState<
        EvolvementProvider = Self::EvolvementProvider,
        MemberProvider = Self::MemberProvider,
    >;

    /// The state a client exports for a transcript to bootstrap from.
    type ExportedTranscriptStateProvider: EidExportedTranscriptState<
        TranscriptStateProvider = Self::TranscriptStateProvider,
        BackendProvider = Self::BackendProvider,
    >;

    /// The backend this client uses.
    type BackendProvider: EidBackend;

    /// The key material this client signs with.
    type KeyProvider;

    /// The transcript implementation that can follow this client.
    type TranscriptProvider: EidTranscript<
        EvolvementProvider = Self::EvolvementProvider,
        StateProvider = Self::TranscriptStateProvider,
        BackendProvider = Self::BackendProvider,
        MemberProvider = Self::MemberProvider,
    >;

    /// Create the first client of a new EID, whose only member is the
    /// creator. The resulting state is unverifiable by construction and is
    /// accepted on trust-on-first-use.
    fn create_eid(
        initial_member: &Self::MemberProvider,
        key_pair: Self::KeyProvider,
        backend: &Self::BackendProvider,
    ) -> Result<Self, EidError>;

    /// Create a client from the Add evolvement that invited its member into
    /// an existing EID. Fails with `InvalidInvitationError` if the evolvement
    /// is not an Add directed at this client.
    fn create_from_invitation(
        invitation: Self::EvolvementProvider,
        signature_keypair: Self::KeyProvider,
        backend: &Self::BackendProvider,
    ) -> Result<Self, EidError>;

    /// Create an evolvement that adds a member to the EID. The addition does
    /// not take effect locally until the client evolves over the produced
    /// evolvement. Fails with `AddMemberError` if an identity-equal member is
    /// already present.
    fn add(
        &mut self,
        member: &Self::MemberProvider,
        backend: &Self::BackendProvider,
    ) -> Result<Self::EvolvementProvider, EidError>;

    /// Create an evolvement that removes a member from the EID. Fails with
    /// `InvalidMemberError` if the identity is absent.
    fn remove(
        &mut self,
        member: &Self::MemberProvider,
        backend: &Self::BackendProvider,
    ) -> Result<Self::EvolvementProvider, EidError>;

    /// Create an evolvement that rotates the caller's own key material. The
    /// new key is pending until the client evolves over the produced
    /// evolvement.
    fn update(&mut self, backend: &Self::BackendProvider) -> Result<
        Self::EvolvementProvider,
        EidError,
    >;

    /// Apply the next evolvement, changing the client's state; on failure the
    /// client is unchanged.
    fn evolve(
        &mut self,
        evolvement: Self::EvolvementProvider,
        backend: &Self::BackendProvider,
    ) -> Result<(), EidError>;

    /// Evolve the client's state over each evolvement of a list in order,
    /// stopping at the first failure.
    fn batch_evolve(
        &mut self,
        evolvements: Vec<Self::EvolvementProvider>,
        backend: &Self::BackendProvider,
    ) -> Result<(), EidError> {
        let mut i: usize = 0;
        while i < evolvements.len()
            decreases evolvements.len() - i,
        {
            let evolvement = evolvements[i].clone();
            let res = self.evolve(evolvement, backend);
            if let Err(e) = res {
                return Err(e);
            }
            i = i + 1;
        }
        Ok(())
    }

    /// Cross-sign this client's own membership. A member invited via `add`
    /// counts as part of the EID only once its cross-sign evolvement has been
    /// applied: presence must be self-attested, not merely asserted by
    /// whoever added the key.
    fn cross_sign_membership(&mut self, backend: &Self::BackendProvider) -> Result<
        Self::EvolvementProvider,
        EidError,
    >;

    /// Get all members of the EID: only identities that have cross-signed.
    fn get_members(&self) -> Vec<Self::MemberProvider>;

    /// Export this client's state as the trusted bootstrap artifact a
    /// transcript is created from.
    fn export_transcript_state(&self, backend: &Self::BackendProvider) -> Result<
        Self::ExportedTranscriptStateProvider,
        EidError,
    >;

    /// Generate a member, not yet cross-signed, that can be added to an EID.
    fn generate_member(id: Vec<u8>, backend: &Self::BackendProvider) -> Result<
        (Self::MemberProvider, Self::KeyProvider),
        EidError,
    >;

    /// Generate the initial client of a new EID for a fresh member.
    fn generate_initial_client(id: Vec<u8>, backend: &Self::BackendProvider) -> Result<
        Self,
        EidError,
    >;
}

} // verus!
