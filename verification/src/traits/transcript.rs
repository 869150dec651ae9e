//! The transcript interface: a passive, secretless verifier of the EID.

use vstd::prelude::*;

use crate::traits::backend::EidBackend;
use crate::traits::evolvement::Evolvement;
use crate::traits::member::Member;
use crate::traits::state::EidState;
use crate::traits::types::EidError;

verus! {

/// The public transcript of an EID. A transcript holds a trusted bootstrap
/// state and a log of evolvements; it recomputes the current state by applying
/// evolvements exactly as clients do, using public material only, and it can
/// never author an evolvement.
pub trait EidTranscript: Sized {
    /// The evolvements this transcript replays.
    type EvolvementProvider: Evolvement;

    /// The members this transcript reports.
    type MemberProvider: Member;

    /// The backend this transcript validates against.
    type BackendProvider: EidBackend;

    /// The state this transcript replays over.
    type StateProvider: EidState<
        EvolvementProvider = Self::EvolvementProvider,
        MemberProvider = Self::MemberProvider,
    >;

    /// Build a transcript from a trusted bootstrap state and the evolvements
    /// that happened after it, validating the log entry by entry; creation
    /// fails on the first invalid entry.
    fn new(
        trusted_state: Self::StateProvider,
        log: Vec<Self::EvolvementProvider>,
        backend: &Self::BackendProvider,
    ) -> Result<Self, EidError>;

    /// Validate and apply the next evolvement, appending it to the log on
    /// success; on failure the transcript is unchanged.
    fn evolve(
        &mut self,
        evolvement: Self::EvolvementProvider,
        backend: &Self::BackendProvider,
    ) -> Result<(), EidError>;

    /// Evolve the transcript over each evolvement of a list in order,
    /// stopping at the first failure.
    fn batch_evolve(
        &mut self,
        evolvements: Vec<Self::EvolvementProvider>,
        backend: &Self::BackendProvider,
    ) -> Result<(), EidError> {
        let mut i: usize = 0;
        while i < evolvements.len()
            decreases evolvements.len() - i,
        {
            let evolvement = evolvements[i].clone();
            let res = self.evolve(evolvement, backend);
            if let Err(e) = res {
                return Err(e);
            }
            i = i + 1;
        }
        Ok(())
    }

    /// The evolvements applied after the trusted state.
    fn log(&self) -> Vec<Self::EvolvementProvider>;

    /// Get all members of the EID as this transcript currently sees them.
    fn get_members(&self) -> Vec<Self::MemberProvider>;

    /// The immutable bootstrap snapshot this transcript was created from.
    fn get_trusted_state(&self) -> Result<Self::StateProvider, EidError>;
}

/// A state exported by a client and sent over the wire, from which a
/// transcript bootstraps. Its one operation verifies the embedded group
/// descriptor against the public key material it carries before handing out a
/// trusted transcript state: the anchor point of trust-on-first-use.
pub trait EidExportedTranscriptState: Sized {
    /// The transcript state this exported state verifies into.
    type TranscriptStateProvider: EidState;

    /// The backend the verification runs against.
    type BackendProvider: EidBackend;

    /// Verify this exported state and turn it into a trusted transcript state.
    fn into_transcript_state(
        self,
        backend: &Self::BackendProvider,
    ) -> Result<Self::TranscriptStateProvider, EidError>;

    /// Serialize the exported state into a detached byte string.
    fn tls_serialize_detached(&self) -> Result<Vec<u8>, EidError>;

    /// Deserialize an exported state from a byte string.
    fn tls_deserialize_detached(bytes: &[u8]) -> Result<Self, EidError>;
}

} // verus!
