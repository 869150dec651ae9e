//! Convenience plumbing around the protocol: building a transcript from a
//! client, moving evolvements over a simulated wire, and the add/cross-sign
//! dance. Useful for tests and examples; every step's error is surfaced.

use vstd::prelude::*;

use crate::traits::client::EidClient;
use crate::traits::evolvement::Evolvement;
use crate::traits::transcript::{EidExportedTranscriptState, EidTranscript};
use crate::traits::types::EidError;

verus! {

/// Simulate a transfer over the wire: serialize the evolvement and
/// deserialize it back.
pub fn simulate_transfer<E: Evolvement>(input: &E) -> Result<E, EidError> {
    let bytes = input.tls_serialize_detached()?;
    E::tls_deserialize_detached(bytes.as_slice())
}

/// Build a transcript by exporting the client's state — moved over a
/// simulated wire — and trusting it as the transcript's bootstrap.
pub fn build_transcript<C: EidClient>(client: &C, backend: &C::BackendProvider) -> Result<
    C::TranscriptProvider,
    EidError,
> {
    let exported = client.export_transcript_state(backend)?;
    let bytes = exported.tls_serialize_detached()?;
    let imported = C::ExportedTranscriptStateProvider::tls_deserialize_detached(bytes.as_slice())?;
    let trusted = imported.into_transcript_state(backend)?;
    C::TranscriptProvider::new(trusted, Vec::new(), backend)
}

/// Cross-sign the client's membership and apply the evolvement to the client
/// and the transcript.
pub fn cross_sign<C: EidClient>(
    client: &mut C,
    transcript: &mut C::TranscriptProvider,
    backend: &C::BackendProvider,
) -> Result<C::EvolvementProvider, EidError> {
    let out = client.cross_sign_membership(backend)?;
    let evolvement = simulate_transfer(&out)?;
    transcript.evolve(evolvement.clone(), backend)?;
    client.evolve(evolvement.clone(), backend)?;
    Ok(evolvement)
}

/// Add a member to the EID, evolve client and transcript over the addition,
/// let the new member's client join and cross-sign, and evolve everyone over
/// the cross-signing: returns the two transferred evolvements.
pub fn add_and_cross_sign<C: EidClient>(
    client: &mut C,
    transcript: &mut C::TranscriptProvider,
    member: C::MemberProvider,
    keypair: C::KeyProvider,
    backend: &C::BackendProvider,
) -> Result<(C::EvolvementProvider, C::EvolvementProvider), EidError> {
    let add_out = client.add(&member, backend)?;
    let add_in = simulate_transfer(&add_out)?;
    transcript.evolve(add_in.clone(), backend)?;
    client.evolve(add_in.clone(), backend)?;
    let mut new_client = C::create_from_invitation(add_in.clone(), keypair, backend)?;
    let cross_sign_in = cross_sign(&mut new_client, transcript, backend)?;
    client.evolve(cross_sign_in.clone(), backend)?;
    Ok((add_in, cross_sign_in))
}

} // verus!
