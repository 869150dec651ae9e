//! The transcript's state of the engine-based EID: a secretless public view
//! of the group, and the exported snapshot a transcript bootstraps from.

use vstd::prelude::*;

use crate::mls::backend::EidMlsBackend;
use crate::mls::bindings::{
    clone_public_group,
    mls_in_extract,
    mls_in_from_bytes,
    mls_out_to_bytes,
    new_proposal_store,
    public_group_from_external,
    public_group_merge_commit,
    public_group_process_message,
    ratchet_tree_in_from_bytes,
    ratchet_tree_to_bytes,
    CommitContent,
    MessageBody,
};
use crate::mls::client_state::{collect_leaf_views, filter_cross_signed_members};
use crate::mls::evolvement::EidMlsEvolvement;
use crate::mls::member::{public_group_members_info, EidMlsMember};
use crate::traits::state::EidState;
use crate::traits::transcript::EidExportedTranscriptState;
use crate::traits::types::EidError;

verus! {

/// The state of a transcript: the engine's public, secretless view of the
/// group. It validates evolvements using exclusively public,
/// signature-verifiable material.
pub struct EidMlsTranscriptState {
    pub(crate) group: openmls::group::PublicGroup,
}

impl EidMlsTranscriptState {
    /// Wrap a public view as a transcript state.
    pub(crate) fn new(group: openmls::group::PublicGroup) -> Self {
        EidMlsTranscriptState { group }
    }

    /// An equal, independent copy of this state, made through the engine's
    /// serialization of the public view; fails with `SerializationError` or
    /// `DeserializationError` if the engine cannot encode or decode it.
    pub(crate) fn clone_serde(&self) -> (r: Result<Self, EidError>)
        ensures
            r matches Err(e) ==> e is SerializationError,
    {
        match clone_public_group(&self.group) {
            Ok(group) => Ok(EidMlsTranscriptState { group }),
            Err(e) => Err(EidError::SerializationError(e)),
        }
    }

    /// The leaf summaries of the current epoch, one per leaf up to the
    /// highest member index.
    fn leaf_views(&self) -> Vec<Option<crate::mls::bindings::LeafView>> {
        let members = public_group_members_info(&self.group);
        let mut leaf_count: u32 = 0;
        let mut i: usize = 0;
        while i < members.len()
            invariant
                i <= members@.len(),
            decreases members@.len() - i,
        {
            if let Some(index) = members[i].leaf_index {
                if index < u32::MAX && index + 1 > leaf_count {
                    leaf_count = index + 1;
                }
            }
            i = i + 1;
        }
        collect_leaf_views(&self.group, leaf_count)
    }
}

impl EidState for EidMlsTranscriptState {
    type EvolvementProvider = EidMlsEvolvement;

    type MemberProvider = EidMlsMember;

    type BackendProvider = EidMlsBackend;

    /// Only an inbound evolvement whose message is a public handshake message
    /// can apply; the engine validates it against the public view — detecting
    /// forgery and reordering from public material alone — and only a commit
    /// it accepts is merged. On any failure the state is unchanged.
    fn apply(
        &mut self,
        evolvement: EidMlsEvolvement,
        backend: &EidMlsBackend,
    ) -> (r: Result<(), EidError>)
        ensures
            r matches Err(e) ==> (e is InvalidEvolvementError && *final(self) == *old(self)),
            evolvement is OUT ==> r is Err,
    {
        match evolvement {
            EidMlsEvolvement::IN { message, .. } => match mls_in_extract(message) {
                MessageBody::Public(public_message) => {
                    let processed = match public_group_process_message(
                        &self.group,
                        &backend.mls_backend,
                        public_message,
                    ) {
                        Ok(p) => p,
                        Err(e) => {
                            return Err(EidError::InvalidEvolvementError(e));
                        },
                    };
                    match crate::mls::bindings::processed_into_content(processed) {
                        CommitContent::Staged(staged) => {
                            public_group_merge_commit(&mut self.group, staged);
                            Ok(())
                        },
                        CommitContent::NotACommit => Err(
                            EidError::InvalidEvolvementError(
                                "Expected a commit message, got another kind of content".to_owned(),
                            ),
                        ),
                    }
                },
                _ => Err(
                    EidError::InvalidEvolvementError(
                        "Expected a public handshake message".to_owned(),
                    ),
                ),
            },
            EidMlsEvolvement::OUT { .. } => Err(
                EidError::InvalidEvolvementError(
                    "Expected an inbound evolvement, got an outbound one".to_owned(),
                ),
            ),
        }
    }

    /// Exactly the members the engine lists whose leaf carries a
    /// cross-signing proof: the same filter a client applies.
    fn get_members(&self) -> (r: Vec<EidMlsMember>)
        ensures
            forall|i: int|
                0 <= i < r@.len() ==> (#[trigger] r@[i])@.leaf_index is Some,
    {
        let members = public_group_members_info(&self.group);
        let ghost listed = members@;
        let leaves = self.leaf_views();
        let r = filter_cross_signed_members(members, &leaves);
        proof {
            crate::mls::client_state::lemma_visible_members_pred(listed, leaves@);
        }
        r
    }

    /// Whether some cross-signed member carries the same stable identity —
    /// the signature key — as the given member.
    fn verify_member(&self, member: &EidMlsMember) -> (r: bool) {
        let visible = self.get_members();
        let mut i: usize = 0;
        while i < visible.len()
            decreases visible@.len() - i,
        {
            if crate::bytes::bytes_eq(&visible[i].signature_key, &member.signature_key) {
                return true;
            }
            i = i + 1;
        }
        false
    }
}

/// The serializable snapshot a client exports and a transcript bootstraps
/// from: the signed public group descriptor, and the public tree that holds
/// the key material to verify it against. Outbound on the exporting side,
/// inbound after the wire.
pub enum EidMlsExportedTranscriptState {
    IN {
        group_info: openmls::prelude::MlsMessageIn,
        nodes: openmls::prelude::RatchetTreeIn,
    },
    OUT {
        group_info: openmls::prelude::MlsMessageOut,
        nodes: openmls::treesync::RatchetTree,
    },
}

impl EidExportedTranscriptState for EidMlsExportedTranscriptState {
    type TranscriptStateProvider = EidMlsTranscriptState;

    type BackendProvider = EidMlsBackend;

    /// The anchor of trust-on-first-use: an inbound snapshot whose descriptor
    /// is a group info yields a trusted state exactly when the engine
    /// verifies the descriptor's signature against the signer's key taken
    /// from the embedded public tree; a failed check is a
    /// `CreateTranscriptStateError`. A snapshot that is outbound, or whose
    /// descriptor is not a group info, is rejected as
    /// `ImportTranscriptStateError`.
    fn into_transcript_state(self, backend: &EidMlsBackend) -> (r: Result<
        EidMlsTranscriptState,
        EidError,
    >)
        ensures
            self is OUT ==> r matches Err(EidError::ImportTranscriptStateError(_)),
            r is Ok ==> self is IN,
            r matches Err(e) ==> (e is ImportTranscriptStateError || e is CreateTranscriptStateError),
    {
        match self {
            EidMlsExportedTranscriptState::IN { group_info, nodes } => {
                match mls_in_extract(group_info) {
                    MessageBody::GroupInfo(verifiable_group_info) => {
                        match public_group_from_external(
                            &backend.mls_backend,
                            nodes,
                            verifiable_group_info,
                            new_proposal_store(),
                        ) {
                            Ok(group) => Ok(EidMlsTranscriptState::new(group)),
                            Err(e) => Err(EidError::CreateTranscriptStateError(e)),
                        }
                    },
                    _ => Err(
                        EidError::ImportTranscriptStateError(
                            "Expected a group info descriptor, got another kind of message".to_owned(),
                        ),
                    ),
                }
            },
            EidMlsExportedTranscriptState::OUT { .. } => Err(
                EidError::ImportTranscriptStateError(
                    "Expected an inbound snapshot, got an outbound one".to_owned(),
                ),
            ),
        }
    }

    /// Only an outbound snapshot serializes: the descriptor's encoding, then
    /// the tree's. An inbound one, or an engine encoding failure, is a
    /// `SerializationError`.
    fn tls_serialize_detached(&self) -> (r: Result<Vec<u8>, EidError>)
        ensures
            self is IN ==> r matches Err(EidError::SerializationError(_)),
            r is Ok ==> self is OUT,
            r matches Err(e) ==> e is SerializationError,
    {
        match self {
            EidMlsExportedTranscriptState::OUT { group_info, nodes } => {
                let info_bytes = match mls_out_to_bytes(group_info) {
                    Ok(b) => b,
                    Err(e) => {
                        return Err(EidError::SerializationError(e));
                    },
                };
                let mut out = info_bytes;
                let mut tree_bytes = match ratchet_tree_to_bytes(nodes) {
                    Ok(b) => b,
                    Err(e) => {
                        return Err(EidError::SerializationError(e));
                    },
                };
                out.append(&mut tree_bytes);
                Ok(out)
            },
            EidMlsExportedTranscriptState::IN { .. } => Err(
                EidError::SerializationError(
                    "Expected an outbound snapshot, got an inbound one".to_owned(),
                ),
            ),
        }
    }

    /// Deserialization reads one descriptor and one tree from the buffer and
    /// always yields the inbound form; a malformed buffer is a
    /// `DeserializationError`.
    fn tls_deserialize_detached(bytes: &[u8]) -> (r: Result<Self, EidError>)
        ensures
            r matches Ok(s) ==> s is IN,
            r matches Err(e) ==> e is DeserializationError,
    {
        match mls_in_from_bytes(bytes) {
            Ok((group_info, used)) => {
                let rest = vstd::slice::slice_subrange(bytes, used, bytes.len());
                match ratchet_tree_in_from_bytes(rest) {
                    Ok((nodes, _)) => Ok(EidMlsExportedTranscriptState::IN { group_info, nodes }),
                    Err(e) => Err(EidError::DeserializationError(e)),
                }
            },
            Err(e) => Err(EidError::DeserializationError(e)),
        }
    }
}

} // verus!
