//! The client of the engine-based EID implementation.

use vstd::prelude::*;

use crate::mls::backend::EidMlsBackend;
use crate::mls::bindings::{
    gen_mls_group_config,
    group_add_member,
    group_create,
    group_is_active,
    group_export_group_info,
    group_export_ratchet_tree,
    group_from_welcome,
    group_remove_member,
    group_self_update,
    mls_in_extract,
    MessageBody,
};
use crate::mls::bindings::LeafView;
use crate::mls::client_state::{cross_signed_in, EidMlsClientState};
use crate::mls::evolvement::EidMlsEvolvement;
use crate::mls::key_creation::{create_store_credential, create_store_key_package};
use crate::mls::member::EidMlsMember;
use crate::mls::transcript::EidMlsTranscript;
use crate::mls::transcript_state::{EidMlsExportedTranscriptState, EidMlsTranscriptState};
use crate::traits::client::EidClient;
use crate::traits::member::Member;
use crate::traits::state::EidState;
use crate::traits::types::EidError;

verus! {

/// A live participant of the engine-based EID: it holds its state — the
/// engine's group handle plus the membership summaries — and the signature
/// key pair it authors evolvements with.
pub struct EidMlsClient {
    pub(crate) state: EidMlsClientState,
    pub(crate) key_pair: openmls_basic_credential::SignatureKeyPair,
}

impl View for EidMlsClient {
    type V = Seq<Option<LeafView>>;

    open(crate) spec fn view(&self) -> Seq<Option<LeafView>> {
        self.state@
    }
}

impl EidClient for EidMlsClient {
    type EvolvementProvider = EidMlsEvolvement;

    type MemberProvider = EidMlsMember;

    type TranscriptStateProvider = EidMlsTranscriptState;

    type ExportedTranscriptStateProvider = EidMlsExportedTranscriptState;

    type BackendProvider = EidMlsBackend;

    type KeyProvider = openmls_basic_credential::SignatureKeyPair;

    type TranscriptProvider = EidMlsTranscript;

    /// Create a fresh EID whose only member is the initial member; the engine
    /// builds a new group signed with the given key pair, which the client
    /// keeps for authoring. A failure of the engine is a `CreateClientError`.
    fn create_eid(
        initial_member: &EidMlsMember,
        key_pair: openmls_basic_credential::SignatureKeyPair,
        backend: &EidMlsBackend,
    ) -> (r: Result<Self, EidError>)
        ensures
            r matches Err(e) ==> (e is CreateClientError || e is CreateTranscriptStateError),
    {
        let config = gen_mls_group_config();
        let group = match group_create(
            &backend.mls_backend,
            &key_pair,
            &config,
            initial_member.credential.clone(),
        ) {
            Ok(g) => g,
            Err(e) => {
                return Err(EidError::CreateClientError(e));
            },
        };
        let mut state = EidMlsClientState { group, leaves: Vec::new() };
        if let Err(e) = state.refresh_leaves(backend, &key_pair) {
            return Err(e);
        }
        Ok(EidMlsClient { state, key_pair })
    }

    /// Join an existing EID from the Add evolvement that invited this client:
    /// only an inbound evolvement that carries a welcome joins; the welcome
    /// must decode to a welcome message and the engine must verify it for the
    /// given key pair — any miss on this path is an `InvalidInvitationError`.
    /// The new client signs with the given key pair.
    fn create_from_invitation(
        invitation: EidMlsEvolvement,
        signature_keypair: openmls_basic_credential::SignatureKeyPair,
        backend: &EidMlsBackend,
    ) -> (r: Result<Self, EidError>)
        ensures
            invitation is OUT ==> r matches Err(EidError::InvalidInvitationError(_)),
            (invitation matches EidMlsEvolvement::IN { welcome: None, .. }) ==> r matches Err(
                EidError::InvalidInvitationError(_),
            ),
            r matches Err(e) ==> (e is InvalidInvitationError || e is CreateTranscriptStateError),
            r is Ok ==> (invitation matches EidMlsEvolvement::IN { welcome: Some(_), .. }),
    {
        match invitation {
            EidMlsEvolvement::IN { welcome: Some(welcome_message), .. } => {
                match mls_in_extract(welcome_message) {
                    MessageBody::Welcome(welcome) => {
                        let config = gen_mls_group_config();
                        let group = match group_from_welcome(
                            &backend.mls_backend,
                            &config,
                            welcome,
                        ) {
                            Ok(g) => g,
                            Err(e) => {
                                return Err(EidError::InvalidInvitationError(e));
                            },
                        };
                        let mut state = EidMlsClientState { group, leaves: Vec::new() };
                        if let Err(e) = state.refresh_leaves(backend, &signature_keypair) {
                            return Err(e);
                        }
                        Ok(EidMlsClient { state, key_pair: signature_keypair })
                    },
                    _ => Err(
                        EidError::InvalidInvitationError(
                            "Invitation does not carry a welcome message".to_owned(),
                        ),
                    ),
                }
            },
            EidMlsEvolvement::IN { welcome: None, .. } => Err(
                EidError::InvalidInvitationError(
                    "Invitation does not carry a welcome message".to_owned(),
                ),
            ),
            EidMlsEvolvement::OUT { .. } => Err(
                EidError::InvalidInvitationError(
                    "Expected an inbound evolvement, got an outbound one".to_owned(),
                ),
            ),
        }
    }

    /// Author an evolvement that adds a member. A member can be added only
    /// with the key package it was generated with — `AddMemberError`
    /// otherwise, and also when the engine rejects the addition. The produced
    /// evolvement is outbound and carries the welcome for the new member; the
    /// addition takes effect locally only when this client evolves over it.
    fn add(&mut self, member: &EidMlsMember, backend: &EidMlsBackend) -> (r: Result<
        EidMlsEvolvement,
        EidError,
    >)
        ensures
            !member@.has_key_package ==> (r matches Err(EidError::AddMemberError(_)) && *final(self)
                == *old(self)),
            r matches Ok(ev) ==> (ev matches EidMlsEvolvement::OUT { welcome: Some(_), .. }),
            r matches Err(e) ==> e is AddMemberError,
            final(self)@ == old(self)@,
    {
        match &member.key_package {
            Some(key_package) => {
                match group_add_member(
                    &mut self.state.group,
                    &backend.mls_backend,
                    &self.key_pair,
                    key_package.clone(),
                ) {
                    Ok((message, welcome)) => Ok(
                        EidMlsEvolvement::OUT { message, welcome: Some(welcome) },
                    ),
                    Err(e) => Err(EidError::AddMemberError(e)),
                }
            },
            None => Err(EidError::AddMemberError("No key package provided".to_owned())),
        }
    }

    /// Author an evolvement that removes a member. Only a member that is part
    /// of the group — it carries a leaf index — can be removed:
    /// `InvalidMemberError` otherwise, and `RemoveMemberError` when the engine
    /// rejects the removal. The removal takes effect locally only when this
    /// client evolves over the produced evolvement.
    fn remove(&mut self, member: &EidMlsMember, backend: &EidMlsBackend) -> (r: Result<
        EidMlsEvolvement,
        EidError,
    >)
        ensures
            member@.leaf_index is None ==> (r matches Err(EidError::InvalidMemberError(_))
                && *final(self) == *old(self)),
            member@.leaf_index is Some ==> (r is Ok || r matches Err(
                EidError::RemoveMemberError(_),
            )),
            r matches Ok(ev) ==> ev is OUT,
            final(self)@ == old(self)@,
    {
        match member.leaf_index {
            Some(leaf_index) => {
                match group_remove_member(
                    &mut self.state.group,
                    &backend.mls_backend,
                    &self.key_pair,
                    leaf_index,
                ) {
                    Ok((message, welcome)) => Ok(EidMlsEvolvement::OUT { message, welcome }),
                    Err(e) => Err(EidError::RemoveMemberError(e)),
                }
            },
            None => Err(EidError::InvalidMemberError("Member not in MLS Group".to_owned())),
        }
    }

    /// Author an evolvement that rotates this client's own key material. The
    /// produced evolvement is outbound and carries no welcome; the new key is
    /// pending until this client evolves over it. An engine failure is an
    /// `UpdateMemberError`.
    fn update(&mut self, backend: &EidMlsBackend) -> (r: Result<EidMlsEvolvement, EidError>)
        ensures
            r matches Ok(ev) ==> (ev matches EidMlsEvolvement::OUT { welcome: None, .. }),
            r matches Err(e) ==> e is UpdateMemberError,
            final(self)@ == old(self)@,
    {
        match group_self_update(&mut self.state.group, &backend.mls_backend, &self.key_pair) {
            Ok(message) => Ok(EidMlsEvolvement::OUT { message, welcome: None }),
            Err(e) => Err(EidError::UpdateMemberError(e)),
        }
    }

    /// Apply one evolvement: the state validates and merges it — merging the
    /// pending change when the evolvement is this client's own, echoed back —
    /// and the membership summaries are refreshed from the new state. Only an
    /// inbound evolvement the engine accepts as the exact next commit applies.
    /// A client that the evolvement removed from the EID keeps no view of the
    /// group: its membership summaries are cleared instead of refreshed.
    fn evolve(&mut self, evolvement: EidMlsEvolvement, backend: &EidMlsBackend) -> (r: Result<
        (),
        EidError,
    >)
        ensures
            evolvement is OUT ==> (r matches Err(EidError::InvalidEvolvementError(_))),
            r matches Err(e) ==> (e is InvalidEvolvementError || e is CreateTranscriptStateError),
    {
        let res = self.state.apply(evolvement, backend);
        match res {
            Ok(()) => {
                if group_is_active(&self.state.group) {
                    self.state.refresh_leaves(backend, &self.key_pair)
                } else {
                    self.state.leaves = Vec::new();
                    Ok(())
                }
            },
            Err(e) => Err(e),
        }
    }

    /// Cross-sign this client's own membership: a key rotation, whose commit
    /// — once applied everywhere — marks this client's leaf as self-attested.
    fn cross_sign_membership(&mut self, backend: &EidMlsBackend) -> (r: Result<
        EidMlsEvolvement,
        EidError,
    >)
        ensures
            r matches Ok(ev) ==> (ev matches EidMlsEvolvement::OUT { welcome: None, .. }),
            r matches Err(e) ==> e is UpdateMemberError,
            final(self)@ == old(self)@,
    {
        self.update(backend)
    }

    /// Exactly the members the engine lists whose leaf carries a
    /// cross-signing proof, as of the last applied evolvement.
    fn get_members(&self) -> (r: Vec<EidMlsMember>)
        ensures
            forall|i: int| 0 <= i < r@.len() ==> cross_signed_in(self@, #[trigger] r@[i]),
    {
        self.state.get_members()
    }

    /// Apply each evolvement in order, stopping at and returning the first
    /// failure.
    fn batch_evolve(&mut self, evolvements: Vec<EidMlsEvolvement>, backend: &EidMlsBackend) -> (r:
        Result<(), EidError>)
        ensures
            r matches Err(e) ==> (e is InvalidEvolvementError || e is CreateTranscriptStateError),
    {
        let mut pending = evolvements;
        while pending.len() > 0
            decreases pending@.len(),
        {
            let evolvement = pending.remove(0);
            let res = self.evolve(evolvement, backend);
            if let Err(e) = res {
                return Err(e);
            }
        }
        Ok(())
    }

    /// Export the verifiable bootstrap snapshot: the group's signed
    /// descriptor and its public tree, as an outbound snapshot. An engine
    /// failure is an `ExportTranscriptStateError`.
    fn export_transcript_state(&self, backend: &EidMlsBackend) -> (r: Result<
        EidMlsExportedTranscriptState,
        EidError,
    >)
        ensures
            r matches Ok(s) ==> s is OUT,
            r matches Err(e) ==> e is ExportTranscriptStateError,
    {
        let group_info = match group_export_group_info(
            &self.state.group,
            &backend.mls_backend,
            &self.key_pair,
        ) {
            Ok(info) => info,
            Err(e) => {
                return Err(EidError::ExportTranscriptStateError(e));
            },
        };
        let nodes = group_export_ratchet_tree(&self.state.group);
        Ok(EidMlsExportedTranscriptState::OUT { group_info, nodes })
    }

    /// Generate a member that can be added to an EID: a fresh credential and
    /// signature key pair — stored in the backend's key store — and the key
    /// package to add the member with. The member has no leaf yet and has not
    /// cross-signed. An engine failure is a `CreateCredentialError`.
    fn generate_member(id: Vec<u8>, backend: &EidMlsBackend) -> (r: Result<
        (EidMlsMember, openmls_basic_credential::SignatureKeyPair),
        EidError,
    >)
        ensures
            r matches Ok((m, _)) ==> (m@.leaf_index is None && m@.has_key_package),
            r matches Err(e) ==> e is CreateCredentialError,
    {
        let (credential, signature_keys) = match create_store_credential(id, backend) {
            Ok(ck) => ck,
            Err(e) => {
                return Err(e);
            },
        };
        let key_package = match create_store_key_package(
            backend,
            credential.clone(),
            &signature_keys,
        ) {
            Ok(kp) => kp,
            Err(e) => {
                return Err(e);
            },
        };
        Ok((EidMlsMember::new((key_package, credential)), signature_keys))
    }

    /// Generate the initial client of a new EID for a fresh member.
    fn generate_initial_client(id: Vec<u8>, backend: &EidMlsBackend) -> (r: Result<
        Self,
        EidError,
    >)
        ensures
            r matches Err(e) ==> (e is CreateCredentialError || e is CreateClientError
                || e is CreateTranscriptStateError),
    {
        match Self::generate_member(id, backend) {
            Ok((member, key_pair)) => Self::create_eid(&member, key_pair, backend),
            Err(e) => Err(e),
        }
    }
}

} // verus!
