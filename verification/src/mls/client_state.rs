//! The state of a live participant of the engine-based EID: the engine's
//! group handle, plus the leaf summaries the membership filter reads.

use vstd::prelude::*;

use crate::mls::backend::EidMlsBackend;
use crate::mls::bindings::{
    group_export_group_info,
    group_export_ratchet_tree,
    group_merge_pending_commit,
    group_merge_staged_commit,
    group_process_message,
    mls_in_extract,
    mls_in_from_bytes,
    mls_out_to_bytes,
    new_proposal_store,
    public_group_from_external,
    public_group_leaf_view,
    ratchet_tree_into_in,
    CommitContent,
    LeafView,
    MessageBody,
    ProcessOutcome,
};
use crate::mls::evolvement::EidMlsEvolvement;
use crate::mls::member::{group_members_info, EidMlsMember};
use crate::traits::state::EidState;
use crate::traits::types::EidError;

verus! {

/// Whether a member has proven possession of its key: its leaf — looked up at
/// the member's leaf index — carries a parent hash, which the engine sets
/// exactly when the member itself has committed, and never for a leaf that
/// still holds the key package it was added with.
pub open spec fn cross_signed_in(leaves: Seq<Option<LeafView>>, m: EidMlsMember) -> bool {
    m@.leaf_index matches Some(i) && i < leaves.len() && (leaves[i as int] matches Some(l)
        && l.has_parent_hash)
}

/// The members of the list with cross-signing proof, in order.
pub open spec fn visible_members(
    members: Seq<EidMlsMember>,
    leaves: Seq<Option<LeafView>>,
) -> Seq<EidMlsMember> {
    members.filter(|m: EidMlsMember| cross_signed_in(leaves, m))
}

/// Keeping only cross-signed members distributes over appending one member.
proof fn lemma_visible_members_push(
    members: Seq<EidMlsMember>,
    leaves: Seq<Option<LeafView>>,
    m: EidMlsMember,
)
    ensures
        visible_members(members.push(m), leaves) == if cross_signed_in(leaves, m) {
            visible_members(members, leaves).push(m)
        } else {
            visible_members(members, leaves)
        },
{
    reveal(Seq::filter);
    assert(members.push(m).drop_last() =~= members);
    assert(members.push(m).last() == m);
}

/// No member of the empty list is visible.
proof fn lemma_visible_members_empty(leaves: Seq<Option<LeafView>>)
    ensures
        visible_members(Seq::<EidMlsMember>::empty(), leaves) == Seq::<EidMlsMember>::empty(),
{
    reveal(Seq::filter);
}

/// Every member of a filtered list carries cross-signing proof.
pub(crate) proof fn lemma_visible_members_pred(members: Seq<EidMlsMember>, leaves: Seq<Option<LeafView>>)
    ensures
        forall|i: int|
            0 <= i < visible_members(members, leaves).len() ==> cross_signed_in(
                leaves,
                #[trigger] visible_members(members, leaves)[i],
            ),
    decreases members.len(),
{
    reveal(Seq::filter);
    if members.len() != 0 {
        lemma_visible_members_pred(members.drop_last(), leaves);
        assert(members.drop_last().push(members.last()) =~= members);
        lemma_visible_members_push(members.drop_last(), leaves, members.last());
    }
}

/// Exactly the members of the list whose leaf carries a parent hash, in
/// order: the cross-signed members.
pub(crate) fn filter_cross_signed_members(
    members: Vec<EidMlsMember>,
    leaves: &Vec<Option<LeafView>>,
) -> (r: Vec<EidMlsMember>)
    ensures
        r@ == visible_members(members@, leaves@),
{
    let ghost all = members@;
    let total = members.len();
    let mut r: Vec<EidMlsMember> = Vec::new();
    let mut members = members;
    let mut taken: usize = 0;
    proof {
        assert(all.len() == total);
        lemma_visible_members_empty(leaves@);
        assert(all.take(0) =~= Seq::<EidMlsMember>::empty());
        assert(members@ =~= all.skip(0));
    }
    while members.len() > 0
        invariant
            all.len() <= usize::MAX,
            taken <= all.len(),
            members@ == all.skip(taken as int),
            r@ == visible_members(all.take(taken as int), leaves@),
        decreases members@.len(),
    {
        proof {
            assert(members@.len() > 0);
            assert(all.skip(taken as int).len() == all.len() - taken);
            assert(taken < all.len());
        }
        let m = members.remove(0);
        proof {
            assert(m == all[taken as int]);
            assert(members@ =~= all.skip(taken as int + 1));
            assert(all.take(taken as int + 1) =~= all.take(taken as int).push(m));
            lemma_visible_members_push(all.take(taken as int), leaves@, m);
        }
        let keep = match m.leaf_index {
            Some(i) => {
                if (i as usize) < leaves.len() {
                    match &leaves[i as usize] {
                        Some(l) => l.has_parent_hash,
                        None => false,
                    }
                } else {
                    false
                }
            },
            None => false,
        };
        if keep {
            proof {
                assert(cross_signed_in(leaves@, m));
            }
            r.push(m);
        } else {
            proof {
                assert(!cross_signed_in(leaves@, m));
            }
        }
        taken = taken + 1;
    }
    proof {
        assert(all.take(all.len() as int) =~= all);
    }
    r
}

/// Collect the leaf summaries of the first `count` leaves of a public view.
pub(crate) fn collect_leaf_views(
    group: &openmls::group::PublicGroup,
    count: u32,
) -> (r: Vec<Option<LeafView>>)
    ensures
        r@.len() == count,
{
    let mut r: Vec<Option<LeafView>> = Vec::new();
    let mut i: u32 = 0;
    while i < count
        invariant
            i <= count,
            r@.len() == i,
        decreases count - i,
    {
        r.push(public_group_leaf_view(group, i));
        i = i + 1;
    }
    r
}

/// The state of a live participant: the engine's group handle and the leaf
/// summaries of the group's current epoch, refreshed after every applied
/// evolvement, which the cross-sign filter of `get_members` reads.
pub struct EidMlsClientState {
    pub(crate) group: openmls::group::MlsGroup,
    pub(crate) leaves: Vec<Option<LeafView>>,
}

impl View for EidMlsClientState {
    type V = Seq<Option<LeafView>>;

    open(crate) spec fn view(&self) -> Seq<Option<LeafView>> {
        self.leaves@
    }
}

impl EidMlsClientState {
    /// Rebuild the leaf summaries from the engine's state: export the signed
    /// group descriptor and the public tree, reconstruct the public view —
    /// which re-verifies the descriptor's signature — and read each member's
    /// leaf. A failure of the engine surfaces as `CreateTranscriptStateError`
    /// and leaves the summaries untouched.
    pub(crate) fn refresh_leaves(
        &mut self,
        backend: &EidMlsBackend,
        signer: &openmls_basic_credential::SignatureKeyPair,
    ) -> (r: Result<(), EidError>)
        ensures
            r matches Err(e) ==> e is CreateTranscriptStateError,
    {
        let info_out = match group_export_group_info(&self.group, &backend.mls_backend, signer) {
            Ok(info) => info,
            Err(e) => {
                return Err(EidError::CreateTranscriptStateError(e));
            },
        };
        let bytes = match mls_out_to_bytes(&info_out) {
            Ok(b) => b,
            Err(e) => {
                return Err(EidError::CreateTranscriptStateError(e));
            },
        };
        let message = match mls_in_from_bytes(bytes.as_slice()) {
            Ok((m, _)) => m,
            Err(e) => {
                return Err(EidError::CreateTranscriptStateError(e));
            },
        };
        let group_info = match mls_in_extract(message) {
            MessageBody::GroupInfo(gi) => gi,
            _ => {
                return Err(
                    EidError::CreateTranscriptStateError(
                        "Exported descriptor is not a group info".to_owned(),
                    ),
                );
            },
        };
        let tree = group_export_ratchet_tree(&self.group);
        let public_view = match public_group_from_external(
            &backend.mls_backend,
            ratchet_tree_into_in(tree),
            group_info,
            new_proposal_store(),
        ) {
            Ok(g) => g,
            Err(e) => {
                return Err(EidError::CreateTranscriptStateError(e));
            },
        };
        let members = group_members_info(&self.group);
        let mut leaf_count: u32 = 0;
        let mut i: usize = 0;
        while i < members.len()
            invariant
                i <= members@.len(),
            decreases members@.len() - i,
        {
            if let Some(index) = members[i].leaf_index {
                if index < u32::MAX && index + 1 > leaf_count {
                    leaf_count = index + 1;
                }
            }
            i = i + 1;
        }
        self.leaves = collect_leaf_views(&public_view, leaf_count);
        Ok(())
    }

    /// Hand a validated public message to the engine and merge the resulting
    /// commit; a message that is the client's own pending commit, echoed
    /// back, merges the pending change instead of being reprocessed. Any
    /// other outcome is a hard `InvalidEvolvementError`.
    pub(crate) fn merge_or_apply_commit(
        &mut self,
        message: openmls::prelude::PublicMessageIn,
        backend: &EidMlsBackend,
    ) -> (r: Result<(), EidError>)
        ensures
            r matches Err(e) ==> e is InvalidEvolvementError,
    {
        match group_process_message(&mut self.group, &backend.mls_backend, message) {
            ProcessOutcome::Processed(processed) => match processed_commit(processed) {
                Ok(staged) => match group_merge_staged_commit(
                    &mut self.group,
                    &backend.mls_backend,
                    staged,
                ) {
                    Ok(()) => Ok(()),
                    Err(e) => Err(EidError::InvalidEvolvementError(e)),
                },
                Err(e) => Err(e),
            },
            ProcessOutcome::OwnCommit => match group_merge_pending_commit(
                &mut self.group,
                &backend.mls_backend,
            ) {
                Ok(()) => Ok(()),
                Err(e) => Err(EidError::InvalidEvolvementError(e)),
            },
            ProcessOutcome::Failed(e) => Err(EidError::InvalidEvolvementError(e)),
        }
    }
}

/// The staged commit of a validated message, or `InvalidEvolvementError` for
/// content that is no membership transition.
fn processed_commit(processed: openmls::prelude::ProcessedMessage) -> (r: Result<
    openmls::prelude::StagedCommit,
    EidError,
>)
    ensures
        r matches Err(e) ==> e is InvalidEvolvementError,
{
    match crate::mls::bindings::processed_into_content(processed) {
        CommitContent::Staged(staged) => Ok(staged),
        CommitContent::NotACommit => Err(
            EidError::InvalidEvolvementError(
                "Expected a commit message, got another kind of content".to_owned(),
            ),
        ),
    }
}

impl EidState for EidMlsClientState {
    type EvolvementProvider = EidMlsEvolvement;

    type MemberProvider = EidMlsMember;

    type BackendProvider = EidMlsBackend;

    /// Only an inbound evolvement whose message is a public handshake message
    /// can apply; it advances the group exactly when the engine validates it
    /// as the next commit. An outbound evolvement is rejected unchanged.
    fn apply(
        &mut self,
        evolvement: EidMlsEvolvement,
        backend: &EidMlsBackend,
    ) -> (r: Result<(), EidError>)
        ensures
            r matches Err(e) ==> e is InvalidEvolvementError,
            evolvement is OUT ==> r is Err && *final(self) == *old(self),
    {
        match evolvement {
            EidMlsEvolvement::IN { message, .. } => match mls_in_extract(message) {
                MessageBody::Public(public_message) => self.merge_or_apply_commit(
                    public_message,
                    backend,
                ),
                _ => Err(
                    EidError::InvalidEvolvementError(
                        "Expected a public handshake message".to_owned(),
                    ),
                ),
            },
            EidMlsEvolvement::OUT { .. } => Err(
                EidError::InvalidEvolvementError(
                    "Expected an inbound evolvement, got an outbound one".to_owned(),
                ),
            ),
        }
    }

    /// Exactly the members the engine lists whose leaf carries a
    /// cross-signing proof, as of the last refresh of the leaf summaries.
    fn get_members(&self) -> (r: Vec<EidMlsMember>)
        ensures
            forall|i: int| 0 <= i < r@.len() ==> cross_signed_in(self@, #[trigger] r@[i]),
    {
        let members = group_members_info(&self.group);
        let ghost listed = members@;
        let r = filter_cross_signed_members(members, &self.leaves);
        proof {
            lemma_visible_members_pred(listed, self@);
        }
        r
    }

    /// Whether some cross-signed member carries the same stable identity —
    /// the signature key — as the given member.
    fn verify_member(&self, member: &EidMlsMember) -> (r: bool) {
        let visible = self.get_members();
        let mut i: usize = 0;
        while i < visible.len()
            decreases visible@.len() - i,
        {
            if crate::bytes::bytes_eq(&visible[i].signature_key, &member.signature_key) {
                return true;
            }
            i = i + 1;
        }
        false
    }
}

} // verus!
