//! The client of the plaintext EID implementation.

use vstd::prelude::*;

use crate::dummy::backend::EidDummyBackend;
use crate::dummy::evolvement::{EidDummyEvolvement, EvolvementView};
use crate::bytes::{bytes_eq, clone_bytes};
use crate::dummy::member::{clone_members, mview, EidDummyMember, MemberView, BOOLEAN};
use crate::dummy::state::{
    apply_ok,
    apply_state,
    filter_cross_signed,
    has_id,
    members_contain_id,
    replay,
    visible,
    EidDummyState,
    StateView,
};
use crate::dummy::transcript::evs_view;
use crate::dummy::transcript::EidDummyTranscript;
use crate::traits::client::EidClient;
use crate::traits::state::EidState;
use crate::traits::types::EidError;

verus! {

/// The mathematical content of a client: its state and its own identity.
#[verifier::ext_equal]
pub struct ClientView {
    pub state: StateView,
    pub id: Seq<u8>,
}

/// The evolvement `add` authors: the next history position, the member list
/// with the new member appended, and the invited identity.
pub open spec fn add_ev(c: ClientView, m: MemberView) -> EvolvementView {
    EvolvementView::Add {
        count: c.state.count + 1,
        members: c.state.members.push(m),
        invited_id: m.id,
    }
}

/// Whether `i` is the first position of the given identity in the list.
pub open spec fn is_first_id_index(members: Seq<MemberView>, id: Seq<u8>, i: int) -> bool {
    &&& 0 <= i < members.len()
    &&& members[i].id == id
    &&& forall|j: int| 0 <= j < i ==> members[j].id != id
}

/// A member list with the entry at `i` removed, filling the gap with the last
/// entry: the order of the surviving members is not preserved.
pub open spec fn swap_remove_seq(members: Seq<MemberView>, i: int) -> Seq<MemberView> {
    members.update(i, members.last()).drop_last()
}

/// The evolvement `remove` authors when the removed identity first occurs at
/// position `i`.
pub open spec fn remove_ev(c: ClientView, i: int) -> EvolvementView {
    EvolvementView::Remove {
        count: c.state.count + 1,
        members: swap_remove_seq(c.state.members, i),
    }
}

/// The members of the list that do not carry the given identity, in order.
pub open spec fn others(members: Seq<MemberView>, id: Seq<u8>) -> Seq<MemberView> {
    members.filter(|m: MemberView| m.id != id)
}

/// Dropping an identity distributes over appending one member.
pub proof fn lemma_others_push(s: Seq<MemberView>, id: Seq<u8>, m: MemberView)
    ensures
        others(s.push(m), id) == if m.id != id {
            others(s, id).push(m)
        } else {
            others(s, id)
        },
{
    reveal(Seq::filter);
    assert(s.push(m).drop_last() =~= s);
    assert(s.push(m).last() == m);
}

/// Dropping an identity from the empty list leaves it empty.
pub proof fn lemma_others_empty(id: Seq<u8>)
    ensures
        others(Seq::<MemberView>::empty(), id) == Seq::<MemberView>::empty(),
{
    reveal(Seq::filter);
}

/// The member list after the client's own entry is rotated to a fresh key:
/// every entry with the client's identity is dropped, and one entry with the
/// new key, cross-signed, is appended.
pub open spec fn rotate_own_member(members: Seq<MemberView>, id: Seq<u8>, pk: Seq<u8>) -> Seq<
    MemberView,
> {
    others(members, id).push(MemberView { id, pk, cross_signed: true })
}

/// The evolvement `update` authors when the fresh key is `pk`.
pub open spec fn update_ev(c: ClientView, pk: Seq<u8>) -> EvolvementView {
    EvolvementView::Update {
        count: c.state.count + 1,
        members: rotate_own_member(c.state.members, c.id, pk),
    }
}

/// Relies on rand::random: a pseudo-random byte; nothing is promised of its
/// value.
#[verifier::external_body]
fn random_byte() -> u8 {
    rand::random::<u8>()
}

/// The length of the key material the plaintext implementation draws.
pub const PK_LENGTH: usize = 256;

/// Draw fresh pseudo-random key material.
fn random_pk() -> (r: Vec<u8>)
    ensures
        r@.len() == PK_LENGTH,
{
    let mut v: Vec<u8> = Vec::new();
    let mut i: usize = 0;
    while i < PK_LENGTH
        invariant
            v@.len() == i,
            i <= PK_LENGTH,
        decreases PK_LENGTH - i,
    {
        v.push(random_byte());
        i = i + 1;
    }
    v
}

/// The members of the list that do not carry the given identity, in order.
fn filter_out_id(members: &Vec<EidDummyMember>, id: &Vec<u8>) -> (r: Vec<EidDummyMember>)
    ensures
        mview(r@) == others(mview(members@), id@),
{
    let ghost all = mview(members@);
    let mut r: Vec<EidDummyMember> = Vec::new();
    let mut i: usize = 0;
    proof {
        lemma_others_empty(id@);
        assert(all.take(0) =~= Seq::<MemberView>::empty());
    }
    while i < members.len()
        invariant
            i <= members.len(),
            all == mview(members@),
            all.len() == members@.len(),
            mview(r@) == others(all.take(i as int), id@),
        decreases members.len() - i,
    {
        let ghost prev = all.take(i as int);
        proof {
            assert(all.take(i + 1) =~= prev.push(all[i as int]));
            lemma_others_push(prev, id@, all[i as int]);
            assert(all[i as int] == members@[i as int]@);
        }
        if !bytes_eq(&members[i].id, id) {
            r.push(members[i].clone());
            proof {
                assert(mview(r@) =~= mview(r@.drop_last()).push(all[i as int]));
                assert(mview(r@) =~= others(all.take(i + 1), id@));
            }
        } else {
            proof {
                assert(mview(r@) =~= others(all.take(i + 1), id@));
            }
        }
        i = i + 1;
    }
    proof {
        assert(all.take(members@.len() as int) =~= all);
    }
    r
}

/// A client of the plaintext EID: it holds its own state and its stable
/// identity, authors evolvements against that state, and applies evolvements
/// — its own included — to move the state forward.
#[derive(Debug)]
pub struct EidDummyClient {
    pub(crate) state: EidDummyState,
    pub(crate) id: Vec<u8>,
}

impl View for EidDummyClient {
    type V = ClientView;

    open(crate) spec fn view(&self) -> ClientView {
        ClientView { state: self.state@, id: self.id@ }
    }
}

impl EidClient for EidDummyClient {
    type EvolvementProvider = EidDummyEvolvement;

    type MemberProvider = EidDummyMember;

    type TranscriptStateProvider = EidDummyState;

    type ExportedTranscriptStateProvider = EidDummyState;

    type BackendProvider = EidDummyBackend;

    type KeyProvider = ();

    type TranscriptProvider = EidDummyTranscript;

    /// Creating an EID always succeeds: the state holds exactly the initial
    /// member, nothing has been applied yet, and the client speaks for the
    /// initial member's identity.
    fn create_eid(
        initial_member: &EidDummyMember,
        _key_pair: (),
        _backend: &EidDummyBackend,
    ) -> (r: Result<Self, EidError>)
        ensures
            r matches Ok(c) && c@ == (ClientView {
                state: StateView { members: seq![initial_member@], count: 0 },
                id: initial_member@.id,
            }),
    {
        let mut members: Vec<EidDummyMember> = Vec::new();
        members.push(initial_member.clone());
        let c = EidDummyClient {
            state: EidDummyState { members, evolvement_count: 0 },
            id: clone_bytes(&initial_member.id),
        };
        proof {
            assert(mview(c.state.members@) =~= seq![initial_member@]);
            assert(c@ =~= (ClientView {
                state: StateView { members: seq![initial_member@], count: 0 },
                id: initial_member@.id,
            }));
        }
        Ok(c)
    }

    /// An Add evolvement yields a client that adopts the member list and
    /// history position the evolvement carries and speaks for the invited
    /// identity; anything else is rejected as `InvalidInvitationError`.
    fn create_from_invitation(
        invitation: EidDummyEvolvement,
        _signature_keypair: (),
        _backend: &EidDummyBackend,
    ) -> (r: Result<Self, EidError>)
        ensures
            match invitation@ {
                EvolvementView::Add { count, members, invited_id } => r matches Ok(c) && c@ == (
                ClientView { state: StateView { members, count }, id: invited_id }),
                _ => r matches Err(EidError::InvalidInvitationError(_)),
            },
    {
        match invitation {
            EidDummyEvolvement::Add { count, members, invited_id } => {
                let c = EidDummyClient {
                    state: EidDummyState { members, evolvement_count: count },
                    id: invited_id,
                };
                proof {
                    assert(c@ =~= (ClientView {
                        state: StateView {
                            members: invitation@->Add_members,
                            count: invitation@->Add_count,
                        },
                        id: invitation@->Add_invited_id,
                    }));
                }
                Ok(c)
            },
            _ => Err(
                EidError::InvalidInvitationError(
                    "Invitation is not an Add evolvement".to_owned(),
                ),
            ),
        }
    }

    /// Adding a member never changes the client's own state. For an identity
    /// not yet present it yields exactly the Add evolvement at the next
    /// history position; for one already present it fails with
    /// `AddMemberError`; when no history position is left it fails with
    /// `InvalidEvolvementError`.
    fn add(&mut self, member: &EidDummyMember, _backend: &EidDummyBackend) -> (r: Result<
        EidDummyEvolvement,
        EidError,
    >)
        ensures
            *final(self) == *old(self),
            if has_id(old(self)@.state.members, member@.id) {
                r matches Err(EidError::AddMemberError(_))
            } else if old(self)@.state.count >= u64::MAX {
                r matches Err(EidError::InvalidEvolvementError(_))
            } else {
                r matches Ok(ev) && ev@ == add_ev(old(self)@, member@)
            },
    {
        if members_contain_id(&self.state.members, &member.id) {
            return Err(EidError::AddMemberError("Member already in EID".to_owned()));
        }
        if self.state.evolvement_count == u64::MAX {
            return Err(
                EidError::InvalidEvolvementError("No history position left".to_owned()),
            );
        }
        let mut new_members = clone_members(&self.state.members);
        new_members.push(member.clone());
        proof {
            assert(mview(new_members@) =~= self@.state.members.push(member@));
        }
        Ok(
            EidDummyEvolvement::Add {
                count: self.state.evolvement_count + 1,
                members: new_members,
                invited_id: clone_bytes(&member.id),
            },
        )
    }

    /// Removing a member never changes the client's own state. For a present
    /// identity it yields exactly the Remove evolvement at the next history
    /// position, with the first entry of that identity taken out; for an
    /// absent identity it fails with `InvalidMemberError`; when no history
    /// position is left it fails with `InvalidEvolvementError`.
    fn remove(&mut self, member: &EidDummyMember, _backend: &EidDummyBackend) -> (r: Result<
        EidDummyEvolvement,
        EidError,
    >)
        ensures
            *final(self) == *old(self),
            if !has_id(old(self)@.state.members, member@.id) {
                r matches Err(EidError::InvalidMemberError(_))
            } else if old(self)@.state.count >= u64::MAX {
                r matches Err(EidError::InvalidEvolvementError(_))
            } else {
                r matches Ok(ev) && exists|i: int|
                    #[trigger] is_first_id_index(old(self)@.state.members, member@.id, i) && ev@
                        == remove_ev(old(self)@, i)
            },
    {
        if self.state.evolvement_count == u64::MAX {
            if !members_contain_id(&self.state.members, &member.id) {
                return Err(EidError::InvalidMemberError("Member not in EID".to_owned()));
            }
            return Err(
                EidError::InvalidEvolvementError("No history position left".to_owned()),
            );
        }
        let mut i: usize = 0;
        while i < self.state.members.len()
            invariant
                i <= self.state.members@.len(),
                forall|j: int| 0 <= j < i ==> mview(self.state.members@)[j].id != member@.id,
                self.state.evolvement_count < u64::MAX,
                *self == *old(self),
            decreases self.state.members@.len() - i,
        {
            if bytes_eq(&self.state.members[i].id, &member.id) {
                proof {
                    assert(is_first_id_index(mview(self.state.members@), member@.id, i as int));
                }
                let mut new_members = clone_members(&self.state.members);
                new_members.swap_remove(i);
                proof {
                    assert(mview(new_members@) =~= swap_remove_seq(
                        mview(self.state.members@),
                        i as int,
                    ));
                }
                return Ok(
                    EidDummyEvolvement::Remove {
                        count: self.state.evolvement_count + 1,
                        members: new_members,
                    },
                );
            }
            i = i + 1;
        }
        Err(EidError::InvalidMemberError("Member not in EID".to_owned()))
    }

    /// Rotating the own key never changes the client's own state: the new key
    /// is pending until the produced evolvement is applied. For a client whose
    /// identity is present it yields an Update evolvement at the next history
    /// position that replaces the client's entry with a fresh, cross-signed
    /// key; for an absent identity it fails with `InvalidMemberError`; when no
    /// history position is left it fails with `InvalidEvolvementError`.
    fn update(&mut self, _backend: &EidDummyBackend) -> (r: Result<EidDummyEvolvement, EidError>)
        ensures
            *final(self) == *old(self),
            if !has_id(old(self)@.state.members, old(self)@.id) {
                r matches Err(EidError::InvalidMemberError(_))
            } else if old(self)@.state.count >= u64::MAX {
                r matches Err(EidError::InvalidEvolvementError(_))
            } else {
                r matches Ok(ev) && exists|pk: Seq<u8>|
                    pk.len() == PK_LENGTH && ev@ == #[trigger] update_ev(old(self)@, pk)
            },
    {
        if !members_contain_id(&self.state.members, &self.id) {
            return Err(EidError::InvalidMemberError("Own identity not in EID".to_owned()));
        }
        if self.state.evolvement_count == u64::MAX {
            return Err(EidError::InvalidEvolvementError("No history position left".to_owned()));
        }
        let new_pk = random_pk();
        let ghost pk = new_pk@;
        let mut new_members = filter_out_id(&self.state.members, &self.id);
        new_members.push(
            EidDummyMember {
                id: clone_bytes(&self.id),
                pk: new_pk,
                cross_signed: BOOLEAN::TRUE,
            },
        );
        proof {
            assert(mview(new_members@) =~= rotate_own_member(self@.state.members, self@.id, pk));
        }
        let ev = EidDummyEvolvement::Update {
            count: self.state.evolvement_count + 1,
            members: new_members,
        };
        proof {
            assert(ev@ == update_ev(self@, pk));
        }
        Ok(ev)
    }

    /// Applying an evolvement moves the client's state exactly as the state's
    /// own `apply` does, and never touches the client's identity.
    fn evolve(&mut self, evolvement: EidDummyEvolvement, backend: &EidDummyBackend) -> (r: Result<
        (),
        EidError,
    >)
        ensures
            final(self)@.id == old(self)@.id,
            apply_ok(old(self)@.state, evolvement@) ==> r is Ok && final(self)@.state
                == apply_state(old(self)@.state, evolvement@),
            !apply_ok(old(self)@.state, evolvement@) ==> (r matches Err(
                EidError::InvalidEvolvementError(_),
            ) && *final(self) == *old(self)),
    {
        self.state.apply(evolvement, backend)
    }

    /// Apply each evolvement in order, stopping at the first failure: on
    /// success the state is the replay of the whole list over the starting
    /// state; on failure it is the replay of the prefix before the rejected
    /// entry, whose history position that state rejects. The identity never
    /// changes.
    #[verifier::loop_isolation(false)]
    fn batch_evolve(
        &mut self,
        evolvements: Vec<EidDummyEvolvement>,
        backend: &EidDummyBackend,
    ) -> (r: Result<(), EidError>)
        ensures
            final(self)@.id == old(self)@.id,
            r is Ok ==> replay(old(self)@.state, evs_view(evolvements@)) == Some(
                final(self)@.state,
            ),
            r matches Err(e) ==> (e is InvalidEvolvementError && exists|i: int|
                {
                    &&& 0 <= i < evolvements@.len()
                    &&& replay(old(self)@.state, evs_view(#[trigger] evolvements@.take(i)))
                        == Some(final(self)@.state)
                    &&& !apply_ok(final(self)@.state, evolvements@[i]@)
                }),
    {
        let ghost all = evolvements@;
        let total = evolvements.len();
        let mut pending = evolvements;
        let mut taken: usize = 0;
        proof {
            assert(all.len() == total);
            assert(all.take(0) =~= Seq::<EidDummyEvolvement>::empty());
            assert(evs_view(all.take(0)) =~= Seq::<crate::dummy::evolvement::EvolvementView>::empty());
            assert(pending@ =~= all.skip(0));
        }
        while pending.len() > 0
            invariant
                taken <= all.len(),
                pending@ == all.skip(taken as int),
                self@.id == old(self)@.id,
                replay(old(self)@.state, evs_view(all.take(taken as int))) == Some(self@.state),
            decreases pending@.len(),
        {
            proof {
                assert(all.skip(taken as int).len() == all.len() - taken);
            }
            let evolvement = pending.remove(0);
            let ghost ev = evolvement@;
            proof {
                assert(evolvement == all[taken as int]);
                assert(pending@ =~= all.skip(taken as int + 1));
            }
            let res = self.evolve(evolvement, backend);
            proof {
                assert(evs_view(all.take(taken as int + 1)) =~= evs_view(
                    all.take(taken as int),
                ).push(ev));
                assert(evs_view(all.take(taken as int + 1)).drop_last() =~= evs_view(
                    all.take(taken as int),
                ));
            }
            if let Err(e) = res {
                proof {
                    assert(0 <= taken < all.len());
                    assert(replay(old(self)@.state, evs_view(all.take(taken as int))) == Some(
                        self@.state,
                    ));
                    assert(!apply_ok(self@.state, all[taken as int]@));
                }
                return Err(e);
            }
            taken = taken + 1;
        }
        proof {
            assert(all.take(all.len() as int) =~= all);
        }
        Ok(())
    }

    /// Cross-signing is a key rotation: the produced Update evolvement marks
    /// the client's own entry as cross-signed.
    fn cross_sign_membership(&mut self, backend: &EidDummyBackend) -> (r: Result<
        EidDummyEvolvement,
        EidError,
    >)
        ensures
            *final(self) == *old(self),
            if !has_id(old(self)@.state.members, old(self)@.id) {
                r matches Err(EidError::InvalidMemberError(_))
            } else if old(self)@.state.count >= u64::MAX {
                r matches Err(EidError::InvalidEvolvementError(_))
            } else {
                r matches Ok(ev) && exists|pk: Seq<u8>|
                    pk.len() == PK_LENGTH && ev@ == #[trigger] update_ev(old(self)@, pk)
            },
    {
        self.update(backend)
    }

    /// Exactly the members that have cross-signed their membership.
    fn get_members(&self) -> (r: Vec<EidDummyMember>)
        ensures
            mview(r@) == visible(self@.state.members),
    {
        filter_cross_signed(&self.state.members)
    }

    /// Exporting never fails and yields exactly the client's state.
    fn export_transcript_state(&self, _backend: &EidDummyBackend) -> (r: Result<
        EidDummyState,
        EidError,
    >)
        ensures
            r matches Ok(s) && s@ == self@.state,
    {
        Ok(self.state.clone())
    }

    /// A generated member carries the given identity, fresh key material, and
    /// has not cross-signed yet; generation never fails.
    fn generate_member(id: Vec<u8>, _backend: &EidDummyBackend) -> (r: Result<
        (EidDummyMember, ()),
        EidError,
    >)
        ensures
            r matches Ok((m, _)) && m@.id == id@ && m@.pk.len() == PK_LENGTH && !m@.cross_signed,
    {
        Ok((EidDummyMember { id, pk: random_pk(), cross_signed: BOOLEAN::FALSE }, ()))
    }

    /// A generated initial client starts a fresh EID: its state holds exactly
    /// one member — the client's own identity, not yet cross-signed — and
    /// nothing has been applied yet; generation never fails.
    fn generate_initial_client(id: Vec<u8>, backend: &EidDummyBackend) -> (r: Result<
        Self,
        EidError,
    >)
        ensures
            r matches Ok(c) && {
                &&& c@.id == id@
                &&& c@.state.count == 0
                &&& c@.state.members.len() == 1
                &&& c@.state.members[0].id == id@
                &&& !c@.state.members[0].cross_signed
            },
    {
        let generated = Self::generate_member(id, backend);
        match generated {
            Ok((member, key_pair)) => Self::create_eid(&member, key_pair, backend),
            Err(e) => Err(e),
        }
    }
}

} // verus!
