//! The state of the plaintext EID implementation, and the mathematical model
//! of the protocol's transition system.

use vstd::prelude::*;

use crate::dummy::backend::EidDummyBackend;
use crate::dummy::codec::{deserialize_state, parse_state_spec, ser_state, serialize_state};
use crate::dummy::evolvement::{EidDummyEvolvement, EvolvementView};
use crate::bytes::bytes_eq;
use crate::dummy::member::{clone_members, mview, EidDummyMember, MemberView, BOOLEAN};
use crate::traits::state::EidState;
use crate::traits::transcript::EidExportedTranscriptState;
use crate::traits::types::EidError;

verus! {

broadcast use vstd::seq::Seq::lemma_filter_push;

/// The mathematical content of a state: the recorded member list and the
/// number of evolvements applied so far.
#[verifier::ext_equal]
pub struct StateView {
    pub members: Seq<MemberView>,
    pub count: nat,
}

/// Whether some member of the list carries the given identity.
pub open spec fn has_id(members: Seq<MemberView>, id: Seq<u8>) -> bool {
    exists|i: int| 0 <= i < members.len() && members[i].id == id
}

/// The members visible to the outside: only those that have cross-signed
/// their own membership.
pub open spec fn visible(members: Seq<MemberView>) -> Seq<MemberView> {
    members.filter(|m: MemberView| m.cross_signed)
}

/// Whether an evolvement applies to a state: it must carry the state's
/// history position plus one, so that replayed or reordered evolvements are
/// rejected.
pub open spec fn apply_ok(s: StateView, e: EvolvementView) -> bool {
    e.count() == s.count + 1
}

/// The state that results from applying an evolvement: the member list the
/// evolvement carries, one position later in the history.
pub open spec fn apply_state(s: StateView, e: EvolvementView) -> StateView {
    StateView { members: e.members(), count: e.count() }
}

/// Replay a log of evolvements over a state: the resulting state, or nothing
/// if some entry does not apply to the state reached before it.
pub open spec fn replay(s: StateView, log: Seq<EvolvementView>) -> Option<StateView>
    decreases log.len(),
{
    if log.len() == 0 {
        Some(s)
    } else {
        match replay(s, log.drop_last()) {
            Some(t) => if apply_ok(t, log.last()) {
                Some(apply_state(t, log.last()))
            } else {
                None
            },
            None => None,
        }
    }
}

/// The state of the plaintext EID: the current member list and a count of the
/// evolvements applied so far, which gives the minimum of validation the
/// protocol demands — rejecting any evolvement that is not the exact
/// successor of the current state.
#[derive(Debug)]
pub struct EidDummyState {
    pub(crate) members: Vec<EidDummyMember>,
    pub(crate) evolvement_count: u64,
}

impl View for EidDummyState {
    type V = StateView;

    open(crate) spec fn view(&self) -> StateView {
        StateView { members: mview(self.members@), count: self.evolvement_count as nat }
    }
}

impl Clone for EidDummyState {
    /// Cloning keeps the member list and the history position.
    fn clone(&self) -> (r: Self)
        ensures
            r@ == self@,
    {
        let r = EidDummyState {
            members: clone_members(&self.members),
            evolvement_count: self.evolvement_count,
        };
        proof {
            assert(r@ =~= self@);
        }
        r
    }
}

impl Default for EidDummyState {
    /// The empty state: no members, nothing applied yet.
    fn default() -> (r: Self)
        ensures
            r@.members.len() == 0,
            r@.count == 0,
    {
        EidDummyState { members: Vec::new(), evolvement_count: 0 }
    }
}

/// Whether some member of the list carries the given identity.
pub(crate) fn members_contain_id(members: &Vec<EidDummyMember>, id: &Vec<u8>) -> (r: bool)
    ensures
        r == has_id(mview(members@), id@),
{
    let mut i: usize = 0;
    while i < members.len()
        invariant
            i <= members.len(),
            forall|j: int| 0 <= j < i ==> mview(members@)[j].id != id@,
        decreases members.len() - i,
    {
        if bytes_eq(&members[i].id, id) {
            proof {
                assert(mview(members@)[i as int].id == id@);
            }
            return true;
        }
        i = i + 1;
    }
    false
}

/// Filtering distributes over appending one member.
pub proof fn lemma_visible_push(s: Seq<MemberView>, m: MemberView)
    ensures
        visible(s.push(m)) == if m.cross_signed {
            visible(s).push(m)
        } else {
            visible(s)
        },
{
    reveal(Seq::filter);
    assert(s.push(m).drop_last() =~= s);
    assert(s.push(m).last() == m);
}

/// No member of the empty list is visible.
pub proof fn lemma_visible_empty()
    ensures
        visible(Seq::<MemberView>::empty()) == Seq::<MemberView>::empty(),
{
    reveal(Seq::filter);
}

/// The members of the list that have cross-signed, in order.
pub(crate) fn filter_cross_signed(members: &Vec<EidDummyMember>) -> (r: Vec<EidDummyMember>)
    ensures
        mview(r@) == visible(mview(members@)),
{
    let ghost all = mview(members@);
    let mut r: Vec<EidDummyMember> = Vec::new();
    let mut i: usize = 0;
    proof {
        lemma_visible_empty();
        assert(all.take(0) =~= Seq::<MemberView>::empty());
    }
    while i < members.len()
        invariant
            i <= members.len(),
            all == mview(members@),
            all.len() == members@.len(),
            mview(r@) == visible(all.take(i as int)),
        decreases members.len() - i,
    {
        let ghost prev = all.take(i as int);
        proof {
            assert(all.take(i + 1) =~= prev.push(all[i as int]));
            lemma_visible_push(prev, all[i as int]);
            assert(all[i as int] == members@[i as int]@);
        }
        let keep = match members[i].cross_signed {
            BOOLEAN::TRUE => true,
            BOOLEAN::FALSE => false,
        };
        if keep {
            r.push(members[i].clone());
            proof {
                assert(mview(r@) =~= mview(r@.drop_last()).push(all[i as int]));
                assert(mview(r@) =~= visible(all.take(i + 1)));
            }
        } else {
            proof {
                assert(mview(r@) =~= visible(all.take(i + 1)));
            }
        }
        i = i + 1;
    }
    proof {
        assert(all.take(members@.len() as int) =~= all);
    }
    r
}

impl EidState for EidDummyState {
    type EvolvementProvider = EidDummyEvolvement;

    type MemberProvider = EidDummyMember;

    type BackendProvider = EidDummyBackend;

    /// An evolvement that carries the next history position is applied, and
    /// the state becomes exactly what the evolvement records; any other
    /// evolvement is rejected with `InvalidEvolvementError` and the state is
    /// unchanged.
    fn apply(
        &mut self,
        evolvement: EidDummyEvolvement,
        _backend: &EidDummyBackend,
    ) -> (r: Result<(), EidError>)
        ensures
            apply_ok(old(self)@, evolvement@) ==> r is Ok && final(self)@ == apply_state(
                old(self)@,
                evolvement@,
            ),
            !apply_ok(old(self)@, evolvement@) ==> (r matches Err(
                EidError::InvalidEvolvementError(_),
            ) && *final(self) == *old(self)),
    {
        let count = evolvement.count();
        if self.evolvement_count < u64::MAX && count == self.evolvement_count + 1 {
            match evolvement {
                EidDummyEvolvement::Add { members, .. } => {
                    self.members = members;
                },
                EidDummyEvolvement::Update { members, .. } => {
                    self.members = members;
                },
                EidDummyEvolvement::Remove { members, .. } => {
                    self.members = members;
                },
            }
            self.evolvement_count = count;
            proof {
                assert(self@ =~= apply_state(old(self)@, evolvement@));
            }
            Ok(())
        } else {
            Err(EidError::InvalidEvolvementError("Invalid Evolvement count".to_owned()))
        }
    }

    /// The full recorded member list, cross-signed or not; clients and
    /// transcripts put the cross-sign filter on top.
    fn get_members(&self) -> (r: Vec<EidDummyMember>)
        ensures
            mview(r@) == self@.members,
    {
        clone_members(&self.members)
    }

    /// A member is part of the EID exactly when its identity is recorded.
    fn verify_member(&self, member: &EidDummyMember) -> (r: bool)
        ensures
            r == has_id(self@.members, member@.id),
    {
        members_contain_id(&self.members, &member.id)
    }
}

impl EidExportedTranscriptState for EidDummyState {
    type TranscriptStateProvider = EidDummyState;

    type BackendProvider = EidDummyBackend;

    /// The plaintext exported state carries no signature to check: it becomes
    /// the trusted transcript state unchanged, and never fails.
    fn into_transcript_state(self, _backend: &EidDummyBackend) -> (r: Result<
        EidDummyState,
        EidError,
    >)
        ensures
            r matches Ok(s) && s@ == self@,
    {
        Ok(self)
    }

    /// Serialization always succeeds and yields exactly the wire encoding.
    fn tls_serialize_detached(&self) -> (r: Result<Vec<u8>, EidError>)
        ensures
            r matches Ok(v) && v@ == ser_state(self@),
    {
        Ok(serialize_state(self))
    }

    /// Deserialization accepts exactly the byte strings that encode one
    /// state with nothing following it, and returns that state; everything
    /// else is a `DeserializationError`.
    fn tls_deserialize_detached(bytes: &[u8]) -> (r: Result<Self, EidError>)
        ensures
            match parse_state_spec(bytes@, 0) {
                Some((v, end)) => if end == bytes@.len() {
                    r matches Ok(s) && s@ == v
                } else {
                    r matches Err(EidError::DeserializationError(_))
                },
                None => r matches Err(EidError::DeserializationError(_)),
            },
    {
        match deserialize_state(bytes) {
            Some(s) => Ok(s),
            None => Err(EidError::DeserializationError("Malformed exported state".to_owned())),
        }
    }
}

} // verus!
