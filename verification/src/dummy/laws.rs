//! The protocol's guarantees, stated and proved over the mathematical model
//! that the plaintext implementation's contracts are written in.

use vstd::prelude::*;

use crate::dummy::client::{add_ev, others, update_ev, ClientView};
use crate::dummy::evolvement::EvolvementView;
use crate::dummy::member::MemberView;
use crate::dummy::state::{apply_ok, apply_state, has_id, replay, visible, StateView};
use crate::dummy::transcript::{transcript_wf, TranscriptView};

verus! {

/// Every prefix of a log that replays as a whole replays too.
pub proof fn lemma_replay_prefix(start: StateView, log: Seq<EvolvementView>, i: int)
    requires
        replay(start, log) is Some,
        0 <= i <= log.len(),
    ensures
        replay(start, log.take(i)) is Some,
    decreases log.len() - i,
{
    if i == log.len() {
        assert(log.take(i) =~= log);
    } else {
        lemma_replay_prefix(start, log, i + 1);
        assert(log.take(i + 1).drop_last() =~= log.take(i));
    }
}

/// Convergence: a client bootstrapped from the same state a transcript trusts,
/// fed the transcript's evolvement log in order, passes through exactly the
/// states the transcript computes — so, after every prefix of the log, the two
/// parties' `get_members` agree. Both parties advance their state by
/// `apply_state` (their `evolve` contracts), so each one's state after `i`
/// entries is the replay of the first `i` entries, which this lemma shows is
/// one and the same state.
pub proof fn lemma_convergence(
    bootstrap: StateView,
    t: TranscriptView,
    log: Seq<EvolvementView>,
    i: int,
)
    requires
        transcript_wf(t),
        t.log == log,
        t.trusted == bootstrap,
        0 <= i <= log.len(),
    ensures
        replay(bootstrap, log.take(i)) is Some,
        replay(bootstrap, log.take(i)) == replay(t.trusted, log.take(i)),
        visible(replay(bootstrap, log.take(i))->Some_0.members) == visible(
            replay(t.trusted, log.take(i))->Some_0.members,
        ),
        i == log.len() ==> replay(bootstrap, log.take(i)) == Some(t.current),
        i == log.len() ==> visible(replay(bootstrap, log.take(i))->Some_0.members) == visible(
            t.current.members,
        ),
{
    lemma_replay_prefix(bootstrap, log, i);
    if i == log.len() {
        assert(log.take(i) =~= log);
    }
}

/// No double-add: once an Add evolvement for a member has been applied, the
/// member's identity is present in every party's state, so a second `add` of
/// an identity-equal member fails with `AddMemberError` (by `add`'s contract)
/// and changes nothing.
pub proof fn lemma_no_double_add(c: ClientView, m: MemberView)
    requires
        !has_id(c.state.members, m.id),
    ensures
        has_id(apply_state(c.state, add_ev(c, m)).members, m.id),
{
    let members = apply_state(c.state, add_ev(c, m)).members;
    assert(members == c.state.members.push(m));
    assert(members[members.len() - 1].id == m.id);
}

/// No ghost-remove: an identity that no entry of the state carries cannot be
/// removed — `remove`'s contract returns `InvalidMemberError` and leaves the
/// client untouched — and it is invisible in the first place.
pub proof fn lemma_no_ghost_remove(s: StateView, id: Seq<u8>)
    requires
        !has_id(s.members, id),
    ensures
        !has_id(visible(s.members), id),
{
    lemma_visible_absent_id(s.members, id);
}

/// An identity whose every entry is not cross-signed is invisible.
proof fn lemma_visible_uncrossed_id(members: Seq<MemberView>, id: Seq<u8>)
    requires
        forall|k: int|
            0 <= k < members.len() && members[k].id == id ==> !(#[trigger] members[k]).cross_signed,
    ensures
        !has_id(visible(members), id),
    decreases members.len(),
{
    reveal(Seq::filter);
    if members.len() != 0 {
        lemma_visible_uncrossed_id(members.drop_last(), id);
        let vis = visible(members);
        let prev = visible(members.drop_last());
        if members.last().cross_signed {
            assert(vis == prev.push(members.last()));
            assert forall|k: int| 0 <= k < vis.len() implies (#[trigger] vis[k]).id != id by {
                if k < prev.len() {
                    assert(prev[k].id != id);
                } else {
                    assert(vis[k] == members.last());
                }
            }
        } else {
            assert(vis == prev);
        }
    }
}

/// An identity absent from the state is invisible.
proof fn lemma_visible_absent_id(members: Seq<MemberView>, id: Seq<u8>)
    requires
        !has_id(members, id),
    ensures
        !has_id(visible(members), id),
{
    lemma_visible_uncrossed_id(members, id);
}

/// Cross-sign gating: the Add evolvement that invites a member who has not
/// cross-signed records the member's identity, yet leaves it invisible: every
/// party that applies the invitation — the inviter, any other client, a
/// transcript, and the invited client bootstrapped from the invitation itself
/// — does not list the identity in `get_members` until the member's own
/// cross-sign evolvement is applied.
pub proof fn lemma_cross_sign_gating(c: ClientView, m: MemberView, s: StateView)
    requires
        !m.cross_signed,
        !has_id(c.state.members, m.id),
    ensures
        has_id(add_ev(c, m).members(), m.id),
        !has_id(visible(apply_state(s, add_ev(c, m)).members), m.id),
{
    let members = add_ev(c, m).members();
    assert(members == c.state.members.push(m));
    assert(members[members.len() - 1].id == m.id);
    assert forall|k: int|
        0 <= k < members.len() && members[k].id == m.id implies !(#[trigger] members[k]).cross_signed by {
        if k < members.len() - 1 {
            assert(c.state.members[k].id == m.id);
        }
    }
    lemma_visible_uncrossed_id(members, m.id);
}

/// Cross-sign visibility: once any party applies a member's own cross-sign
/// evolvement — a key rotation, which marks the member's entry as
/// cross-signed — the member's identity is visible to that party.
pub proof fn lemma_cross_sign_visibility(c: ClientView, pk: Seq<u8>, s: StateView)
    ensures
        has_id(visible(apply_state(s, update_ev(c, pk)).members), c.id),
{
    reveal(Seq::filter);
    let members = apply_state(s, update_ev(c, pk)).members;
    let own = MemberView { id: c.id, pk, cross_signed: true };
    assert(members.last() == own);
    assert(members.drop_last().push(own) =~= members);
    let vis = visible(members);
    assert(vis.last() == own);
    assert(vis[vis.len() - 1].id == c.id);
}

/// Update freshness: two consecutive key rotations by the same identity
/// produce evolvements of which the second is a valid successor of the first;
/// the rotated entry keeps its identity while its key changes with each
/// rotation — provided the two fresh keys drawn differ, which is the one case
/// a random source cannot exclude.
pub proof fn lemma_update_freshness(c: ClientView, pk1: Seq<u8>, pk2: Seq<u8>)
    requires
        pk1 != pk2,
    ensures
        ({
            let ev1 = update_ev(c, pk1);
            let c1 = ClientView { state: apply_state(c.state, ev1), id: c.id };
            let ev2 = update_ev(c1, pk2);
            &&& ev2.valid_successor_of(ev1)
            &&& ev1.members().drop_last() == others(c.state.members, c.id)
            &&& ev1.members().last() == (MemberView { id: c.id, pk: pk1, cross_signed: true })
            &&& ev2.members().last() == (MemberView { id: c.id, pk: pk2, cross_signed: true })
            &&& ev1.members().last().id == ev2.members().last().id
            &&& ev1.members().last().pk != ev2.members().last().pk
            &&& has_id(apply_state(c.state, ev1).members, c.id)
            &&& has_id(apply_state(c1.state, ev2).members, c.id)
        }),
{
    let ev1 = update_ev(c, pk1);
    let c1 = ClientView { state: apply_state(c.state, ev1), id: c.id };
    let ev2 = update_ev(c1, pk2);
    let ms1 = ev1.members();
    let ms2 = ev2.members();
    assert(ms1[ms1.len() - 1].id == c.id);
    assert(ms2[ms2.len() - 1].id == c.id);
}

/// Successor rejection: an evolvement that has already been applied, or one
/// whose history position is out of order, does not apply — by `apply`'s
/// contract the attempt fails with `InvalidEvolvementError` and the state is
/// unchanged.
pub proof fn lemma_successor_rejection(s: StateView, e: EvolvementView)
    ensures
        apply_ok(s, e) ==> !apply_ok(apply_state(s, e), e),
        e.count() != s.count + 1 ==> !apply_ok(s, e),
{
}

} // verus!
