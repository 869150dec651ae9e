//! The transcript of the plaintext EID implementation.

use vstd::prelude::*;

use crate::dummy::backend::EidDummyBackend;
use crate::dummy::evolvement::{EidDummyEvolvement, EvolvementView};
use crate::dummy::member::EidDummyMember;
use crate::dummy::state::{apply_ok, apply_state, filter_cross_signed, replay, visible, EidDummyState, StateView};
use crate::traits::state::EidState;
use crate::traits::transcript::EidTranscript;
use crate::traits::types::EidError;

verus! {

/// The views of a list of evolvements.
pub open spec fn evs_view(s: Seq<EidDummyEvolvement>) -> Seq<EvolvementView> {
    s.map_values(|e: EidDummyEvolvement| e@)
}

/// The mathematical content of a transcript: the immutable bootstrap state,
/// the current state, and the log of evolvements applied after the bootstrap.
#[verifier::ext_equal]
pub struct TranscriptView {
    pub trusted: StateView,
    pub current: StateView,
    pub log: Seq<EvolvementView>,
}

/// The transcript invariant: the current state is always exactly the replay
/// of the log over the trusted bootstrap state.
pub open spec fn transcript_wf(t: TranscriptView) -> bool {
    replay(t.trusted, t.log) == Some(t.current)
}

/// Copy a list of evolvements.
fn clone_evolvements(v: &Vec<EidDummyEvolvement>) -> (r: Vec<EidDummyEvolvement>)
    ensures
        evs_view(r@) == evs_view(v@),
{
    let mut r: Vec<EidDummyEvolvement> = Vec::new();
    let mut i: usize = 0;
    while i < v.len()
        invariant
            i <= v.len(),
            r@.len() == i,
            forall|j: int| 0 <= j < i ==> r@[j]@ == v@[j]@,
        decreases v.len() - i,
    {
        r.push(v[i].clone());
        i = i + 1;
    }
    proof {
        assert(evs_view(r@) =~= evs_view(v@));
    }
    r
}

/// A passive, secretless verifier of the EID: it holds a trusted bootstrap
/// state and the log of evolvements applied after it, recomputes the current
/// state exactly as clients do, and can never author an evolvement.
pub struct EidDummyTranscript {
    pub(crate) trusted_state: EidDummyState,
    pub(crate) current_state: EidDummyState,
    pub(crate) log: Vec<EidDummyEvolvement>,
}

impl View for EidDummyTranscript {
    type V = TranscriptView;

    open(crate) spec fn view(&self) -> TranscriptView {
        TranscriptView {
            trusted: self.trusted_state@,
            current: self.current_state@,
            log: evs_view(self.log@),
        }
    }
}

impl Default for EidDummyTranscript {
    /// An empty transcript: an empty trusted state, nothing replayed yet.
    fn default() -> (r: Self)
        ensures
            transcript_wf(r@),
            r@.trusted.members.len() == 0,
            r@.trusted.count == 0,
            r@.log.len() == 0,
    {
        let trusted = EidDummyState::default();
        let current = EidDummyState::default();
        let r = EidDummyTranscript { trusted_state: trusted, current_state: current, log: Vec::new() };
        proof {
            assert(evs_view(r.log@) =~= Seq::<EvolvementView>::empty());
            assert(r@.trusted =~= r@.current);
        }
        r
    }
}

impl EidTranscript for EidDummyTranscript {
    type EvolvementProvider = EidDummyEvolvement;

    type MemberProvider = EidDummyMember;

    type BackendProvider = EidDummyBackend;

    type StateProvider = EidDummyState;

    /// A transcript is created exactly when the whole log replays over the
    /// trusted state; it then satisfies the transcript invariant, with the
    /// given state as bootstrap and the given log applied. The first entry
    /// that does not replay aborts creation with `InvalidEvolvementError`.
    fn new(
        trusted_state: EidDummyState,
        log: Vec<EidDummyEvolvement>,
        backend: &EidDummyBackend,
    ) -> (r: Result<Self, EidError>)
        ensures
            match replay(trusted_state@, evs_view(log@)) {
                Some(cur) => r matches Ok(t) && t@ == (TranscriptView {
                    trusted: trusted_state@,
                    current: cur,
                    log: evs_view(log@),
                }) && transcript_wf(t@),
                None => r matches Err(EidError::InvalidEvolvementError(_)),
            },
    {
        let mut current = trusted_state.clone();
        let mut applied: Vec<EidDummyEvolvement> = Vec::new();
        let mut i: usize = 0;
        while i < log.len()
            invariant
                i <= log@.len(),
                evs_view(applied@) == evs_view(log@).take(i as int),
                replay(trusted_state@, evs_view(applied@)) == Some(current@),
            decreases log@.len() - i,
        {
            let ev = log[i].clone();
            let ghost pre_applied = evs_view(applied@);
            applied.push(log[i].clone());
            proof {
                assert(evs_view(applied@) =~= pre_applied.push(ev@));
                assert(evs_view(applied@).drop_last() =~= pre_applied);
                assert(evs_view(applied@) =~= evs_view(log@).take(i + 1));
            }
            let res = current.apply(ev, backend);
            if let Err(e) = res {
                proof {
                    assert(replay(trusted_state@, evs_view(log@)) is None) by {
                        lemma_replay_none_extends(
                            trusted_state@,
                            evs_view(log@),
                            i as int,
                        );
                    }
                }
                return Err(e);
            }
            i = i + 1;
        }
        proof {
            assert(evs_view(log@).take(log@.len() as int) =~= evs_view(log@));
        }
        Ok(EidDummyTranscript { trusted_state, current_state: current, log: applied })
    }

    /// An evolvement that applies to the current state advances it and is
    /// appended to the log, keeping the transcript invariant; one that does
    /// not is rejected with `InvalidEvolvementError` and the transcript is
    /// unchanged.
    fn evolve(&mut self, evolvement: EidDummyEvolvement, backend: &EidDummyBackend) -> (r: Result<
        (),
        EidError,
    >)
        ensures
            apply_ok(old(self)@.current, evolvement@) ==> {
                &&& r is Ok
                &&& final(self)@ == (TranscriptView {
                    trusted: old(self)@.trusted,
                    current: apply_state(old(self)@.current, evolvement@),
                    log: old(self)@.log.push(evolvement@),
                })
                &&& transcript_wf(old(self)@) ==> transcript_wf(final(self)@)
            },
            !apply_ok(old(self)@.current, evolvement@) ==> (r matches Err(
                EidError::InvalidEvolvementError(_),
            ) && *final(self) == *old(self)),
    {
        let for_log = evolvement.clone();
        let res = self.current_state.apply(evolvement, backend);
        match res {
            Ok(()) => {
                let ghost pre_log = evs_view(self.log@);
                self.log.push(for_log);
                proof {
                    assert(evs_view(self.log@) =~= pre_log.push(evolvement@));
                    assert(evs_view(self.log@).drop_last() =~= pre_log);
                    assert(self@ =~= (TranscriptView {
                        trusted: old(self)@.trusted,
                        current: apply_state(old(self)@.current, evolvement@),
                        log: old(self)@.log.push(evolvement@),
                    }));
                }
                Ok(())
            },
            Err(e) => Err(e),
        }
    }

    /// Apply each evolvement in order, stopping at the first failure: on
    /// success the log has grown by exactly the given list and the current
    /// state is its replay; on failure by exactly the prefix before the
    /// rejected entry, whose history position the current state rejects. The
    /// transcript invariant is preserved either way.
    #[verifier::loop_isolation(false)]
    fn batch_evolve(
        &mut self,
        evolvements: Vec<EidDummyEvolvement>,
        backend: &EidDummyBackend,
    ) -> (r: Result<(), EidError>)
        ensures
            final(self)@.trusted == old(self)@.trusted,
            transcript_wf(old(self)@) ==> transcript_wf(final(self)@),
            r is Ok ==> ({
                &&& final(self)@.log == old(self)@.log + evs_view(evolvements@)
                &&& replay(old(self)@.current, evs_view(evolvements@)) == Some(final(self)@.current)
            }),
            r matches Err(e) ==> (e is InvalidEvolvementError && exists|i: int|
                {
                    &&& 0 <= i < evolvements@.len()
                    &&& final(self)@.log == old(self)@.log + evs_view(
                        #[trigger] evolvements@.take(i),
                    )
                    &&& replay(old(self)@.current, evs_view(evolvements@.take(i))) == Some(
                        final(self)@.current,
                    )
                    &&& !apply_ok(final(self)@.current, evolvements@[i]@)
                }),
    {
        let ghost all = evolvements@;
        let total = evolvements.len();
        let mut pending = evolvements;
        let mut taken: usize = 0;
        proof {
            assert(all.len() == total);
            assert(all.take(0) =~= Seq::<EidDummyEvolvement>::empty());
            assert(evs_view(all.take(0)) =~= Seq::<EvolvementView>::empty());
            assert(self@.log + evs_view(all.take(0)) =~= self@.log);
            assert(pending@ =~= all.skip(0));
        }
        while pending.len() > 0
            invariant
                taken <= all.len(),
                pending@ == all.skip(taken as int),
                self@.trusted == old(self)@.trusted,
                self@.log == old(self)@.log + evs_view(all.take(taken as int)),
                replay(old(self)@.current, evs_view(all.take(taken as int))) == Some(self@.current),
                transcript_wf(old(self)@) ==> transcript_wf(self@),
            decreases pending@.len(),
        {
            proof {
                assert(all.skip(taken as int).len() == all.len() - taken);
            }
            let evolvement = pending.remove(0);
            let ghost ev = evolvement@;
            proof {
                assert(evolvement == all[taken as int]);
                assert(pending@ =~= all.skip(taken as int + 1));
            }
            let res = self.evolve(evolvement, backend);
            proof {
                assert(evs_view(all.take(taken as int + 1)) =~= evs_view(
                    all.take(taken as int),
                ).push(ev));
                assert(evs_view(all.take(taken as int + 1)).drop_last() =~= evs_view(
                    all.take(taken as int),
                ));
            }
            if let Err(e) = res {
                proof {
                    assert(0 <= taken < all.len());
                    assert(self@.log == old(self)@.log + evs_view(all.take(taken as int)));
                    assert(!apply_ok(self@.current, all[taken as int]@));
                }
                return Err(e);
            }
            proof {
                assert(self@.log =~= old(self)@.log + evs_view(all.take(taken as int + 1)));
            }
            taken = taken + 1;
        }
        proof {
            assert(all.take(all.len() as int) =~= all);
        }
        Ok(())
    }

    /// Exactly the evolvements applied after the trusted state, in order.
    fn log(&self) -> (r: Vec<EidDummyEvolvement>)
        ensures
            evs_view(r@) == self@.log,
    {
        clone_evolvements(&self.log)
    }

    /// Exactly the members of the current state that have cross-signed: the
    /// same filter a client applies.
    fn get_members(&self) -> (r: Vec<EidDummyMember>)
        ensures
            crate::dummy::member::mview(r@) == visible(self@.current.members),
    {
        filter_cross_signed(&self.current_state.members)
    }

    /// The immutable bootstrap snapshot, always available.
    fn get_trusted_state(&self) -> (r: Result<EidDummyState, EidError>)
        ensures
            r matches Ok(s) && s@ == self@.trusted,
    {
        Ok(self.trusted_state.clone())
    }
}

/// A log whose prefix replays to a state that rejects the next entry does not
/// replay as a whole.
proof fn lemma_replay_none_extends(s: StateView, log: Seq<EvolvementView>, i: int)
    requires
        0 <= i < log.len(),
        match replay(s, log.take(i)) {
            Some(t) => !apply_ok(t, log[i]),
            None => true,
        },
    ensures
        replay(s, log) is None,
    decreases log.len() - i,
{
    if i == log.len() - 1 {
        assert(log.take(i) =~= log.drop_last());
        assert(log.last() == log[i]);
    } else {
        assert(replay(s, log.take(i + 1)) is None) by {
            assert(log.take(i + 1).drop_last() =~= log.take(i));
            assert(log.take(i + 1).last() == log[i]);
        }
        lemma_replay_none_of_prefix_extends(s, log, i + 1);
    }
}

/// A log with a prefix that does not replay does not replay as a whole.
proof fn lemma_replay_none_of_prefix_extends(s: StateView, log: Seq<EvolvementView>, i: int)
    requires
        0 <= i <= log.len(),
        replay(s, log.take(i)) is None,
    ensures
        replay(s, log) is None,
    decreases log.len() - i,
{
    if i == log.len() {
        assert(log.take(i) =~= log);
    } else {
        assert(replay(s, log.take(i + 1)) is None) by {
            assert(log.take(i + 1).drop_last() =~= log.take(i));
        }
        lemma_replay_none_of_prefix_extends(s, log, i + 1);
    }
}

} // verus!
