//! The transcript of the engine-based EID implementation.

use vstd::prelude::*;

use crate::mls::backend::EidMlsBackend;
use crate::mls::evolvement::EidMlsEvolvement;
use crate::mls::member::EidMlsMember;
use crate::mls::transcript_state::EidMlsTranscriptState;
use crate::traits::state::EidState;
use crate::traits::transcript::EidTranscript;
use crate::traits::types::EidError;

verus! {

/// A passive, secretless verifier of the engine-based EID: it holds the
/// trusted bootstrap state, the current state — always the replay of the log
/// over the bootstrap — and the log of evolvements applied after it.
pub struct EidMlsTranscript {
    pub(crate) trusted_state: EidMlsTranscriptState,
    pub(crate) current_state: EidMlsTranscriptState,
    pub(crate) log: Vec<EidMlsEvolvement>,
}

impl View for EidMlsTranscript {
    type V = Seq<EidMlsEvolvement>;

    open(crate) spec fn view(&self) -> Seq<EidMlsEvolvement> {
        self.log@
    }
}

impl EidTranscript for EidMlsTranscript {
    type EvolvementProvider = EidMlsEvolvement;

    type MemberProvider = EidMlsMember;

    type BackendProvider = EidMlsBackend;

    type StateProvider = EidMlsTranscriptState;

    /// A transcript is created exactly when every log entry replays over the
    /// trusted state in order; its log then holds exactly the given entries.
    /// The first entry the engine rejects aborts creation with the engine's
    /// verdict, and an unclonable trusted state with `SerializationError`.
    fn new(
        trusted_state: EidMlsTranscriptState,
        log: Vec<EidMlsEvolvement>,
        backend: &EidMlsBackend,
    ) -> (r: Result<Self, EidError>)
        ensures
            r matches Ok(t) ==> t@ == log@,
            r matches Err(e) ==> (e is SerializationError || e is InvalidEvolvementError),
    {
        let trusted_copy = match trusted_state.clone_serde() {
            Ok(c) => c,
            Err(e) => {
                return Err(e);
            },
        };
        let ghost log0 = log@;
        let mut transcript = EidMlsTranscript {
            trusted_state: trusted_copy,
            current_state: trusted_state,
            log: Vec::new(),
        };
        let mut pending = log;
        while pending.len() > 0
            invariant
                transcript.log@ + pending@ == log0,
            decreases pending@.len(),
        {
            let evolvement = pending.remove(0);
            let res = transcript.evolve(evolvement, backend);
            if let Err(e) = res {
                return Err(e);
            }
            proof {
                assert(transcript.log@ + pending@ =~= log0);
            }
        }
        proof {
            assert(transcript.log@ + pending@ =~= transcript.log@);
        }
        Ok(transcript)
    }

    /// An evolvement the engine validates against the current public view is
    /// applied and appended to the log; one it rejects leaves the transcript
    /// unchanged. Only inbound evolvements can be applied.
    fn evolve(&mut self, evolvement: EidMlsEvolvement, backend: &EidMlsBackend) -> (r: Result<
        (),
        EidError,
    >)
        ensures
            r is Ok ==> final(self)@ == old(self)@.push(evolvement),
            r is Err ==> final(self)@ == old(self)@,
            r matches Err(e) ==> e is InvalidEvolvementError,
            evolvement is OUT ==> r is Err,
    {
        let for_apply = evolvement.clone();
        let ghost was_out = evolvement is OUT;
        let res = self.current_state.apply(for_apply, backend);
        match res {
            Ok(()) => {
                proof {
                    assert(!was_out);
                }
                self.log.push(evolvement);
                Ok(())
            },
            Err(e) => Err(e),
        }
    }

    /// The evolvements applied after the trusted state, in order, as copies.
    fn log(&self) -> (r: Vec<EidMlsEvolvement>)
        ensures
            r@.len() == self@.len(),
    {
        self.log.clone()
    }

    /// The cross-signed members of the current state: the same filter a
    /// client applies; every reported member sits at a leaf of the tree.
    fn get_members(&self) -> (r: Vec<EidMlsMember>)
        ensures
            forall|i: int| 0 <= i < r@.len() ==> (#[trigger] r@[i])@.leaf_index is Some,
    {
        self.current_state.get_members()
    }

    /// Apply each evolvement in order, stopping at the first failure: on
    /// success the log has grown by exactly the given list; on failure by
    /// exactly the prefix before the rejected entry, and the engine's verdict
    /// is returned.
    #[verifier::loop_isolation(false)]
    fn batch_evolve(&mut self, evolvements: Vec<EidMlsEvolvement>, backend: &EidMlsBackend) -> (r:
        Result<(), EidError>)
        ensures
            r is Ok ==> final(self)@ == old(self)@ + evolvements@,
            r matches Err(e) ==> (e is InvalidEvolvementError && exists|i: int|
                0 <= i < evolvements@.len() && final(self)@ == old(self)@
                    + #[trigger] evolvements@.take(i)),
    {
        let ghost all = evolvements@;
        let total = evolvements.len();
        let mut pending = evolvements;
        let mut taken: usize = 0;
        proof {
            assert(all.len() == total);
            assert(self@ + all.take(0) =~= self@);
            assert(pending@ =~= all.skip(0));
        }
        while pending.len() > 0
            invariant
                all.len() <= usize::MAX,
                taken <= all.len(),
                pending@ == all.skip(taken as int),
                self@ == old(self)@ + all.take(taken as int),
            decreases pending@.len(),
        {
            proof {
                assert(all.skip(taken as int).len() == all.len() - taken);
            }
            let evolvement = pending.remove(0);
            proof {
                assert(evolvement == all[taken as int]);
                assert(pending@ =~= all.skip(taken as int + 1));
                assert(all.take(taken as int + 1) =~= all.take(taken as int).push(evolvement));
            }
            let res = self.evolve(evolvement, backend);
            if let Err(e) = res {
                proof {
                    assert(0 <= taken < all.len());
                    assert(self@ == old(self)@ + all.take(taken as int));
                }
                return Err(e);
            }
            taken = taken + 1;
        }
        proof {
            assert(all.take(all.len() as int) =~= all);
        }
        Ok(())
    }

    /// A copy of the immutable bootstrap snapshot; fails with
    /// `SerializationError` if the engine cannot encode it.
    fn get_trusted_state(&self) -> (r: Result<EidMlsTranscriptState, EidError>)
        ensures
            r matches Err(e) ==> e is SerializationError,
    {
        self.trusted_state.clone_serde()
    }
}

} // verus!
