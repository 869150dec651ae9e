//! An explicit, evolving identity (EID): a cryptographically verifiable group
//! membership record maintained as an ordered sequence of signed transitions
//! ("evolvements") over a group key-agreement backend.
//!
//! Live participants (`EidClient` implementors) author and apply evolvements;
//! a passive, secretless observer (`EidTranscript` implementor) replays the
//! same evolvement log from a trusted bootstrap snapshot and must always agree
//! with every live participant on who is currently a member.

mod bytes;

pub mod traits;

pub mod dummy;

pub mod mls;

pub mod test_helpers;


