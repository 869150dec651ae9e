//! The backend of the plaintext EID implementation.

use vstd::prelude::*;

use crate::traits::backend::EidBackend;

verus! {

/// A placeholder backend without cryptographic functionality: the plaintext
/// implementation validates evolvements by their embedded history position
/// alone, so this backend carries no state.
pub struct EidDummyBackend {}

impl Default for EidDummyBackend {
    /// The one value of this stateless backend.
    fn default() -> (r: Self)
        ensures
            r == (EidDummyBackend {  }),
    {
        EidDummyBackend {  }
    }
}

impl EidBackend for EidDummyBackend {

}

} // verus!
