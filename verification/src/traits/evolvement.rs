//! The evolvement interface: one signed membership transition of an EID.

use vstd::prelude::*;

use crate::traits::types::EidError;

verus! {

/// One change of an EID. The history of an EID is the ordered log of all
/// evolvements; every evolvement is wire-serializable so that it can be
/// transported to the other participants and to transcripts.
pub trait Evolvement: Sized + Clone {
    /// Serialize the evolvement into a detached byte string.
    fn tls_serialize_detached(&self) -> Result<Vec<u8>, EidError>;

    /// Deserialize an evolvement from a byte string.
    fn tls_deserialize_detached(bytes: &[u8]) -> Result<Self, EidError>;
}

} // verus!
