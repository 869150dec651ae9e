//! The backend interface: the provider of cryptographic functions.

use vstd::prelude::*;

verus! {

/// The interface to a provider of cryptographic functions. The protocol state
/// machine is backend-agnostic: the same logic runs against a no-crypto test
/// double and a real group key-agreement engine.
pub trait EidBackend: Default + Sized {

}

} // verus!
