//! The backend of the engine-based EID implementation.

use vstd::prelude::*;

use crate::mls::bindings::{default_ciphersuite, default_crypto_backend};
use crate::traits::backend::EidBackend;

verus! {

/// The provider of cryptographic functions: a crypto engine instance and the
/// ciphersuite the EID runs on. One long-lived instance is owned by the
/// calling process and passed by reference into every operation.
pub struct EidMlsBackend {
    pub(crate) mls_backend: openmls_rust_crypto::OpenMlsRustCrypto,
    pub ciphersuite: openmls_traits::types::Ciphersuite,
}

impl Default for EidMlsBackend {
    /// A fresh crypto engine with an empty key store, on the default
    /// ciphersuite.
    fn default() -> Self {
        EidMlsBackend {
            mls_backend: default_crypto_backend(),
            ciphersuite: default_ciphersuite(),
        }
    }
}

impl EidBackend for EidMlsBackend {

}

/// Construct a default backend and let it drop: the smallest possible use of
/// the engine, as a starting point.
pub fn create_backend() {
    let backend = EidMlsBackend::default();
    let _backend = backend;
}

} // verus!
