//! Creation and storage of credentials and key packages for the engine-based
//! EID implementation.

use vstd::prelude::*;

use crate::mls::backend::EidMlsBackend;
use crate::mls::bindings::{
    ciphersuite_signature_scheme,
    credential_new,
    credential_with_key,
    key_package_build,
    signature_keypair_new,
    signature_keypair_public,
    signature_keypair_store,
};
use crate::traits::types::EidError;

verus! {

/// Create a credential for an identity together with a fresh signature key
/// pair, and store the pair in the backend's key store. Every failure of the
/// engine surfaces as `CreateCredentialError`.
pub(crate) fn create_store_credential(
    identity: Vec<u8>,
    backend: &EidMlsBackend,
) -> (r: Result<
    (openmls::prelude::CredentialWithKey, openmls_basic_credential::SignatureKeyPair),
    EidError,
>)
    ensures
        r matches Err(e) ==> e is CreateCredentialError,
{
    let credential = match credential_new(identity) {
        Ok(c) => c,
        Err(e) => {
            return Err(EidError::CreateCredentialError(e));
        },
    };
    let scheme = ciphersuite_signature_scheme(&backend.ciphersuite);
    let signature_keys = match signature_keypair_new(scheme) {
        Ok(k) => k,
        Err(e) => {
            return Err(EidError::CreateCredentialError(e));
        },
    };
    if let Err(e) = signature_keypair_store(&signature_keys, &backend.mls_backend) {
        return Err(EidError::CreateCredentialError(e));
    }
    let public_key = signature_keypair_public(&signature_keys);
    Ok((credential_with_key(credential, public_key), signature_keys))
}

/// Build a key package for the credential, signed with the given key pair.
/// Every failure of the engine surfaces as `CreateCredentialError`.
pub(crate) fn create_store_key_package(
    backend: &EidMlsBackend,
    credential: openmls::prelude::CredentialWithKey,
    signer: &openmls_basic_credential::SignatureKeyPair,
) -> (r: Result<openmls::prelude::KeyPackage, EidError>)
    ensures
        r matches Err(e) ==> e is CreateCredentialError,
{
    match key_package_build(backend.ciphersuite, &backend.mls_backend, signer, credential) {
        Ok(kp) => Ok(kp),
        Err(e) => Err(EidError::CreateCredentialError(e)),
    }
}

} // verus!
