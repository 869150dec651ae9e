//! The evolvement of the engine-based EID implementation.

use vstd::prelude::*;

use crate::mls::bindings::{
    mls_in_from_bytes,
    mls_out_to_bytes,
    opt_mls_in_from_bytes,
    opt_mls_out_to_bytes,
};
use crate::traits::evolvement::Evolvement;
use crate::traits::types::EidError;

verus! {

/// One membership transition of the engine-based EID: a commit message of the
/// engine, together with the welcome addressed to an added member where the
/// transition is an addition. To keep the API small, outbound and inbound
/// evolvements share one type: a client authors the `OUT` form, every receiver
/// holds the `IN` form.
pub enum EidMlsEvolvement {
    OUT { message: openmls::prelude::MlsMessageOut, welcome: Option<openmls::prelude::MlsMessageOut> },
    IN { message: openmls::prelude::MlsMessageIn, welcome: Option<openmls::prelude::MlsMessageIn> },
}

impl Clone for EidMlsEvolvement {
    /// Cloning keeps the direction and the presence of the welcome; the
    /// engine's messages are copied by their own `Clone`.
    fn clone(&self) -> (r: Self)
        ensures
            r is OUT <==> self is OUT,
            r is IN <==> self is IN,
    {
        match self {
            EidMlsEvolvement::OUT { message, welcome } => EidMlsEvolvement::OUT {
                message: message.clone(),
                welcome: match welcome {
                    Some(w) => Some(w.clone()),
                    None => None,
                },
            },
            EidMlsEvolvement::IN { message, welcome } => EidMlsEvolvement::IN {
                message: message.clone(),
                welcome: match welcome {
                    Some(w) => Some(w.clone()),
                    None => None,
                },
            },
        }
    }
}

impl Evolvement for EidMlsEvolvement {
    /// Only an outbound evolvement serializes: the commit's encoding, then the
    /// optional welcome's. An inbound one is rejected with
    /// `SerializationError`; an engine encoding failure also surfaces as
    /// `SerializationError`.
    fn tls_serialize_detached(&self) -> (r: Result<Vec<u8>, EidError>)
        ensures
            self is IN ==> r matches Err(EidError::SerializationError(_)),
            r is Ok ==> self is OUT,
            r matches Err(e) ==> e is SerializationError,
    {
        match self {
            EidMlsEvolvement::OUT { message, welcome } => {
                let message_bytes = mls_out_to_bytes(message);
                match message_bytes {
                    Ok(mut out) => {
                        let welcome_bytes = opt_mls_out_to_bytes(welcome);
                        match welcome_bytes {
                            Ok(mut wb) => {
                                out.append(&mut wb);
                                Ok(out)
                            },
                            Err(e) => Err(EidError::SerializationError(e)),
                        }
                    },
                    Err(e) => Err(EidError::SerializationError(e)),
                }
            },
            EidMlsEvolvement::IN { .. } => Err(
                EidError::SerializationError(
                    "Expected an outbound evolvement, got an inbound one".to_owned(),
                ),
            ),
        }
    }

    /// Deserialization reads one message and one optional welcome from the
    /// buffer and always yields the inbound form; a malformed buffer is a
    /// `DeserializationError`.
    fn tls_deserialize_detached(bytes: &[u8]) -> (r: Result<Self, EidError>)
        ensures
            r matches Ok(e) ==> e is IN,
            r matches Err(e) ==> e is DeserializationError,
    {
        match mls_in_from_bytes(bytes) {
            Ok((message, used)) => {
                let rest = vstd::slice::slice_subrange(bytes, used, bytes.len());
                match opt_mls_in_from_bytes(rest) {
                    Ok((welcome, _)) => Ok(EidMlsEvolvement::IN { message, welcome }),
                    Err(e) => Err(EidError::DeserializationError(e)),
                }
            },
            Err(e) => Err(EidError::DeserializationError(e)),
        }
    }
}

} // verus!
