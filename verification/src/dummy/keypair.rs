//! The key pair the plaintext EID implementation keeps in its key store.

use vstd::prelude::*;

use crate::dummy::codec::{
    bytes_wf,
    parse_bytes,
    parse_bytes_spec,
    ser_bytes,
    write_bytes,
};
use crate::dummy::keystore::Error;
use crate::bytes::clone_bytes;

verus! {

/// The mathematical content of a key pair.
pub struct KeyPairView {
    pub sk: Seq<u8>,
    pub pk: Seq<u8>,
}

/// A plaintext signature key pair: the secret and the public half, stored in
/// the key store as one length-prefixed record.
#[derive(Debug)]
pub struct KeyPair {
    pub sk: Vec<u8>,
    pub pk: Vec<u8>,
}

impl View for KeyPair {
    type V = KeyPairView;

    open spec fn view(&self) -> KeyPairView {
        KeyPairView { sk: self.sk@, pk: self.pk@ }
    }
}

impl Clone for KeyPair {
    /// Cloning keeps both halves.
    fn clone(&self) -> (r: Self)
        ensures
            r@ == self@,
    {
        KeyPair { sk: clone_bytes(&self.sk), pk: clone_bytes(&self.pk) }
    }
}

/// The encoding of a key pair: the secret half, then the public half.
pub open spec fn ser_keypair(kp: KeyPairView) -> Seq<u8> {
    ser_bytes(kp.sk) + ser_bytes(kp.pk)
}

/// Whether a key pair fits the wire format's length fields.
pub open spec fn keypair_wf(kp: KeyPairView) -> bool {
    bytes_wf(kp.sk) && bytes_wf(kp.pk)
}

/// Parse one key pair at the start of a buffer.
pub open spec fn parse_keypair_spec(b: Seq<u8>) -> Option<(KeyPairView, int)> {
    match parse_bytes_spec(b, 0) {
        Some((sk, p1)) => match parse_bytes_spec(b, p1) {
            Some((pk, p2)) => Some((KeyPairView { sk, pk }, p2)),
            None => None,
        },
        None => None,
    }
}

impl KeyPair {
    /// Serialize the key pair for the key store; never fails.
    pub fn to_key_store_value(&self) -> (r: Result<Vec<u8>, Error>)
        ensures
            r matches Ok(v) && v@ == ser_keypair(self@),
    {
        let mut out: Vec<u8> = Vec::new();
        write_bytes(&mut out, &self.sk);
        write_bytes(&mut out, &self.pk);
        proof {
            assert(out@ =~= ser_keypair(self@));
        }
        Ok(out)
    }

    /// Deserialize a key pair from a key store value: accepts exactly the
    /// byte strings that encode one key pair with nothing following it;
    /// everything else is a `DeserializationError`.
    pub fn from_key_store_value(ksv: &[u8]) -> (r: Result<Self, Error>)
        ensures
            match parse_keypair_spec(ksv@) {
                Some((v, end)) => if end == ksv@.len() {
                    r matches Ok(kp) && kp@ == v
                } else {
                    r matches Err(Error::DeserializationError)
                },
                None => r matches Err(Error::DeserializationError),
            },
    {
        match parse_bytes(ksv, 0) {
            Some((sk, p1)) => match parse_bytes(ksv, p1) {
                Some((pk, p2)) => {
                    if p2 == ksv.len() {
                        Ok(KeyPair { sk, pk })
                    } else {
                        Err(Error::DeserializationError)
                    }
                },
                None => Err(Error::DeserializationError),
            },
            None => Err(Error::DeserializationError),
        }
    }
}

} // verus!
