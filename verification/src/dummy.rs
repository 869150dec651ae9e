//! A plaintext implementation of the EID protocol without cryptography: the
//! reference model of the state machine, useful for tests and as the fully
//! specified core of the protocol.

pub mod backend;
pub mod client;
pub mod codec;
pub mod evolvement;
pub mod keypair;
pub mod keystore;
pub mod laws;
pub mod member;
pub mod state;
pub mod transcript;
