//! The EID protocol over a real group key-agreement engine. The protocol
//! logic — which evolvements are authored, how received evolvements are
//! dispatched, which member is visible — is verified; the engine's
//! cryptography stands behind the trusted boundary in `bindings`.

pub mod backend;
pub mod bindings;
pub mod client;
pub mod client_state;
pub mod evolvement;
pub mod key_creation;
pub mod member;
pub mod transcript;
pub mod transcript_state;
