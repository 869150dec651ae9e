//! Backend-agnostic interfaces of the EID protocol: members, evolvements,
//! states, clients, transcripts, and the shared error type.

pub mod backend;
pub mod client;
pub mod evolvement;
pub mod member;
pub mod state;
pub mod transcript;
pub mod types;
