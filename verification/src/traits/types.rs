//! The error type shared by every EID operation.

use vstd::prelude::*;

verus! {

/// Errors surfaced by EID operations. Every operation of the protocol either
/// succeeds or returns one of these; a failure aborts only the attempted
/// transition and leaves the EID instance usable.
#[derive(Debug)]
pub enum EidError {
    DeserializationError(String),
    SerializationError(String),
    AddMemberError(String),
    UpdateMemberError(String),
    RemoveMemberError(String),
    InvalidMemberError(String),
    InvalidEvolvementError(String),
    InvalidInvitationError(String),
    CreateTranscriptStateError(String),
    ExportTranscriptStateError(String),
    ImportTranscriptStateError(String),
    CreateClientError(String),
    CreateCredentialError(String),
}

impl EidError {
    /// The human-readable message the error was raised with.
    pub fn message(&self) -> (r: &str)
        ensures
            r@ == self.message_spec(),
    {
        match self {
            EidError::DeserializationError(s)
            | EidError::SerializationError(s)
            | EidError::AddMemberError(s)
            | EidError::UpdateMemberError(s)
            | EidError::RemoveMemberError(s)
            | EidError::InvalidMemberError(s)
            | EidError::InvalidEvolvementError(s)
            | EidError::InvalidInvitationError(s)
            | EidError::CreateTranscriptStateError(s)
            | EidError::ExportTranscriptStateError(s)
            | EidError::ImportTranscriptStateError(s)
            | EidError::CreateClientError(s)
            | EidError::CreateCredentialError(s) => s.as_str(),
        }
    }

    /// The message carried by each variant.
    pub open spec fn message_spec(&self) -> Seq<char> {
        match self {
            EidError::DeserializationError(s)
            | EidError::SerializationError(s)
            | EidError::AddMemberError(s)
            | EidError::UpdateMemberError(s)
            | EidError::RemoveMemberError(s)
            | EidError::InvalidMemberError(s)
            | EidError::InvalidEvolvementError(s)
            | EidError::InvalidInvitationError(s)
            | EidError::CreateTranscriptStateError(s)
            | EidError::ExportTranscriptStateError(s)
            | EidError::ImportTranscriptStateError(s)
            | EidError::CreateClientError(s)
            | EidError::CreateCredentialError(s) => s@,
        }
    }
}

} // verus!
