//! Failures that a REPL command can surface, each with a short
//! human-readable context describing the attempted action.

use vstd::prelude::*;

verus! {

/// One failure of a dispatched command or of the stream relay.
#[derive(Clone, Debug, PartialEq, Eq)]
pub enum ReplError {
    /// `RoleInfo` was issued while no role is active.
    NoRole,
    /// `SessionInfo` or `ExitSession` was issued while no session is active.
    NoSession,
    /// `StartSession` was issued while a session is already active.
    SessionAlreadyActive,
    /// `SetModel` named a model the configuration does not know.
    UnknownModel(String),
    /// `SetRole` named a role the configuration does not know.
    UnknownRole(String),
    /// `Set` named a key the configuration does not know.
    UnknownKey(String),
    /// `Set` carried text that is not a `key value` pair with a known value.
    InvalidValue(String),
    /// The explicit `Copy` command failed; carries the underlying message.
    CopyFailed(String),
    /// Forwarding a `Text` event failed while no cancellation was pending.
    SendTextFailed,
    /// Forwarding a `Done` event failed while no cancellation was pending.
    SendDoneFailed,
    /// `ReadFile` could not open its file; carries the underlying message.
    FileOpenFailed(String),
    /// `ReadFile` could not read its file; carries the underlying message.
    FileReadFailed(String),
    /// The streaming exchange itself failed; carries its message unchanged.
    ExchangeFailed(String),
}

/// The text that `ReplError::message` renders for an error value.
pub open spec fn message_text(e: ReplError) -> Seq<char> {
    match e {
        ReplError::NoRole => "No role"@,
        ReplError::NoSession => "No session"@,
        ReplError::SessionAlreadyActive => "Session already active"@,
        ReplError::UnknownModel(n) => "Unknown model: "@ + n@,
        ReplError::UnknownRole(n) => "Unknown role: "@ + n@,
        ReplError::UnknownKey(k) => "Unknown key: "@ + k@,
        ReplError::InvalidValue(v) => "Invalid value: "@ + v@,
        ReplError::CopyFailed(m) => "Failed to copy the last output: "@ + m@,
        ReplError::SendTextFailed => "Failed to send StreamEvent:Text"@,
        ReplError::SendDoneFailed => "Failed to send StreamEvent:Done"@,
        ReplError::FileOpenFailed(m) => "Unable to open file: "@ + m@,
        ReplError::FileReadFailed(m) => "Unable to read file: "@ + m@,
        ReplError::ExchangeFailed(m) => m@,
    }
}

impl ReplError {
    /// The human-readable description of this failure, context first.
    pub fn message(&self) -> (r: String)
        ensures
            r@ == message_text(*self),
    {
        match self {
            ReplError::NoRole => String::from_str("No role"),
            ReplError::NoSession => String::from_str("No session"),
            ReplError::SessionAlreadyActive => String::from_str("Session already active"),
            ReplError::UnknownModel(n) => String::from_str("Unknown model: ").concat(n.as_str()),
            ReplError::UnknownRole(n) => String::from_str("Unknown role: ").concat(n.as_str()),
            ReplError::UnknownKey(k) => String::from_str("Unknown key: ").concat(k.as_str()),
            ReplError::InvalidValue(v) => String::from_str("Invalid value: ").concat(v.as_str()),
            ReplError::CopyFailed(m) => {
                String::from_str("Failed to copy the last output: ").concat(m.as_str())
            },
            ReplError::SendTextFailed => String::from_str("Failed to send StreamEvent:Text"),
            ReplError::SendDoneFailed => String::from_str("Failed to send StreamEvent:Done"),
            ReplError::FileOpenFailed(m) => {
                String::from_str("Unable to open file: ").concat(m.as_str())
            },
            ReplError::FileReadFailed(m) => {
                String::from_str("Unable to read file: ").concat(m.as_str())
            },
            ReplError::ExchangeFailed(m) => m.clone(),
        }
    }
}

} // verus!
