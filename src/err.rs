//! The error taxonomy shared by both brokers.

use vstd::prelude::*;

verus! {

/// Declares serde_json's error so that a failed encode or decode can be carried untouched.
#[verifier::external_type_specification]
#[verifier::external_body]
pub struct ExJsonError(serde_json::Error);

/// Every failure that this library, or a broker call made around it, reports.
pub enum EventfulError {
    /// The nsqd daemon refused or failed a call.
    NSQ,
    /// The cloud queue client failed; holds its diagnostic text.
    SQS(String),
    /// The HTTP publish call to an nsqd daemon failed; holds its diagnostic text.
    Http(String),
    /// A payload could not be encoded as JSON.
    SerdeJSON(serde_json::Error),
    /// A received body could not be decoded into the payload type.
    Decode(serde_json::Error),
    /// Addressing or consumer configuration is absent or malformed; names what.
    Config(String),
}

/// The four kinds of failure.
#[derive(Clone, Copy, Debug, PartialEq, Eq, Structural)]
pub enum ErrorKind {
    Encode,
    Decode,
    Transport,
    Configuration,
}

impl EventfulError {
    /// What a configuration error names; `None` for every other error.
    pub open spec fn config_text(&self) -> Option<Seq<char>> {
        match self {
            EventfulError::Config(m) => Some(m@),
            _ => None,
        }
    }

    pub open spec fn spec_kind(&self) -> ErrorKind {
        match self {
            EventfulError::NSQ => ErrorKind::Transport,
            EventfulError::SQS(_) => ErrorKind::Transport,
            EventfulError::Http(_) => ErrorKind::Transport,
            EventfulError::SerdeJSON(_) => ErrorKind::Encode,
            EventfulError::Decode(_) => ErrorKind::Decode,
            EventfulError::Config(_) => ErrorKind::Configuration,
        }
    }

    /// Which kind of failure this is: a decode failure is told apart from a
    /// transport failure, so that a poison message is not retried as a lost connection.
    pub fn kind(&self) -> (r: ErrorKind)
        ensures
            r == self.spec_kind(),
    {
        match self {
            EventfulError::NSQ => ErrorKind::Transport,
            EventfulError::SQS(_) => ErrorKind::Transport,
            EventfulError::Http(_) => ErrorKind::Transport,
            EventfulError::SerdeJSON(_) => ErrorKind::Encode,
            EventfulError::Decode(_) => ErrorKind::Decode,
            EventfulError::Config(_) => ErrorKind::Configuration,
        }
    }
}

} // verus!
