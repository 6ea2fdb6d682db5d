//! The closed error type of the delivery core.
//!
//! One variant per failure source, so that the boundary that must react
//! differently per kind can match exhaustively. Failures raised by outside
//! collaborators (sockets, TLS, serializers) are carried as their rendered
//! messages: the core never inspects them, it only retains and reports them.

use vstd::prelude::*;

use crate::buffer::Event;

verus! {

/// An error surfaced by the delivery core.
#[derive(Debug)]
pub enum Error {
    /// The command queue was full under the `Discard` policy; the rejected
    /// command is handed back.
    FullChannelError(Event),
    /// The dispatcher is gone, so the command could not be enqueued; the
    /// rejected command is handed back.
    ChannelDisconnectedError(Event),
    /// A connect, write or flush call on the outbound connection failed.
    IOError(String),
    /// A record could not be serialized.
    JsonSerializerError(String),
    /// The process-wide logger could not be registered because another one
    /// was already set.
    LogError,
    /// The TLS handshake or the TLS connection failed.
    TLSError(String),
    /// A configuration file could not be parsed.
    YamlError(String),
}

impl Error {
    /// A short, fixed description of the failure source.
    pub fn message(&self) -> (message: &'static str)
        ensures
            message@ == error_message(self),
    {
        match self {
            Error::FullChannelError(_) => "async channel buffer is full",
            Error::ChannelDisconnectedError(_) => "async channel is disconnected",
            Error::IOError(_) => "io failure",
            Error::JsonSerializerError(_) => "serializer failure",
            Error::LogError => "logger already set",
            Error::TLSError(_) => "tls failure",
            Error::YamlError(_) => "invalid yaml content",
        }
    }
}

/// The short description [`Error::message`] returns for each variant.
pub open spec fn error_message(error: &Error) -> Seq<char> {
    match error {
        Error::FullChannelError(_) => "async channel buffer is full"@,
        Error::ChannelDisconnectedError(_) => "async channel is disconnected"@,
        Error::IOError(_) => "io failure"@,
        Error::JsonSerializerError(_) => "serializer failure"@,
        Error::LogError => "logger already set"@,
        Error::TLSError(_) => "tls failure"@,
        Error::YamlError(_) => "invalid yaml content"@,
    }
}

} // verus!
