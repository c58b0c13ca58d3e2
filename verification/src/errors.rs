//! The failure taxonomy of the bridge: every call either fully succeeds with
//! a typed result or fails with exactly one of these errors.

use vstd::prelude::*;

verus! {

/// Every way a bridge call can fail, from spawning the child to decoding a
/// typed result out of its reply.
#[derive(Debug, Clone, PartialEq, Eq)]
pub enum BridgeError {
    /// The child executable could not be launched.
    SpawnError(String),
    /// The child closed its output before sending the ready handshake.
    PrematureExit,
    /// The first line from the child was not the ready handshake.
    UnexpectedHandshake,
    /// The child closed its output mid-session; the session is unusable.
    StreamClosed,
    /// Writing to or reading from the child failed.
    IoError(String),
    /// A reply line was not well-formed.
    DecodeError,
    /// A reply lacked a required field (status, msg, or result).
    MalformedReply,
    /// The child explicitly reported failure; the message is passed through verbatim.
    RemoteError(String),
    /// A reply's result did not have the shape a decoder required.
    TypeMismatch,
    /// An array result was shorter than the decoder's expected arity.
    ArityError,
    /// A segment of a comma-joined list was not an unsigned integer.
    ParseError,
    /// A well-formed reply carried the domain-specific failure sentinel.
    OperationFailed,
}

/// The mathematical model of a `BridgeError`: the same taxonomy, with each
/// carried message seen as a sequence of characters.
pub enum ErrorModel {
    SpawnError(Seq<char>),
    PrematureExit,
    UnexpectedHandshake,
    StreamClosed,
    IoError(Seq<char>),
    DecodeError,
    MalformedReply,
    RemoteError(Seq<char>),
    TypeMismatch,
    ArityError,
    ParseError,
    OperationFailed,
}

impl View for BridgeError {
    type V = ErrorModel;

    open spec fn view(&self) -> ErrorModel {
        match self {
            BridgeError::SpawnError(m) => ErrorModel::SpawnError(m@),
            BridgeError::PrematureExit => ErrorModel::PrematureExit,
            BridgeError::UnexpectedHandshake => ErrorModel::UnexpectedHandshake,
            BridgeError::StreamClosed => ErrorModel::StreamClosed,
            BridgeError::IoError(m) => ErrorModel::IoError(m@),
            BridgeError::DecodeError => ErrorModel::DecodeError,
            BridgeError::MalformedReply => ErrorModel::MalformedReply,
            BridgeError::RemoteError(m) => ErrorModel::RemoteError(m@),
            BridgeError::TypeMismatch => ErrorModel::TypeMismatch,
            BridgeError::ArityError => ErrorModel::ArityError,
            BridgeError::ParseError => ErrorModel::ParseError,
            BridgeError::OperationFailed => ErrorModel::OperationFailed,
        }
    }
}

/// A `Result` that may fail with a `BridgeError`, seen at the model level.
pub open spec fn err_view<T>(r: Result<T, BridgeError>) -> Result<T, ErrorModel> {
    match r {
        Ok(t) => Ok(t),
        Err(e) => Err(e@),
    }
}

} // verus!
