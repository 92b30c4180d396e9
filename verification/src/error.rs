//! Error kinds returned by every fallible operation of the library.

use vstd::prelude::*;

verus! {

/// What went wrong, with a human-readable message.
#[derive(Debug)]
pub enum Error {
    /// A reserved or duplicate identifier, or a missing callback.
    InvalidArgument(String),
    /// An operation named a plugin that has no session.
    NotFound(String),
    /// A singleton service was started twice.
    AlreadyStarted(String),
    /// A socket or filesystem operation failed.
    IOError(String),
    /// The RPC layer failed; the message wraps the lower-level cause.
    TransportError(String),
    /// Unexpected internal state.
    Other(String),
}

/// The kind of an [`Error`], without its message.
#[derive(Clone, Copy, Debug, PartialEq, Eq, Structural)]
pub enum ErrorKind {
    InvalidArgument,
    NotFound,
    AlreadyStarted,
    IOError,
    TransportError,
    Other,
}

impl Error {
    /// The kind of this error.
    pub open spec fn spec_kind(&self) -> ErrorKind {
        match self {
            Error::InvalidArgument(_) => ErrorKind::InvalidArgument,
            Error::NotFound(_) => ErrorKind::NotFound,
            Error::AlreadyStarted(_) => ErrorKind::AlreadyStarted,
            Error::IOError(_) => ErrorKind::IOError,
            Error::TransportError(_) => ErrorKind::TransportError,
            Error::Other(_) => ErrorKind::Other,
        }
    }

    /// The message carried by this error.
    pub open spec fn spec_message(&self) -> Seq<char> {
        match self {
            Error::InvalidArgument(m) => m@,
            Error::NotFound(m) => m@,
            Error::AlreadyStarted(m) => m@,
            Error::IOError(m) => m@,
            Error::TransportError(m) => m@,
            Error::Other(m) => m@,
        }
    }

    /// The kind of this error.
    #[verifier::when_used_as_spec(spec_kind)]
    pub fn kind(&self) -> (k: ErrorKind)
        ensures
            k == self.spec_kind(),
    {
        match self {
            Error::InvalidArgument(_) => ErrorKind::InvalidArgument,
            Error::NotFound(_) => ErrorKind::NotFound,
            Error::AlreadyStarted(_) => ErrorKind::AlreadyStarted,
            Error::IOError(_) => ErrorKind::IOError,
            Error::TransportError(_) => ErrorKind::TransportError,
            Error::Other(_) => ErrorKind::Other,
        }
    }

    /// The message carried by this error.
    pub fn message(&self) -> (m: &String)
        ensures
            m@ == self.spec_message(),
    {
        match self {
            Error::InvalidArgument(m) => m,
            Error::NotFound(m) => m,
            Error::AlreadyStarted(m) => m,
            Error::IOError(m) => m,
            Error::TransportError(m) => m,
            Error::Other(m) => m,
        }
    }
}

} // verus!
