//! What can go wrong when an address is built or checked.

use vstd::prelude::*;

verus! {

/// The broad classes of failure, named after the I/O error kinds they
/// correspond to.
#[derive(Clone, Copy, Debug, PartialEq, Eq, Structural)]
pub enum ErrorKind {
    /// Malformed or oversized input.
    InvalidInput,
    /// A path was required and none was given.
    NotFound,
    /// The platform has no such kind of address.
    AddrNotAvailable,
    /// The kernel returned something that is not a usable address.
    InvalidData,
}

/// The reason an address was refused.
#[derive(Clone, Copy, Debug, PartialEq, Eq, Structural)]
pub enum AddrError {
    /// The path is empty.
    EmptyPath,
    /// The path does not fit in `sun_path`.
    PathTooLong,
    /// The path holds a NUL byte.
    PathContainsNul,
    /// Abstract addresses do not exist on this platform.
    AbstractUnsupported,
    /// The abstract name does not fit in `sun_path` behind its marker byte.
    AbstractTooLong,
    /// No address was given although the length is not zero.
    NullAddress,
    /// The length ends before the path field begins.
    LengthTooLow,
    /// The length reaches past the end of the path field.
    LengthTooHigh,
    /// The family tag is not that of Unix-domain sockets.
    NotUnix,
    /// The kernel cut an abstract name short.
    AbstractTruncated,
    /// The kernel cut a path short by more than its terminator.
    PathTruncated,
}

impl AddrError {
    /// The class each reason belongs to.
    pub open spec fn spec_kind(self) -> ErrorKind {
        match self {
            AddrError::EmptyPath => ErrorKind::NotFound,
            AddrError::AbstractUnsupported => ErrorKind::AddrNotAvailable,
            AddrError::NotUnix | AddrError::AbstractTruncated | AddrError::PathTruncated =>
                ErrorKind::InvalidData,
            AddrError::PathTooLong
            | AddrError::PathContainsNul
            | AddrError::AbstractTooLong
            | AddrError::NullAddress
            | AddrError::LengthTooLow
            | AddrError::LengthTooHigh => ErrorKind::InvalidInput,
        }
    }

    /// The class of this error.
    pub fn kind(&self) -> (kind: ErrorKind)
        ensures
            kind == self.spec_kind(),
    {
        match self {
            AddrError::EmptyPath => ErrorKind::NotFound,
            AddrError::AbstractUnsupported => ErrorKind::AddrNotAvailable,
            AddrError::NotUnix => ErrorKind::InvalidData,
            AddrError::AbstractTruncated => ErrorKind::InvalidData,
            AddrError::PathTruncated => ErrorKind::InvalidData,
            AddrError::PathTooLong => ErrorKind::InvalidInput,
            AddrError::PathContainsNul => ErrorKind::InvalidInput,
            AddrError::AbstractTooLong => ErrorKind::InvalidInput,
            AddrError::NullAddress => ErrorKind::InvalidInput,
            AddrError::LengthTooLow => ErrorKind::InvalidInput,
            AddrError::LengthTooHigh => ErrorKind::InvalidInput,
        }
    }

    /// The wording of each reason.
    pub open spec fn spec_message(self) -> Seq<char> {
        match self {
            AddrError::EmptyPath => "path is empty"@,
            AddrError::PathTooLong => "path is too long for an unix socket address"@,
            AddrError::PathContainsNul => "path cannot contain nul bytes"@,
            AddrError::AbstractUnsupported =>
                "abstract unix domain socket addresses are not available"@,
            AddrError::AbstractTooLong => "abstract name is too long"@,
            AddrError::NullAddress => "addr is NULL"@,
            AddrError::LengthTooLow => "address length is too low"@,
            AddrError::LengthTooHigh => "address is too long"@,
            AddrError::NotUnix => "not a Unix socket address"@,
            AddrError::AbstractTruncated => "name was truncated"@,
            AddrError::PathTruncated => "path was truncated"@,
        }
    }

    /// A short description of this error.
    pub fn message(&self) -> (text: &'static str)
        ensures
            text@ == self.spec_message(),
    {
        match self {
            AddrError::EmptyPath => "path is empty",
            AddrError::PathTooLong => "path is too long for an unix socket address",
            AddrError::PathContainsNul => "path cannot contain nul bytes",
            AddrError::AbstractUnsupported =>
                "abstract unix domain socket addresses are not available",
            AddrError::AbstractTooLong => "abstract name is too long",
            AddrError::NullAddress => "addr is NULL",
            AddrError::LengthTooLow => "address length is too low",
            AddrError::LengthTooHigh => "address is too long",
            AddrError::NotUnix => "not a Unix socket address",
            AddrError::AbstractTruncated => "name was truncated",
            AddrError::PathTruncated => "path was truncated",
        }
    }
}

/// Failure of a round trip through a foreign call: either the call itself
/// failed, or what it left behind is not an acceptable address.
#[derive(Debug, PartialEq, Eq)]
pub enum FfiError<E> {
    /// The call failed; its error is passed on unchanged.
    Call(E),
    /// The call succeeded and the address it produced was refused.
    Addr(AddrError),
}

} // verus!
