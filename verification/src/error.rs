//! One error type for everything that can end a request, and the four kinds
//! that a session owner tells apart.

use vstd::prelude::*;

verus! {

/// A configuration variable that the remote backend needs.
#[derive(Clone, Copy, Debug, PartialEq, Eq, Structural)]
pub enum Variable {
    ReadRangeApi,
    InitialiseDataApi,
    StartProgramApi,
}

/// Why a request could not be completed.
#[derive(Clone, Copy, Debug, PartialEq, Eq, Structural)]
pub enum Error {
    /// A required configuration variable is absent.
    MissingVariable(Variable),
    /// BIOS function 0: the program asks to end.
    Terminated,
    /// A BIOS function that the bridge does not provide.
    UnknownFunction(u8),
    /// The memory service answered a read with this status instead of 200.
    ReadRejected(u16),
    /// The memory service answered the initialise call with this status.
    InitialiseRejected(u16),
    /// The execution service answered the start call with this status.
    StartRejected(u16),
    /// The memory service answered a read with text that is not base64.
    UndecodableMemory,
    /// The store holds no computer with the identifier it was asked for.
    UnknownComputer,
    /// The store already holds a computer with that identifier.
    ComputerExists,
    /// An image of this many bytes was offered where 65536 are due.
    ImageSize(usize),
    /// An upload or a request body that could not be read.
    MalformedInput,
}

/// The kinds of failure.
#[derive(Clone, Copy, Debug, PartialEq, Eq, Structural)]
pub enum ErrorKind {
    /// Configuration is incomplete: the service cannot start.
    FatalConfiguration,
    /// A BIOS call that ends the session.
    FatalBios,
    /// A memory backend or a sibling service did not do its part.
    BackendFailure,
    /// Input that could not be read.
    MalformedInput,
}

impl Error {
    /// The kind that this error belongs to.
    pub open spec fn kind_of(self) -> ErrorKind {
        match self {
            Error::MissingVariable(_) => ErrorKind::FatalConfiguration,
            Error::Terminated | Error::UnknownFunction(_) => ErrorKind::FatalBios,
            Error::MalformedInput => ErrorKind::MalformedInput,
            _ => ErrorKind::BackendFailure,
        }
    }

    /// The kind that this error belongs to.
    pub fn kind(&self) -> (kind: ErrorKind)
        ensures
            kind == self.kind_of(),
    {
        match self {
            Error::MissingVariable(_) => ErrorKind::FatalConfiguration,
            Error::Terminated | Error::UnknownFunction(_) => ErrorKind::FatalBios,
            Error::MalformedInput => ErrorKind::MalformedInput,
            _ => ErrorKind::BackendFailure,
        }
    }
}

} // verus!
