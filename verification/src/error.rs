//! The error type of every fallible operation of the library.
use vstd::prelude::*;

verus! {

/// I/O failures are carried through unchanged; the library never looks inside one.
#[verifier::external_type_specification]
#[verifier::external_body]
pub struct ExIoError(std::io::Error);

/// Errors returned by volume backup operations.
///
/// Each variant carries structured context (backend name, operation, path) so
/// callers can present meaningful diagnostics without parsing error strings.
#[derive(Debug)]
pub enum Error {
    UnsupportedOperation { operation: &'static str, backend: &'static str },
    MissingCapability { capability: &'static str, backend: &'static str },
    InvalidVolume { volume: String },
    MissingPath { path: String },
    Io(std::io::Error),
    InvalidArgument { message: String },
    CommandFailed { command: String, status: i32, stderr: String },
    Timeout { operation: &'static str, backend: &'static str, timeout_secs: u64 },
    Message { message: String },
}

/// What an error says, as plain values.
pub enum Fault {
    UnsupportedOperation { operation: Seq<char>, backend: Seq<char> },
    MissingCapability { capability: Seq<char>, backend: Seq<char> },
    InvalidVolume { volume: Seq<char> },
    MissingPath { path: Seq<char> },
    Io,
    InvalidArgument { message: Seq<char> },
    CommandFailed { command: Seq<char>, status: i32, stderr: Seq<char> },
    Timeout { operation: Seq<char>, backend: Seq<char>, timeout_secs: u64 },
    Message { message: Seq<char> },
}

/// The plain content of an error.
pub open spec fn fault(e: Error) -> Fault {
    match e {
        Error::UnsupportedOperation { operation, backend } => Fault::UnsupportedOperation {
            operation: operation@,
            backend: backend@,
        },
        Error::MissingCapability { capability, backend } => Fault::MissingCapability {
            capability: capability@,
            backend: backend@,
        },
        Error::InvalidVolume { volume } => Fault::InvalidVolume { volume: volume@ },
        Error::MissingPath { path } => Fault::MissingPath { path: path@ },
        Error::Io(_) => Fault::Io,
        Error::InvalidArgument { message } => Fault::InvalidArgument { message: message@ },
        Error::CommandFailed { command, status, stderr } => Fault::CommandFailed {
            command: command@,
            status,
            stderr: stderr@,
        },
        Error::Timeout { operation, backend, timeout_secs } => Fault::Timeout {
            operation: operation@,
            backend: backend@,
            timeout_secs,
        },
        Error::Message { message } => Fault::Message { message: message@ },
    }
}

/// The plain content of a result: the view of its value, or the content of its error.
pub open spec fn outcome<T: View>(r: std::result::Result<T, Error>) -> std::result::Result<T::V, Fault> {
    match r {
        Ok(v) => Ok(v@),
        Err(e) => Err(fault(e)),
    }
}

impl From<std::io::Error> for Error {
    /// An I/O failure, carried as it is.
    fn from(e: std::io::Error) -> (r: Self) {
        Error::Io(e)
    }
}

impl vstd::std_specs::convert::FromSpecImpl<std::io::Error> for Error {
    open spec fn obeys_from_spec() -> bool {
        true
    }

    open spec fn from_spec(e: std::io::Error) -> Error {
        Error::Io(e)
    }
}

/// A convenience alias for `std::result::Result<T, Error>`.
pub type Result<T> = std::result::Result<T, Error>;

impl Error {
    /// The timeout of a `Timeout` error; `None` for every other variant.
    pub fn timeout_secs(&self) -> (r: Option<u64>)
        ensures
            r == (match self {
                Error::Timeout { timeout_secs, .. } => Some(*timeout_secs),
                _ => None,
            }),
    {
        match self {
            Error::Timeout { timeout_secs, .. } => Some(*timeout_secs),
            _ => None,
        }
    }
}

/// An `InvalidArgument` error carrying `message`.
pub open spec fn is_invalid_argument(e: Error, message: Seq<char>) -> bool {
    match e {
        Error::InvalidArgument { message: m } => m@ == message,
        _ => false,
    }
}

} // verus!
