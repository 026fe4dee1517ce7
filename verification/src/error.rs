//! What can go wrong, and how each failure is told to the caller.
use vstd::prelude::*;

verus! {

/// The broad class of a failure.
#[derive(Clone, Copy, Debug, PartialEq, Eq, Structural)]
pub enum ErrorKind {
    /// The connection to the device or the channel could not be kept.
    ConnectionFailed,
    /// An argument does not fit the operation.
    InvalidParameter,
    /// The device is not connected.
    NotConnected,
    /// The value asked for does not exist.
    NotFound,
    /// The operation cannot be done yet.
    NotReady,
    /// The platform does not offer the operation.
    NotSupported,
}

/// An error object of the platform, by value.
#[derive(Debug, PartialEq, Eq)]
pub struct NSError {
    pub domain: String,
    pub code: i64,
    pub description: String,
}

/// Why the event stream of a peripheral could not deliver its next event.
#[derive(Debug, PartialEq, Eq)]
pub struct EventError {
    pub description: String,
}

/// A failure, told apart by where it comes from.
#[derive(Debug, PartialEq, Eq)]
pub enum Error {
    /// A failure whose kind says everything.
    Kind(ErrorKind),
    /// A failure found here, with a message for people.
    Message { kind: ErrorKind, message: String },
    /// A failure that the platform reported; its kind is for the platform layer to name.
    Platform(NSError),
    /// A failure of a known kind, with what the platform reported, if it did.
    Attributed { kind: ErrorKind, reported: Option<NSError> },
    /// The event stream ended or lost events.
    Events(EventError),
}

impl Error {
    /// Whether this is a failure of kind `kind` with exactly the message `message`.
    pub open spec fn says(&self, kind: ErrorKind, message: Seq<char>) -> bool {
        &&& self matches Error::Message { kind: k, message: m }
        &&& k == kind
        &&& m@ == message
    }

    /// A failure of kind `kind` with a message for people.
    pub fn new(kind: ErrorKind, message: String) -> (error: Error)
        ensures
            error == (Error::Message { kind, message }),
    {
        Error::Message { kind, message }
    }

    /// The failure that the platform reported as `reported`.
    pub fn from_nserror(reported: NSError) -> (error: Error)
        ensures
            error == Error::Platform(reported),
    {
        Error::Platform(reported)
    }

    /// A failure of kind `kind`, together with the platform's report of it.
    pub fn from_kind_and_nserror(kind: ErrorKind, reported: Option<NSError>) -> (error: Error)
        ensures
            error == (Error::Attributed { kind, reported }),
    {
        Error::Attributed { kind, reported }
    }

    /// The failure to receive an event.
    pub fn from_recv_error(cause: EventError) -> (error: Error)
        ensures
            error == Error::Events(cause),
    {
        Error::Events(cause)
    }
}

impl From<ErrorKind> for Error {
    fn from(kind: ErrorKind) -> (error: Error) {
        Error::Kind(kind)
    }
}

impl vstd::std_specs::convert::FromSpecImpl<ErrorKind> for Error {
    open spec fn obeys_from_spec() -> bool {
        true
    }

    open spec fn from_spec(kind: ErrorKind) -> Error {
        Error::Kind(kind)
    }
}

} // verus!
