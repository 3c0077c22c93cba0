//! The one error type into which every layer's failure is converted where it
//! arises.
use vstd::prelude::*;

verus! {

/// Where a failure arose, which decides how far it reaches.
#[derive(Clone, Copy, Debug, PartialEq, Eq, Structural)]
pub enum ErrorKind {
    /// The server could not start: the TLS material was malformed or the
    /// listen address could not be bound.
    Setup,
    /// One attempt to accept a connection failed.
    Accept,
    /// The encryption upgrade of one connection failed.
    Handshake,
    /// The service of one connection could not be made.
    Factory,
    /// The user's service failed while it handled a request.
    Service,
}

impl ErrorKind {
    /// A fatal failure ends the whole server; every other one ends at most the
    /// connection on which it arose.
    pub open spec fn fatal(self) -> bool {
        self == ErrorKind::Setup
    }

    /// Whether a failure of this kind ends the whole server.
    pub fn is_fatal(self) -> (fatal: bool)
        ensures
            fatal == self.fatal(),
    {
        match self {
            ErrorKind::Setup => true,
            _ => false,
        }
    }
}

/// A failure of any layer, with the kind of its origin and the layer's own
/// error value.
#[derive(Debug, PartialEq, Eq)]
pub struct Error<E> {
    pub kind: ErrorKind,
    pub source: E,
}

impl<E> Error<E> {
    /// The failure `source`, as it arose at an origin of the given kind.
    pub fn new(kind: ErrorKind, source: E) -> (error: Self)
        ensures
            error == (Error { kind, source }),
    {
        Error { kind, source }
    }

    /// Whether this failure ends the whole server.
    pub fn is_fatal(&self) -> (fatal: bool)
        ensures
            fatal == self.kind.fatal(),
    {
        self.kind.is_fatal()
    }

    /// Gives back the layer's own error value.
    pub fn into_source(self) -> (source: E)
        ensures
            source == self.source,
    {
        self.source
    }
}

/// The error of a start-up step that failed with `source`.
pub open spec fn setup_failure<E>(source: E) -> Error<E> {
    Error { kind: ErrorKind::Setup, source }
}

/// What `outcome` is once a failure in it carries the kind of its origin: a
/// success is kept as it is.
pub open spec fn tagged_spec<T, E>(kind: ErrorKind, outcome: Result<T, E>) -> Result<T, Error<E>> {
    match outcome {
        Ok(value) => Ok(value),
        Err(source) => Err(Error { kind, source }),
    }
}

/// Converts the failure of a layer, if `outcome` is one, into the unified
/// error of the given kind.
pub fn tagged<T, E>(kind: ErrorKind, outcome: Result<T, E>) -> (unified: Result<T, Error<E>>)
    ensures
        unified == tagged_spec(kind, outcome),
{
    match outcome {
        Ok(value) => Ok(value),
        Err(source) => Err(Error::new(kind, source)),
    }
}

} // verus!
