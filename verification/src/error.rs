use vstd::prelude::*;

verus! {

/// What can go wrong while a call is relayed.
///
/// `S` is the status value in which the backend reports its own errors; the
/// relay never looks inside it.
#[derive(Debug, PartialEq, Eq)]
pub enum RelayError<S> {
    /// The connection to the backend could not be established or was lost.
    BackendUnavailable,
    /// An operation assumed session state that does not exist.
    SessionNotFound,
    /// The backend stream ended abnormally, with the backend's own status
    /// where it gave one.
    StreamAborted(Option<S>),
    /// The caller went away before the call finished.
    ClientCancelled,
    /// The backend answered the call with an error status of its own.
    Backend(S),
}

/// The status under which an error reaches the client.
#[derive(Debug, PartialEq, Eq)]
pub enum ClientStatus<S> {
    /// The backend's status, handed on as it came.
    PassedThrough(S),
    /// The service is unavailable.
    Unavailable,
    /// The session is unknown.
    NotFound,
    /// A generic internal error.
    Internal,
    /// The call was cancelled.
    Cancelled,
}

/// The status that `err` is surfaced as: backend statuses pass through
/// untouched, failures of the relay itself get a status of its own.
pub open spec fn surfaced<S>(err: RelayError<S>) -> ClientStatus<S> {
    match err {
        RelayError::BackendUnavailable => ClientStatus::Unavailable,
        RelayError::SessionNotFound => ClientStatus::NotFound,
        RelayError::StreamAborted(Some(s)) => ClientStatus::PassedThrough(s),
        RelayError::StreamAborted(None) => ClientStatus::Internal,
        RelayError::ClientCancelled => ClientStatus::Cancelled,
        RelayError::Backend(s) => ClientStatus::PassedThrough(s),
    }
}

impl<S> RelayError<S> {
    /// Turns the error into the status that the client sees.
    pub fn surface(self) -> (status: ClientStatus<S>)
        ensures
            status == surfaced(self),
    {
        match self {
            RelayError::BackendUnavailable => ClientStatus::Unavailable,
            RelayError::SessionNotFound => ClientStatus::NotFound,
            RelayError::StreamAborted(Some(s)) => ClientStatus::PassedThrough(s),
            RelayError::StreamAborted(None) => ClientStatus::Internal,
            RelayError::ClientCancelled => ClientStatus::Cancelled,
            RelayError::Backend(s) => ClientStatus::PassedThrough(s),
        }
    }

    /// Whether the error is worth more than a low-severity log line. A caller
    /// that went away is expected; everything else is reported.
    pub fn is_reportable(&self) -> (loud: bool)
        ensures
            loud == !(*self is ClientCancelled),
    {
        match self {
            RelayError::ClientCancelled => false,
            _ => true,
        }
    }
}

} // verus!
