//! The error type shared by every service of the library, and how each
//! failure is classified for the caller.
use vstd::prelude::*;
use vstd::string::*;

verus! {

/// A failure reported by one of the services.
///
/// `ServiceError` is a client-class failure (bad input, unauthorized,
/// not found, duplicate); every other variant is an internal failure.
#[derive(Debug)]
pub enum SBError {
    DBConnectionError(),
    ServiceError { message: String, service: String },
    InternalServiceError { message: String, service: String },
    EnvConfigError { key: String },
}

/// What a storage round trip can report instead of a result.
#[derive(Clone, Copy, Debug, PartialEq, Eq, Structural)]
pub enum StoreFault {
    /// The storage layer could not be reached or refused the operation.
    Unavailable,
    /// The storage layer refused a write that would break a uniqueness constraint.
    DuplicateKey,
}

/// `e` is a client-class failure of `service` with text `message`.
pub open spec fn client_failure(e: SBError, service: Seq<char>, message: Seq<char>) -> bool {
    match e {
        SBError::ServiceError { message: m, service: s } => m@ == message && s@ == service,
        _ => false,
    }
}

/// `e` is an internal failure of `service` with text `message`.
pub open spec fn internal_failure(e: SBError, service: Seq<char>, message: Seq<char>) -> bool {
    match e {
        SBError::InternalServiceError { message: m, service: s } => m@ == message && s@ == service,
        _ => false,
    }
}

/// `e` is a failure of `service` with text `message`, client-class when
/// `client` holds and internal otherwise.
pub open spec fn failure_is(e: SBError, service: Seq<char>, client: bool, message: Seq<char>) -> bool {
    if client {
        client_failure(e, service, message)
    } else {
        internal_failure(e, service, message)
    }
}

/// Builds a client-class failure.
pub fn client_error(service: &str, message: &str) -> (e: SBError)
    ensures
        client_failure(e, service@, message@),
{
    SBError::ServiceError { message: String::from_str(message), service: String::from_str(service) }
}

/// Builds an internal failure.
pub fn internal_error(service: &str, message: &str) -> (e: SBError)
    ensures
        internal_failure(e, service@, message@),
{
    SBError::InternalServiceError {
        message: String::from_str(message),
        service: String::from_str(service),
    }
}

/// Maps the outcome of a storage round trip: a value passes through, a
/// fault becomes an internal failure of `service` with text `message`.
pub fn map_store<T>(outcome: Result<T, StoreFault>, service: &str, message: &str) -> (r: Result<
    T,
    SBError,
>)
    ensures
        outcome matches Ok(v) ==> (r matches Ok(w) && w == v),
        outcome is Err ==> (r matches Err(e) && internal_failure(e, service@, message@)),
{
    match outcome {
        Ok(v) => Ok(v),
        Err(_) => Err(internal_error(service, message)),
    }
}

impl SBError {
    /// Client-class failures are reported to the caller; all others are opaque.
    pub fn is_client_error(&self) -> (r: bool)
        ensures
            r == (*self is ServiceError),
    {
        match self {
            SBError::ServiceError { .. } => true,
            _ => false,
        }
    }

    /// The HTTP status that stands for this failure: 400 for a client-class
    /// failure, 500 for any other.
    pub fn status_code(&self) -> (r: u16)
        ensures
            r == (if *self is ServiceError { 400u16 } else { 500u16 }),
    {
        if self.is_client_error() {
            400
        } else {
            500
        }
    }

    /// The text shown to the caller: the message of a client-class failure,
    /// nothing for any other, so that no internal detail leaks.
    pub fn public_message(&self) -> (r: String)
        ensures
            *self matches SBError::ServiceError { message, .. } ==> r@ == message@,
            !(*self is ServiceError) ==> r@ == Seq::<char>::empty(),
    {
        match self {
            SBError::ServiceError { message, .. } => message.clone(),
            _ => String::new(),
        }
    }

    /// A one-line description for logs.
    pub fn describe(&self) -> (r: String)
        ensures
            *self matches SBError::ServiceError { message, service } ==> r@ == "Service error ["@
                + service@ + "]: "@ + message@,
            *self matches SBError::InternalServiceError { message, service } ==> r@
                == "Internal service error ["@ + service@ + "]: "@ + message@,
            *self is DBConnectionError ==> r@ == "Database connection error"@,
            *self matches SBError::EnvConfigError { key } ==> r@ == "ENV Key Missing: "@ + key@,
    {
        match self {
            SBError::DBConnectionError() => String::from_str("Database connection error"),
            SBError::ServiceError { message, service } => {
                let mut r = String::from_str("Service error [");
                r.append(service.as_str());
                r.append("]: ");
                r.append(message.as_str());
                r
            },
            SBError::InternalServiceError { message, service } => {
                let mut r = String::from_str("Internal service error [");
                r.append(service.as_str());
                r.append("]: ");
                r.append(message.as_str());
                r
            },
            SBError::EnvConfigError { key } => {
                let mut r = String::from_str("ENV Key Missing: ");
                r.append(key.as_str());
                r
            },
        }
    }
}

} // verus!
