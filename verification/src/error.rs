//! What can go wrong, and how each failure reads.

use vstd::prelude::*;
use vstd::string::*;

verus! {

/// A failure of the gateway.
#[derive(Debug, Clone, PartialEq, Eq)]
pub enum GatewayError {
    /// No connection of that kind has been made.
    NotConnected,
    /// A connection to a store or through a tunnel could not be made; the
    /// message is the driver's.
    Connect(String),
    /// A connection was not made within the time allowed.
    Timeout,
    /// The tunnel's credentials are of a shape other than a password.
    AuthUnsupported,
    /// A statement or command failed; the message is the driver's.
    Query(String),
    /// A raw command line holds no word.
    EmptyCommand,
    /// The backend has no such operation.
    Unsupported,
}

/// The mathematical model of a [`GatewayError`].
pub enum ErrorModel {
    NotConnected,
    Connect(Seq<char>),
    Timeout,
    AuthUnsupported,
    Query(Seq<char>),
    EmptyCommand,
    Unsupported,
}

impl View for GatewayError {
    type V = ErrorModel;

    open spec fn view(&self) -> ErrorModel {
        match self {
            GatewayError::NotConnected => ErrorModel::NotConnected,
            GatewayError::Connect(m) => ErrorModel::Connect(m@),
            GatewayError::Timeout => ErrorModel::Timeout,
            GatewayError::AuthUnsupported => ErrorModel::AuthUnsupported,
            GatewayError::Query(m) => ErrorModel::Query(m@),
            GatewayError::EmptyCommand => ErrorModel::EmptyCommand,
            GatewayError::Unsupported => ErrorModel::Unsupported,
        }
    }
}

/// The text that a failure is reported with.
pub open spec fn error_text(e: ErrorModel) -> Seq<char> {
    match e {
        ErrorModel::NotConnected => "Not connected"@,
        ErrorModel::Connect(m) => m,
        ErrorModel::Timeout => "Connection timed out"@,
        ErrorModel::AuthUnsupported => "Only password auth supported for now"@,
        ErrorModel::Query(m) => m,
        ErrorModel::EmptyCommand => "Empty command"@,
        ErrorModel::Unsupported => "Unsupported operation"@,
    }
}

impl GatewayError {
    /// The text that the failure is reported with. A driver's message is
    /// handed on as it is.
    pub fn message(&self) -> (r: String)
        ensures
            r@ == error_text(self@),
    {
        match self {
            GatewayError::NotConnected => String::from_str("Not connected"),
            GatewayError::Connect(m) => m.clone(),
            GatewayError::Timeout => String::from_str("Connection timed out"),
            GatewayError::AuthUnsupported => String::from_str("Only password auth supported for now"),
            GatewayError::Query(m) => m.clone(),
            GatewayError::EmptyCommand => String::from_str("Empty command"),
            GatewayError::Unsupported => String::from_str("Unsupported operation"),
        }
    }
}

/// What a driver's outcome becomes: a value as it is, a failure as a query
/// error with the driver's message.
pub open spec fn surfaced<T>(outcome: Result<T, String>) -> Result<T, ErrorModel> {
    match outcome {
        Ok(v) => Ok(v),
        Err(m) => Err(ErrorModel::Query(m@)),
    }
}

/// A count of affected rows is never a failure, whatever it is: an update or
/// a delete that matched no row is handed on as the count 0.
pub proof fn affected_count_is_no_failure(affected: u64)
    ensures
        surfaced(Ok::<u64, String>(affected)) == Ok::<u64, ErrorModel>(affected),
        surfaced(Ok::<u64, String>(0)) == Ok::<u64, ErrorModel>(0),
{
}

/// The view of a result whose error is a [`GatewayError`].
pub open spec fn result_view<T>(r: Result<T, GatewayError>) -> Result<T, ErrorModel> {
    match r {
        Ok(v) => Ok(v),
        Err(e) => Err(e@),
    }
}

/// Hands a driver's outcome on. A count of affected rows is a success
/// whatever it is: a statement that matched no row yields `Ok(0)`.
pub fn surface<T>(outcome: Result<T, String>) -> (r: Result<T, GatewayError>)
    ensures
        result_view(r) == surfaced(outcome),
{
    match outcome {
        Ok(v) => Ok(v),
        Err(m) => Err(GatewayError::Query(m)),
    }
}

} // verus!
