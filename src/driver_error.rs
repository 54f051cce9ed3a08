use vstd::prelude::*;

verus! {

/// The kind of an I/O failure met while connecting to a node.
#[derive(Clone, Copy, Debug, PartialEq, Eq)]
pub enum IoErrorKind {
    ConnectionRefused,
    TimedOut,
    NotConnected,
    PermissionDenied,
    Other,
}

/// An error that the database server reported for a request.
#[derive(Clone, Debug)]
pub enum DbError {
    AlreadyExists { keyspace: String, table: String },
    Invalid,
    SyntaxError,
    Unauthorized,
    FunctionFailure,
    TruncateError,
    Unprepared { statement_id: Vec<u8> },
    ConfigError,
    Other,
}

/// Why the last attempt of a request failed.
#[derive(Clone, Debug)]
pub enum RequestAttemptError {
    /// The server answered with an error and a message.
    DbError { error: DbError, message: String },
    Other,
}

/// Why a request failed after all attempts.
#[derive(Clone, Debug)]
pub enum RequestError {
    LastAttemptError(RequestAttemptError),
    /// The request ran past the client-side timeout.
    RequestTimeout { address: String, millis: u64 },
    Other,
}

/// The shape of a failed statement execution.
#[derive(Clone, Debug)]
pub enum ExecutionErrorKind {
    /// A single request failed.
    Request(RequestError),
    /// Fetching the next page of a paged query failed.
    NextPage(RequestError),
    Other,
}

/// A failed statement execution, with the driver's full rendering of it.
#[derive(Clone, Debug)]
pub struct ExecutionError {
    pub kind: ExecutionErrorKind,
    pub rendered: String,
}

/// Why the connection to a node was lost or never made.
#[derive(Clone, Debug)]
pub enum ConnectionError {
    IoError(IoErrorKind),
    Other,
}

/// The shape of a failure to establish a session.
#[derive(Clone, Debug)]
pub enum NewSessionErrorKind {
    /// A connection pool broke; the last error of its connections is kept.
    PoolBroken { last_connection_error: ConnectionError },
    Other,
}

/// A failure to establish a session, with the driver's full rendering of it.
#[derive(Clone, Debug)]
pub struct NewSessionError {
    pub kind: NewSessionErrorKind,
    pub rendered: String,
}

} // verus!
