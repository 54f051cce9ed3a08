use vstd::prelude::*;
use vstd::string::StringExecFns;
use crate::driver_error::{
    DbError, ConnectionError, ExecutionError, ExecutionErrorKind, IoErrorKind, NewSessionError,
    NewSessionErrorKind, RequestAttemptError, RequestError,
};

verus! {

/// The text that opens the message of every generic exception.
pub const FALLBACK_MARKER: &'static str = "Unmapped driver error: ";

/// One call of a host constructor: which one, and with what arguments.
#[derive(Clone, Debug, PartialEq, Eq)]
pub enum ExceptionCall {
    Generic { message: String },
    FunctionFailure { message: String },
    InvalidConfigurationInQuery { message: String },
    NoHostAvailable { message: String },
    OperationTimedOut { address: String, timeout_ms: i32 },
    PreparedQueryNotFound { message: String, unknown_id: Vec<u8> },
    RequestInvalid { message: String },
    SyntaxError { message: String },
    TraceRetrieval { message: String },
    Truncate { message: String },
    Unauthorized { message: String },
    AlreadyExists { keyspace: String, table: String },
    InvalidQuery { message: String },
}

/// The mathematical value of an `ExceptionCall`.
pub enum CallView {
    Generic(Seq<char>),
    FunctionFailure(Seq<char>),
    InvalidConfigurationInQuery(Seq<char>),
    NoHostAvailable(Seq<char>),
    OperationTimedOut(Seq<char>, i32),
    PreparedQueryNotFound(Seq<char>, Seq<u8>),
    RequestInvalid(Seq<char>),
    SyntaxError(Seq<char>),
    TraceRetrieval(Seq<char>),
    Truncate(Seq<char>),
    Unauthorized(Seq<char>),
    AlreadyExists(Seq<char>, Seq<char>),
    InvalidQuery(Seq<char>),
}

impl View for ExceptionCall {
    type V = CallView;

    open spec fn view(&self) -> CallView {
        match self {
            ExceptionCall::Generic { message } => CallView::Generic(message@),
            ExceptionCall::FunctionFailure { message } => CallView::FunctionFailure(message@),
            ExceptionCall::InvalidConfigurationInQuery { message } =>
                CallView::InvalidConfigurationInQuery(message@),
            ExceptionCall::NoHostAvailable { message } => CallView::NoHostAvailable(message@),
            ExceptionCall::OperationTimedOut { address, timeout_ms } =>
                CallView::OperationTimedOut(address@, *timeout_ms),
            ExceptionCall::PreparedQueryNotFound { message, unknown_id } =>
                CallView::PreparedQueryNotFound(message@, unknown_id@),
            ExceptionCall::RequestInvalid { message } => CallView::RequestInvalid(message@),
            ExceptionCall::SyntaxError { message } => CallView::SyntaxError(message@),
            ExceptionCall::TraceRetrieval { message } => CallView::TraceRetrieval(message@),
            ExceptionCall::Truncate { message } => CallView::Truncate(message@),
            ExceptionCall::Unauthorized { message } => CallView::Unauthorized(message@),
            ExceptionCall::AlreadyExists { keyspace, table } =>
                CallView::AlreadyExists(keyspace@, table@),
            ExceptionCall::InvalidQuery { message } => CallView::InvalidQuery(message@),
        }
    }
}

/// The message of the generic exception for an error rendered as `rendered`.
pub open spec fn fallback_message(rendered: Seq<char>) -> Seq<char> {
    FALLBACK_MARKER@ + rendered
}

/// A timeout in milliseconds as the host takes it: capped at `i32::MAX`.
pub open spec fn timeout_ms_of(millis: u64) -> i32 {
    if millis > i32::MAX as u64 {
        i32::MAX
    } else {
        millis as i32
    }
}

/// The call owed for a server error that came with `message`, if it has one.
pub open spec fn db_call(error: DbError, message: Seq<char>) -> Option<CallView> {
    match error {
        DbError::AlreadyExists { keyspace, table } =>
            Some(CallView::AlreadyExists(keyspace@, table@)),
        DbError::Invalid => Some(CallView::InvalidQuery(message)),
        DbError::SyntaxError => Some(CallView::SyntaxError(message)),
        DbError::Unauthorized => Some(CallView::Unauthorized(message)),
        DbError::FunctionFailure => Some(CallView::FunctionFailure(message)),
        DbError::TruncateError => Some(CallView::Truncate(message)),
        DbError::Unprepared { statement_id } =>
            Some(CallView::PreparedQueryNotFound(message, statement_id@)),
        DbError::ConfigError => Some(CallView::InvalidConfigurationInQuery(message)),
        DbError::Other => None,
    }
}

/// The call owed for a failed request, if it matches a known leaf.
pub open spec fn request_call(error: RequestError) -> Option<CallView> {
    match error {
        RequestError::LastAttemptError(RequestAttemptError::DbError { error, message }) =>
            db_call(error, message@),
        RequestError::RequestTimeout { address, millis } =>
            Some(CallView::OperationTimedOut(address@, timeout_ms_of(millis))),
        _ => None,
    }
}

/// The specific call owed for a failed execution, if it matches a known leaf.
pub open spec fn execution_leaf(error: ExecutionError) -> Option<CallView> {
    match error.kind {
        ExecutionErrorKind::Request(r) => request_call(r),
        ExecutionErrorKind::NextPage(r) => request_call(r),
        ExecutionErrorKind::Other => None,
    }
}

/// The call owed for a failed execution: its leaf's, else the generic one.
pub open spec fn execution_call(error: ExecutionError) -> CallView {
    match execution_leaf(error) {
        Some(c) => c,
        None => CallView::Generic(fallback_message(error.rendered@)),
    }
}

/// Whether an I/O failure means that no host could be reached.
pub open spec fn is_unreachable(kind: IoErrorKind) -> bool {
    kind == IoErrorKind::ConnectionRefused || kind == IoErrorKind::TimedOut
        || kind == IoErrorKind::NotConnected
}

/// Whether a session failure is a broken pool whose last error says no host
/// could be reached.
pub open spec fn is_no_host(error: NewSessionError) -> bool {
    match error.kind {
        NewSessionErrorKind::PoolBroken {
            last_connection_error: ConnectionError::IoError(kind),
        } => is_unreachable(kind),
        _ => false,
    }
}

/// The call owed for a failure to establish a session.
pub open spec fn session_call(error: NewSessionError) -> CallView {
    if is_no_host(error) {
        CallView::NoHostAvailable(error.rendered@)
    } else {
        CallView::Generic(fallback_message(error.rendered@))
    }
}

/// The view of an optional call.
pub open spec fn opt_view(c: Option<ExceptionCall>) -> Option<CallView> {
    match c {
        Some(c) => Some(c@),
        None => None,
    }
}

/// Converts a timeout to the host's 32-bit milliseconds, capping it.
pub fn timeout_ms(millis: u64) -> (r: i32)
    ensures
        r == timeout_ms_of(millis),
{
    if millis > i32::MAX as u64 {
        i32::MAX
    } else {
        millis as i32
    }
}

/// The call for a server error that came with `message`, if one is mapped.
pub fn classify_db_error(error: &DbError, message: &String) -> (r: Option<ExceptionCall>)
    ensures
        opt_view(r) == db_call(*error, message@),
{
    match error {
        DbError::AlreadyExists { keyspace, table } => Some(
            ExceptionCall::AlreadyExists { keyspace: keyspace.clone(), table: table.clone() },
        ),
        DbError::Invalid => Some(ExceptionCall::InvalidQuery { message: message.clone() }),
        DbError::SyntaxError => Some(ExceptionCall::SyntaxError { message: message.clone() }),
        DbError::Unauthorized => Some(ExceptionCall::Unauthorized { message: message.clone() }),
        DbError::FunctionFailure => Some(
            ExceptionCall::FunctionFailure { message: message.clone() },
        ),
        DbError::TruncateError => Some(ExceptionCall::Truncate { message: message.clone() }),
        DbError::Unprepared { statement_id } => Some(
            ExceptionCall::PreparedQueryNotFound {
                message: message.clone(),
                unknown_id: statement_id.clone(),
            },
        ),
        DbError::ConfigError => Some(
            ExceptionCall::InvalidConfigurationInQuery { message: message.clone() },
        ),
        DbError::Other => None,
    }
}

/// The call for a failed request, if it matches a known leaf.
pub fn classify_request_error(error: &RequestError) -> (r: Option<ExceptionCall>)
    ensures
        opt_view(r) == request_call(*error),
{
    match error {
        RequestError::LastAttemptError(RequestAttemptError::DbError { error, message }) =>
            classify_db_error(error, message),
        RequestError::RequestTimeout { address, millis } => Some(
            ExceptionCall::OperationTimedOut {
                address: address.clone(),
                timeout_ms: timeout_ms(*millis),
            },
        ),
        _ => None,
    }
}

/// The generic call for an error rendered as `rendered`.
pub fn fallback_call(rendered: &String) -> (r: ExceptionCall)
    ensures
        r@ == CallView::Generic(fallback_message(rendered@)),
{
    let marker = String::from_str(FALLBACK_MARKER);
    ExceptionCall::Generic { message: marker.concat(rendered.as_str()) }
}

/// The call for a failed execution: the most specific one that matches.
pub fn classify_execution_error(error: &ExecutionError) -> (r: ExceptionCall)
    ensures
        r@ == execution_call(*error),
{
    let leaf = match &error.kind {
        ExecutionErrorKind::Request(r) => classify_request_error(r),
        ExecutionErrorKind::NextPage(r) => classify_request_error(r),
        ExecutionErrorKind::Other => None,
    };
    match leaf {
        Some(c) => c,
        None => fallback_call(&error.rendered),
    }
}

/// The call for a failure to establish a session.
pub fn classify_new_session_error(error: &NewSessionError) -> (r: ExceptionCall)
    ensures
        r@ == session_call(*error),
{
    let no_host = match &error.kind {
        NewSessionErrorKind::PoolBroken {
            last_connection_error: ConnectionError::IoError(kind),
        } => match kind {
            IoErrorKind::ConnectionRefused | IoErrorKind::TimedOut | IoErrorKind::NotConnected =>
                true,
            _ => false,
        },
        _ => false,
    };
    if no_host {
        ExceptionCall::NoHostAvailable { message: error.rendered.clone() }
    } else {
        fallback_call(&error.rendered)
    }
}

/// Whether `message` opens with the fallback marker.
pub open spec fn has_marker(message: Seq<char>) -> bool {
    message.len() >= FALLBACK_MARKER@.len()
        && message.subrange(0, FALLBACK_MARKER@.len() as int) == FALLBACK_MARKER@
}

/// An execution error that matches a known leaf gets that leaf's call, which
/// is never the generic one; an error that matches none gets the generic call,
/// and its message opens with the fallback marker.
pub proof fn lemma_execution_specific_first(error: ExecutionError)
    ensures
        execution_leaf(error) is Some ==> execution_call(error) == execution_leaf(error)->0
            && !(execution_call(error) is Generic),
        execution_leaf(error) is None ==> execution_call(error) is Generic
            && has_marker(execution_call(error)->Generic_0),
{
    let fallback = fallback_message(error.rendered@);
    assert(fallback.subrange(0, FALLBACK_MARKER@.len() as int) =~= FALLBACK_MARKER@);
}

/// A session failure that is a broken pool whose last error is an I/O failure
/// maps to "no host available" exactly when the failure is a refused, timed-out
/// or not-connected one; every other failure gets the generic call, whose
/// message opens with the fallback marker.
pub proof fn lemma_session_io_boundary(error: NewSessionError)
    ensures
        session_call(error) is NoHostAvailable <==> is_no_host(error),
        !is_no_host(error) ==> session_call(error) is Generic
            && has_marker(session_call(error)->Generic_0),
        (error.kind matches NewSessionErrorKind::PoolBroken {
            last_connection_error: ConnectionError::IoError(kind),
        } ==> (is_no_host(error) <==> (kind == IoErrorKind::ConnectionRefused
            || kind == IoErrorKind::TimedOut || kind == IoErrorKind::NotConnected))),
{
    let fallback = fallback_message(error.rendered@);
    assert(fallback.subrange(0, FALLBACK_MARKER@.len() as int) =~= FALLBACK_MARKER@);
}

} // verus!
