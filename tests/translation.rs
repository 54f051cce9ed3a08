use std::cell::RefCell;
use std::rc::Rc;

use csharp_bridge::boundary::{ExceptionPtr, FfiByteSlice, FfiStr};
use csharp_bridge::classify::{
    classify_db_error, classify_execution_error, classify_new_session_error,
    classify_request_error, fallback_call, timeout_ms, ExceptionCall, FALLBACK_MARKER,
};
use csharp_bridge::constructors::{
    AlreadyExistsConstructor, FunctionFailureExceptionConstructor,
    InvalidConfigurationInQueryExceptionConstructor, InvalidQueryConstructor,
    NoHostAvailableExceptionConstructor, OperationTimedOutExceptionConstructor,
    PreparedQueryNotFoundExceptionConstructor, RequestInvalidExceptionConstructor,
    RustExceptionConstructor, SyntaxErrorExceptionConstructor, TraceRetrievalExceptionConstructor,
    TruncateExceptionConstructor, UnauthorizedExceptionConstructor,
};
use csharp_bridge::driver_error::{
    ConnectionError, DbError, ExecutionError, ExecutionErrorKind, IoErrorKind, NewSessionError,
    NewSessionErrorKind, RequestAttemptError, RequestError,
};
use csharp_bridge::registry::{ConstructorRegistry, ToFfiException};

#[derive(Debug, Clone, PartialEq)]
enum Recorded {
    Message(&'static str, String),
    TimedOut(String, i32),
    NotFound(String, Vec<u8>),
    AlreadyExists(String, String),
}

type Log = Rc<RefCell<Vec<Recorded>>>;
type MessageFn = Box<dyn Fn(FfiStr<'_>) -> ExceptionPtr>;
type TimeoutFn = Box<dyn Fn(FfiStr<'_>, i32) -> ExceptionPtr>;
type PreparedFn = Box<dyn Fn(FfiStr<'_>, FfiByteSlice<'_>) -> ExceptionPtr>;
type PairFn = Box<dyn Fn(FfiStr<'_>, FfiStr<'_>) -> ExceptionPtr>;

fn message_fn(log: &Log, kind: &'static str, addr: usize) -> MessageFn {
    let log = log.clone();
    Box::new(move |m: FfiStr<'_>| {
        log.borrow_mut().push(Recorded::Message(kind, m.as_str().to_string()));
        ExceptionPtr::from_address(addr)
    })
}

fn registry(log: &Log) -> ConstructorRegistry<MessageFn, TimeoutFn, PreparedFn, PairFn> {
    let t = log.clone();
    let p = log.clone();
    let a = log.clone();
    let timeout: TimeoutFn = Box::new(move |addr: FfiStr<'_>, ms: i32| {
        t.borrow_mut().push(Recorded::TimedOut(addr.as_str().to_string(), ms));
        ExceptionPtr::from_address(5)
    });
    let prepared: PreparedFn = Box::new(move |m: FfiStr<'_>, id: FfiByteSlice<'_>| {
        p.borrow_mut().push(Recorded::NotFound(m.as_str().to_string(), id.as_slice().to_vec()));
        ExceptionPtr::from_address(6)
    });
    let pair: PairFn = Box::new(move |k: FfiStr<'_>, tb: FfiStr<'_>| {
        a.borrow_mut().push(Recorded::AlreadyExists(k.as_str().to_string(), tb.as_str().to_string()));
        ExceptionPtr::from_address(12)
    });
    ConstructorRegistry {
        rust_exception: RustExceptionConstructor::new(message_fn(log, "generic", 1)),
        function_failure: FunctionFailureExceptionConstructor::new(message_fn(log, "function_failure", 2)),
        invalid_configuration_in_query: InvalidConfigurationInQueryExceptionConstructor::new(
            message_fn(log, "invalid_configuration", 3),
        ),
        no_host_available: NoHostAvailableExceptionConstructor::new(message_fn(log, "no_host", 4)),
        operation_timed_out: OperationTimedOutExceptionConstructor::new(timeout),
        prepared_query_not_found: PreparedQueryNotFoundExceptionConstructor::new(prepared),
        request_invalid: RequestInvalidExceptionConstructor::new(message_fn(log, "request_invalid", 7)),
        syntax_error: SyntaxErrorExceptionConstructor::new(message_fn(log, "syntax_error", 8)),
        trace_retrieval: TraceRetrievalExceptionConstructor::new(message_fn(log, "trace_retrieval", 9)),
        truncate: TruncateExceptionConstructor::new(message_fn(log, "truncate", 10)),
        unauthorized: UnauthorizedExceptionConstructor::new(message_fn(log, "unauthorized", 11)),
        already_exists: AlreadyExistsConstructor::new(pair),
        invalid_query: InvalidQueryConstructor::new(message_fn(log, "invalid_query", 13)),
    }
}

fn db_execution(error: DbError, message: &str) -> ExecutionError {
    ExecutionError {
        kind: ExecutionErrorKind::Request(RequestError::LastAttemptError(
            RequestAttemptError::DbError { error, message: message.to_string() },
        )),
        rendered: format!("database error: {}", message),
    }
}

fn session_error(kind: IoErrorKind) -> NewSessionError {
    NewSessionError {
        kind: NewSessionErrorKind::PoolBroken {
            last_connection_error: ConnectionError::IoError(kind),
        },
        rendered: "pool broken: io error".to_string(),
    }
}

#[test]
fn already_exists_passes_keyspace_and_table_in_order() {
    let log: Log = Rc::new(RefCell::new(Vec::new()));
    let ctors = registry(&log);
    let error = db_execution(
        DbError::AlreadyExists { keyspace: "ks1".to_string(), table: "t1".to_string() },
        "table exists",
    );
    let r = error.to_exception(&ctors);
    assert_eq!(r.address(), 12);
    assert_eq!(*log.borrow(), vec![Recorded::AlreadyExists("ks1".to_string(), "t1".to_string())]);
}

#[test]
fn unprepared_statement_id_reaches_constructor_unchanged() {
    let log: Log = Rc::new(RefCell::new(Vec::new()));
    let ctors = registry(&log);
    let error = db_execution(DbError::Unprepared { statement_id: vec![0x01, 0x02, 0xFF] }, "unknown id");
    let r = error.to_exception(&ctors);
    assert_eq!(r.address(), 6);
    assert_eq!(
        *log.borrow(),
        vec![Recorded::NotFound("unknown id".to_string(), vec![0x01, 0x02, 0xFF])]
    );
}

#[test]
fn request_timeout_passes_milliseconds() {
    let log: Log = Rc::new(RefCell::new(Vec::new()));
    let ctors = registry(&log);
    let error = ExecutionError {
        kind: ExecutionErrorKind::Request(RequestError::RequestTimeout {
            address: "10.0.0.1:9042".to_string(),
            millis: 1500,
        }),
        rendered: "Request execution exceeded a client timeout of 1500ms".to_string(),
    };
    let r = error.to_exception(&ctors);
    assert_eq!(r.address(), 5);
    assert_eq!(*log.borrow(), vec![Recorded::TimedOut("10.0.0.1:9042".to_string(), 1500)]);
}

#[test]
fn timeout_is_capped_at_i32_max() {
    assert_eq!(timeout_ms(0), 0);
    assert_eq!(timeout_ms(1500), 1500);
    assert_eq!(timeout_ms(i32::MAX as u64), i32::MAX);
    assert_eq!(timeout_ms(i32::MAX as u64 + 1), i32::MAX);
    assert_eq!(timeout_ms(u64::MAX), i32::MAX);
}

#[test]
fn connection_refused_maps_to_no_host_available() {
    let log: Log = Rc::new(RefCell::new(Vec::new()));
    let ctors = registry(&log);
    let r = session_error(IoErrorKind::ConnectionRefused).to_exception(&ctors);
    assert_eq!(r.address(), 4);
    assert_eq!(
        *log.borrow(),
        vec![Recorded::Message("no_host", "pool broken: io error".to_string())]
    );
}

#[test]
fn unreachable_io_kinds_map_to_no_host_available() {
    for kind in [IoErrorKind::ConnectionRefused, IoErrorKind::TimedOut, IoErrorKind::NotConnected] {
        assert_eq!(
            classify_new_session_error(&session_error(kind)),
            ExceptionCall::NoHostAvailable { message: "pool broken: io error".to_string() }
        );
    }
}

#[test]
fn permission_denied_maps_to_generic_fallback() {
    let log: Log = Rc::new(RefCell::new(Vec::new()));
    let ctors = registry(&log);
    let r = session_error(IoErrorKind::PermissionDenied).to_exception(&ctors);
    assert_eq!(r.address(), 1);
    let expected = format!("{}pool broken: io error", FALLBACK_MARKER);
    assert_eq!(*log.borrow(), vec![Recorded::Message("generic", expected)]);
}

#[test]
fn other_session_failures_map_to_generic_fallback() {
    let other_io = session_error(IoErrorKind::Other);
    let not_io = NewSessionError {
        kind: NewSessionErrorKind::PoolBroken { last_connection_error: ConnectionError::Other },
        rendered: "broken".to_string(),
    };
    let other = NewSessionError { kind: NewSessionErrorKind::Other, rendered: "empty list".to_string() };
    for e in [other_io, not_io, other] {
        match classify_new_session_error(&e) {
            ExceptionCall::Generic { message } => {
                assert_eq!(message, format!("{}{}", FALLBACK_MARKER, e.rendered));
            }
            c => panic!("unexpected call {:?}", c),
        }
    }
}

#[test]
fn each_server_error_gets_its_constructor() {
    let msg = "server said no".to_string();
    let m = || msg.clone();
    assert_eq!(classify_db_error(&DbError::Invalid, &msg), Some(ExceptionCall::InvalidQuery { message: m() }));
    assert_eq!(classify_db_error(&DbError::SyntaxError, &msg), Some(ExceptionCall::SyntaxError { message: m() }));
    assert_eq!(classify_db_error(&DbError::Unauthorized, &msg), Some(ExceptionCall::Unauthorized { message: m() }));
    assert_eq!(
        classify_db_error(&DbError::FunctionFailure, &msg),
        Some(ExceptionCall::FunctionFailure { message: m() })
    );
    assert_eq!(classify_db_error(&DbError::TruncateError, &msg), Some(ExceptionCall::Truncate { message: m() }));
    assert_eq!(
        classify_db_error(&DbError::ConfigError, &msg),
        Some(ExceptionCall::InvalidConfigurationInQuery { message: m() })
    );
    assert_eq!(classify_db_error(&DbError::Other, &msg), None);
}

#[test]
fn next_page_failure_is_classified_like_a_request() {
    let error = ExecutionError {
        kind: ExecutionErrorKind::NextPage(RequestError::LastAttemptError(
            RequestAttemptError::DbError { error: DbError::SyntaxError, message: "line 1".to_string() },
        )),
        rendered: "next page failed".to_string(),
    };
    assert_eq!(
        classify_execution_error(&error),
        ExceptionCall::SyntaxError { message: "line 1".to_string() }
    );
}

#[test]
fn unmatched_execution_errors_fall_back_with_marker() {
    let shapes = vec![
        ExecutionErrorKind::Other,
        ExecutionErrorKind::Request(RequestError::Other),
        ExecutionErrorKind::Request(RequestError::LastAttemptError(RequestAttemptError::Other)),
        ExecutionErrorKind::NextPage(RequestError::LastAttemptError(RequestAttemptError::DbError {
            error: DbError::Other,
            message: "overloaded".to_string(),
        })),
    ];
    for kind in shapes {
        let log: Log = Rc::new(RefCell::new(Vec::new()));
        let ctors = registry(&log);
        let error = ExecutionError { kind, rendered: "EmptyPlan".to_string() };
        let r = error.to_exception(&ctors);
        assert!(!r.is_null());
        assert_eq!(r.address(), 1);
        let expected = format!("{}EmptyPlan", FALLBACK_MARKER);
        assert!(expected.starts_with(FALLBACK_MARKER));
        assert_eq!(*log.borrow(), vec![Recorded::Message("generic", expected)]);
    }
}

#[test]
fn specific_errors_never_use_the_fallback() {
    let errors = vec![
        db_execution(DbError::Invalid, "bad"),
        db_execution(DbError::SyntaxError, "bad"),
        db_execution(DbError::Unauthorized, "bad"),
        db_execution(DbError::FunctionFailure, "bad"),
        db_execution(DbError::TruncateError, "bad"),
        db_execution(DbError::ConfigError, "bad"),
        db_execution(DbError::Unprepared { statement_id: vec![] }, "bad"),
        db_execution(DbError::AlreadyExists { keyspace: String::new(), table: String::new() }, "bad"),
    ];
    let expected_addresses = [13, 8, 11, 2, 10, 3, 6, 12];
    for (error, addr) in errors.iter().zip(expected_addresses) {
        let log: Log = Rc::new(RefCell::new(Vec::new()));
        let ctors = registry(&log);
        let r = error.to_exception(&ctors);
        assert_eq!(r.address(), addr);
        assert_eq!(log.borrow().len(), 1);
        assert!(!matches!(log.borrow()[0], Recorded::Message("generic", _)));
    }
}

#[test]
fn request_error_without_leaf_has_no_call() {
    assert_eq!(classify_request_error(&RequestError::Other), None);
    assert_eq!(
        classify_request_error(&RequestError::LastAttemptError(RequestAttemptError::Other)),
        None
    );
}

#[test]
fn fallback_message_prepends_marker() {
    let empty = fallback_call(&String::new());
    assert_eq!(empty, ExceptionCall::Generic { message: FALLBACK_MARKER.to_string() });
    let call = fallback_call(&"BadQuery".to_string());
    assert_eq!(call, ExceptionCall::Generic { message: format!("{}BadQuery", FALLBACK_MARKER) });
    assert!(!FALLBACK_MARKER.is_empty());
}

#[test]
fn reserved_constructors_are_reachable_through_the_registry() {
    let log: Log = Rc::new(RefCell::new(Vec::new()));
    let ctors = registry(&log);
    let r = ctors.construct(&ExceptionCall::RequestInvalid { message: "r".to_string() });
    assert_eq!(r.address(), 7);
    let r = ctors.construct(&ExceptionCall::TraceRetrieval { message: "t".to_string() });
    assert_eq!(r.address(), 9);
    assert_eq!(
        *log.borrow(),
        vec![
            Recorded::Message("request_invalid", "r".to_string()),
            Recorded::Message("trace_retrieval", "t".to_string())
        ]
    );
}

#[test]
fn handle_null_only_at_address_zero() {
    assert!(ExceptionPtr::null().is_null());
    assert!(ExceptionPtr::from_address(0).is_null());
    assert!(!ExceptionPtr::from_address(8).is_null());
    assert_eq!(ExceptionPtr::from_address(8).address(), 8);
}

#[test]
fn views_show_borrowed_contents() {
    let text = String::from("keyspace");
    assert_eq!(FfiStr::new(&text).as_str(), "keyspace");
    let bytes = vec![0u8, 7, 255];
    assert_eq!(FfiByteSlice::new(&bytes).as_slice(), &[0u8, 7, 255][..]);
    assert_eq!(FfiByteSlice::new(&[]).as_slice().len(), 0);
}

#[test]
fn handle_keeps_its_address() {
    assert_eq!(ExceptionPtr::from_address(0xdead_beef).address(), 0xdead_beef);
    assert_eq!(ExceptionPtr::null().address(), 0);
}
