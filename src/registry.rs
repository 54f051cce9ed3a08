use vstd::prelude::*;
use crate::boundary::{ExceptionPtr, FfiByteSlice, FfiStr};
use crate::classify::{
    classify_execution_error, classify_new_session_error, execution_call, session_call, CallView,
    ExceptionCall,
};
use crate::constructors::{
    AlreadyExistsConstructor, FunctionFailureExceptionConstructor,
    InvalidConfigurationInQueryExceptionConstructor, InvalidQueryConstructor,
    NoHostAvailableExceptionConstructor, OperationTimedOutExceptionConstructor,
    PreparedQueryNotFoundExceptionConstructor, RequestInvalidExceptionConstructor,
    RustExceptionConstructor, SyntaxErrorExceptionConstructor, TraceRetrievalExceptionConstructor,
    TruncateExceptionConstructor, UnauthorizedExceptionConstructor,
};
use crate::driver_error::{ExecutionError, NewSessionError};

verus! {

/// The host's constructors, one per exception kind, supplied once at setup.
///
/// `M` is the type of the constructors that take a message alone, `T` of the
/// timeout one, `P` of the prepared-statement one and `A` of the one that takes
/// a keyspace and a table.
pub struct ConstructorRegistry<M, T, P, A> {
    pub rust_exception: RustExceptionConstructor<M>,
    pub function_failure: FunctionFailureExceptionConstructor<M>,
    pub invalid_configuration_in_query: InvalidConfigurationInQueryExceptionConstructor<M>,
    pub no_host_available: NoHostAvailableExceptionConstructor<M>,
    pub operation_timed_out: OperationTimedOutExceptionConstructor<T>,
    pub prepared_query_not_found: PreparedQueryNotFoundExceptionConstructor<P>,
    pub request_invalid: RequestInvalidExceptionConstructor<M>,
    pub syntax_error: SyntaxErrorExceptionConstructor<M>,
    pub trace_retrieval: TraceRetrievalExceptionConstructor<M>,
    pub truncate: TruncateExceptionConstructor<M>,
    pub unauthorized: UnauthorizedExceptionConstructor<M>,
    pub already_exists: AlreadyExistsConstructor<A>,
    pub invalid_query: InvalidQueryConstructor<M>,
}

impl<M, T, P, A> ConstructorRegistry<M, T, P, A> where
    M: Fn(FfiStr<'_>) -> ExceptionPtr,
    T: Fn(FfiStr<'_>, i32) -> ExceptionPtr,
    P: Fn(FfiStr<'_>, FfiByteSlice<'_>) -> ExceptionPtr,
    A: Fn(FfiStr<'_>, FfiStr<'_>) -> ExceptionPtr,
 {
    /// Every entry accepts every argument and always hands back an object.
    pub open spec fn wf(&self) -> bool {
        &&& self.rust_exception.wf()
        &&& self.function_failure.wf()
        &&& self.invalid_configuration_in_query.wf()
        &&& self.no_host_available.wf()
        &&& self.operation_timed_out.wf()
        &&& self.prepared_query_not_found.wf()
        &&& self.request_invalid.wf()
        &&& self.syntax_error.wf()
        &&& self.trace_retrieval.wf()
        &&& self.truncate.wf()
        &&& self.unauthorized.wf()
        &&& self.already_exists.wf()
        &&& self.invalid_query.wf()
    }

    /// `r` came from the entry that `call` names, on views of its arguments.
    pub open spec fn invoked(&self, call: CallView, r: ExceptionPtr) -> bool {
        match call {
            CallView::Generic(m) => exists|v: FfiStr<'_>|
                v@ == m && call_ensures(self.rust_exception.host_fn(), (v,), r),
            CallView::FunctionFailure(m) => exists|v: FfiStr<'_>|
                v@ == m && call_ensures(self.function_failure.host_fn(), (v,), r),
            CallView::InvalidConfigurationInQuery(m) => exists|v: FfiStr<'_>|
                v@ == m && call_ensures(self.invalid_configuration_in_query.host_fn(), (v,), r),
            CallView::NoHostAvailable(m) => exists|v: FfiStr<'_>|
                v@ == m && call_ensures(self.no_host_available.host_fn(), (v,), r),
            CallView::OperationTimedOut(a, ms) => exists|v: FfiStr<'_>|
                v@ == a && call_ensures(self.operation_timed_out.host_fn(), (v, ms), r),
            CallView::PreparedQueryNotFound(m, id) => exists|v: FfiStr<'_>, b: FfiByteSlice<'_>|
                v@ == m && b@ == id && call_ensures(
                    self.prepared_query_not_found.host_fn(),
                    (v, b),
                    r,
                ),
            CallView::RequestInvalid(m) => exists|v: FfiStr<'_>|
                v@ == m && call_ensures(self.request_invalid.host_fn(), (v,), r),
            CallView::SyntaxError(m) => exists|v: FfiStr<'_>|
                v@ == m && call_ensures(self.syntax_error.host_fn(), (v,), r),
            CallView::TraceRetrieval(m) => exists|v: FfiStr<'_>|
                v@ == m && call_ensures(self.trace_retrieval.host_fn(), (v,), r),
            CallView::Truncate(m) => exists|v: FfiStr<'_>|
                v@ == m && call_ensures(self.truncate.host_fn(), (v,), r),
            CallView::Unauthorized(m) => exists|v: FfiStr<'_>|
                v@ == m && call_ensures(self.unauthorized.host_fn(), (v,), r),
            CallView::AlreadyExists(k, t) => exists|kv: FfiStr<'_>, tv: FfiStr<'_>|
                kv@ == k && tv@ == t && call_ensures(self.already_exists.host_fn(), (kv, tv), r),
            CallView::InvalidQuery(m) => exists|v: FfiStr<'_>|
                v@ == m && call_ensures(self.invalid_query.host_fn(), (v,), r),
        }
    }

    /// Makes exactly the host call that `call` describes.
    pub fn construct(&self, call: &ExceptionCall) -> (r: ExceptionPtr)
        requires
            self.wf(),
        ensures
            !r.is_null(),
            self.invoked(call@, r),
    {
        match call {
            ExceptionCall::Generic { message } =>
                self.rust_exception.construct(FfiStr::new(message.as_str())),
            ExceptionCall::FunctionFailure { message } =>
                self.function_failure.construct(FfiStr::new(message.as_str())),
            ExceptionCall::InvalidConfigurationInQuery { message } =>
                self.invalid_configuration_in_query.construct(FfiStr::new(message.as_str())),
            ExceptionCall::NoHostAvailable { message } =>
                self.no_host_available.construct(FfiStr::new(message.as_str())),
            ExceptionCall::OperationTimedOut { address, timeout_ms } =>
                self.operation_timed_out.construct(FfiStr::new(address.as_str()), *timeout_ms),
            ExceptionCall::PreparedQueryNotFound { message, unknown_id } =>
                self.prepared_query_not_found.construct(
                    FfiStr::new(message.as_str()),
                    FfiByteSlice::new(unknown_id.as_slice()),
                ),
            ExceptionCall::RequestInvalid { message } =>
                self.request_invalid.construct(FfiStr::new(message.as_str())),
            ExceptionCall::SyntaxError { message } =>
                self.syntax_error.construct(FfiStr::new(message.as_str())),
            ExceptionCall::TraceRetrieval { message } =>
                self.trace_retrieval.construct(FfiStr::new(message.as_str())),
            ExceptionCall::Truncate { message } =>
                self.truncate.construct(FfiStr::new(message.as_str())),
            ExceptionCall::Unauthorized { message } =>
                self.unauthorized.construct(FfiStr::new(message.as_str())),
            ExceptionCall::AlreadyExists { keyspace, table } =>
                self.already_exists.construct(
                    FfiStr::new(keyspace.as_str()),
                    FfiStr::new(table.as_str()),
                ),
            ExceptionCall::InvalidQuery { message } =>
                self.invalid_query.construct(FfiStr::new(message.as_str())),
        }
    }
}

/// An error that can cross the boundary as a host exception.
pub trait ToFfiException: Sized {
    /// The host call that stands for this error.
    spec fn exception_call(&self) -> CallView;

    /// Builds the host exception for this error through `ctors`.
    fn to_exception<M, T, P, A>(&self, ctors: &ConstructorRegistry<M, T, P, A>) -> (r:
        ExceptionPtr) where
        M: Fn(FfiStr<'_>) -> ExceptionPtr,
        T: Fn(FfiStr<'_>, i32) -> ExceptionPtr,
        P: Fn(FfiStr<'_>, FfiByteSlice<'_>) -> ExceptionPtr,
        A: Fn(FfiStr<'_>, FfiStr<'_>) -> ExceptionPtr,

        requires
            ctors.wf(),
        ensures
            !r.is_null(),
            ctors.invoked(self.exception_call(), r),
    ;
}

impl ToFfiException for ExecutionError {
    open spec fn exception_call(&self) -> CallView {
        execution_call(*self)
    }

    fn to_exception<M, T, P, A>(&self, ctors: &ConstructorRegistry<M, T, P, A>) -> (r:
        ExceptionPtr) where
        M: Fn(FfiStr<'_>) -> ExceptionPtr,
        T: Fn(FfiStr<'_>, i32) -> ExceptionPtr,
        P: Fn(FfiStr<'_>, FfiByteSlice<'_>) -> ExceptionPtr,
        A: Fn(FfiStr<'_>, FfiStr<'_>) -> ExceptionPtr,
     {
        let call = classify_execution_error(self);
        ctors.construct(&call)
    }
}

impl ToFfiException for NewSessionError {
    open spec fn exception_call(&self) -> CallView {
        session_call(*self)
    }

    fn to_exception<M, T, P, A>(&self, ctors: &ConstructorRegistry<M, T, P, A>) -> (r:
        ExceptionPtr) where
        M: Fn(FfiStr<'_>) -> ExceptionPtr,
        T: Fn(FfiStr<'_>, i32) -> ExceptionPtr,
        P: Fn(FfiStr<'_>, FfiByteSlice<'_>) -> ExceptionPtr,
        A: Fn(FfiStr<'_>, FfiStr<'_>) -> ExceptionPtr,
     {
        let call = classify_new_session_error(self);
        ctors.construct(&call)
    }
}

} // verus!
