use vstd::prelude::*;
use crate::boundary::{ExceptionPtr, FfiByteSlice, FfiStr};

verus! {

/// Builds the host's generic exception from a rendered diagnostic text.
pub struct RustExceptionConstructor<F> {
    ctor: F,
}

impl<F: Fn(FfiStr<'_>) -> ExceptionPtr> RustExceptionConstructor<F> {
    /// The host function that this entry calls.
    pub closed spec fn host_fn(&self) -> F {
        self.ctor
    }

    /// The host function accepts every argument and always hands back an object.
    pub open spec fn wf(&self) -> bool {
        &&& forall|message: FfiStr<'_>| call_requires(self.host_fn(), (message,))
        &&& forall|message: FfiStr<'_>, r: ExceptionPtr|
            call_ensures(self.host_fn(), (message,), r) ==> !r.is_null()
    }

    /// Registers a host function that accepts every argument and always
    /// hands back an object; this is trusted, not checked at each call.
    pub fn new(ctor: F) -> (r: Self)
        requires
            forall|message: FfiStr<'_>| call_requires(ctor, (message,)),
            forall|message: FfiStr<'_>, r: ExceptionPtr|
                call_ensures(ctor, (message,), r) ==> !r.is_null(),
        ensures
            r.host_fn() == ctor,
            r.wf(),
    {
        RustExceptionConstructor { ctor }
    }

    /// Calls the host function on the given views.
    pub fn construct(&self, message: FfiStr<'_>) -> (r: ExceptionPtr)
        requires
            self.wf(),
        ensures
            call_ensures(self.host_fn(), (message,), r),
            !r.is_null(),
    {
        assert(call_requires(self.host_fn(), (message,)));
        (self.ctor)(message)
    }
}

/// Builds the host's `FunctionFailureException` from a message.
pub struct FunctionFailureExceptionConstructor<F> {
    ctor: F,
}

impl<F: Fn(FfiStr<'_>) -> ExceptionPtr> FunctionFailureExceptionConstructor<F> {
    /// The host function that this entry calls.
    pub closed spec fn host_fn(&self) -> F {
        self.ctor
    }

    /// The host function accepts every argument and always hands back an object.
    pub open spec fn wf(&self) -> bool {
        &&& forall|message: FfiStr<'_>| call_requires(self.host_fn(), (message,))
        &&& forall|message: FfiStr<'_>, r: ExceptionPtr|
            call_ensures(self.host_fn(), (message,), r) ==> !r.is_null()
    }

    /// Registers a host function that accepts every argument and always
    /// hands back an object; this is trusted, not checked at each call.
    pub fn new(ctor: F) -> (r: Self)
        requires
            forall|message: FfiStr<'_>| call_requires(ctor, (message,)),
            forall|message: FfiStr<'_>, r: ExceptionPtr|
                call_ensures(ctor, (message,), r) ==> !r.is_null(),
        ensures
            r.host_fn() == ctor,
            r.wf(),
    {
        FunctionFailureExceptionConstructor { ctor }
    }

    /// Calls the host function on the given views.
    pub fn construct(&self, message: FfiStr<'_>) -> (r: ExceptionPtr)
        requires
            self.wf(),
        ensures
            call_ensures(self.host_fn(), (message,), r),
            !r.is_null(),
    {
        assert(call_requires(self.host_fn(), (message,)));
        (self.ctor)(message)
    }
}

/// Builds the host's `InvalidConfigurationInQueryException` from a message.
pub struct InvalidConfigurationInQueryExceptionConstructor<F> {
    ctor: F,
}

impl<F: Fn(FfiStr<'_>) -> ExceptionPtr> InvalidConfigurationInQueryExceptionConstructor<F> {
    /// The host function that this entry calls.
    pub closed spec fn host_fn(&self) -> F {
        self.ctor
    }

    /// The host function accepts every argument and always hands back an object.
    pub open spec fn wf(&self) -> bool {
        &&& forall|message: FfiStr<'_>| call_requires(self.host_fn(), (message,))
        &&& forall|message: FfiStr<'_>, r: ExceptionPtr|
            call_ensures(self.host_fn(), (message,), r) ==> !r.is_null()
    }

    /// Registers a host function that accepts every argument and always
    /// hands back an object; this is trusted, not checked at each call.
    pub fn new(ctor: F) -> (r: Self)
        requires
            forall|message: FfiStr<'_>| call_requires(ctor, (message,)),
            forall|message: FfiStr<'_>, r: ExceptionPtr|
                call_ensures(ctor, (message,), r) ==> !r.is_null(),
        ensures
            r.host_fn() == ctor,
            r.wf(),
    {
        InvalidConfigurationInQueryExceptionConstructor { ctor }
    }

    /// Calls the host function on the given views.
    pub fn construct(&self, message: FfiStr<'_>) -> (r: ExceptionPtr)
        requires
            self.wf(),
        ensures
            call_ensures(self.host_fn(), (message,), r),
            !r.is_null(),
    {
        assert(call_requires(self.host_fn(), (message,)));
        (self.ctor)(message)
    }
}

/// Builds the host's `NoHostAvailableException` from a message.
pub struct NoHostAvailableExceptionConstructor<F> {
    ctor: F,
}

impl<F: Fn(FfiStr<'_>) -> ExceptionPtr> NoHostAvailableExceptionConstructor<F> {
    /// The host function that this entry calls.
    pub closed spec fn host_fn(&self) -> F {
        self.ctor
    }

    /// The host function accepts every argument and always hands back an object.
    pub open spec fn wf(&self) -> bool {
        &&& forall|message: FfiStr<'_>| call_requires(self.host_fn(), (message,))
        &&& forall|message: FfiStr<'_>, r: ExceptionPtr|
            call_ensures(self.host_fn(), (message,), r) ==> !r.is_null()
    }

    /// Registers a host function that accepts every argument and always
    /// hands back an object; this is trusted, not checked at each call.
    pub fn new(ctor: F) -> (r: Self)
        requires
            forall|message: FfiStr<'_>| call_requires(ctor, (message,)),
            forall|message: FfiStr<'_>, r: ExceptionPtr|
                call_ensures(ctor, (message,), r) ==> !r.is_null(),
        ensures
            r.host_fn() == ctor,
            r.wf(),
    {
        NoHostAvailableExceptionConstructor { ctor }
    }

    /// Calls the host function on the given views.
    pub fn construct(&self, message: FfiStr<'_>) -> (r: ExceptionPtr)
        requires
            self.wf(),
        ensures
            call_ensures(self.host_fn(), (message,), r),
            !r.is_null(),
    {
        assert(call_requires(self.host_fn(), (message,)));
        (self.ctor)(message)
    }
}

/// Builds the host's `OperationTimedOutException` from a target address and a timeout in milliseconds.
pub struct OperationTimedOutExceptionConstructor<F> {
    ctor: F,
}

impl<F: Fn(FfiStr<'_>, i32) -> ExceptionPtr> OperationTimedOutExceptionConstructor<F> {
    /// The host function that this entry calls.
    pub closed spec fn host_fn(&self) -> F {
        self.ctor
    }

    /// The host function accepts every argument and always hands back an object.
    pub open spec fn wf(&self) -> bool {
        &&& forall|address: FfiStr<'_>, timeout_ms: i32| call_requires(self.host_fn(), (address, timeout_ms))
        &&& forall|address: FfiStr<'_>, timeout_ms: i32, r: ExceptionPtr|
            call_ensures(self.host_fn(), (address, timeout_ms), r) ==> !r.is_null()
    }

    /// Registers a host function that accepts every argument and always
    /// hands back an object; this is trusted, not checked at each call.
    pub fn new(ctor: F) -> (r: Self)
        requires
            forall|address: FfiStr<'_>, timeout_ms: i32| call_requires(ctor, (address, timeout_ms)),
            forall|address: FfiStr<'_>, timeout_ms: i32, r: ExceptionPtr|
                call_ensures(ctor, (address, timeout_ms), r) ==> !r.is_null(),
        ensures
            r.host_fn() == ctor,
            r.wf(),
    {
        OperationTimedOutExceptionConstructor { ctor }
    }

    /// Calls the host function on the given views.
    pub fn construct(&self, address: FfiStr<'_>, timeout_ms: i32) -> (r: ExceptionPtr)
        requires
            self.wf(),
        ensures
            call_ensures(self.host_fn(), (address, timeout_ms), r),
            !r.is_null(),
    {
        assert(call_requires(self.host_fn(), (address, timeout_ms)));
        (self.ctor)(address, timeout_ms)
    }
}

/// Builds the host's `PreparedQueryNotFoundException` from a message and the unknown statement id.
pub struct PreparedQueryNotFoundExceptionConstructor<F> {
    ctor: F,
}

impl<F: Fn(FfiStr<'_>, FfiByteSlice<'_>) -> ExceptionPtr> PreparedQueryNotFoundExceptionConstructor<F> {
    /// The host function that this entry calls.
    pub closed spec fn host_fn(&self) -> F {
        self.ctor
    }

    /// The host function accepts every argument and always hands back an object.
    pub open spec fn wf(&self) -> bool {
        &&& forall|message: FfiStr<'_>, unknown_id: FfiByteSlice<'_>| call_requires(self.host_fn(), (message, unknown_id))
        &&& forall|message: FfiStr<'_>, unknown_id: FfiByteSlice<'_>, r: ExceptionPtr|
            call_ensures(self.host_fn(), (message, unknown_id), r) ==> !r.is_null()
    }

    /// Registers a host function that accepts every argument and always
    /// hands back an object; this is trusted, not checked at each call.
    pub fn new(ctor: F) -> (r: Self)
        requires
            forall|message: FfiStr<'_>, unknown_id: FfiByteSlice<'_>| call_requires(ctor, (message, unknown_id)),
            forall|message: FfiStr<'_>, unknown_id: FfiByteSlice<'_>, r: ExceptionPtr|
                call_ensures(ctor, (message, unknown_id), r) ==> !r.is_null(),
        ensures
            r.host_fn() == ctor,
            r.wf(),
    {
        PreparedQueryNotFoundExceptionConstructor { ctor }
    }

    /// Calls the host function on the given views.
    pub fn construct(&self, message: FfiStr<'_>, unknown_id: FfiByteSlice<'_>) -> (r: ExceptionPtr)
        requires
            self.wf(),
        ensures
            call_ensures(self.host_fn(), (message, unknown_id), r),
            !r.is_null(),
    {
        assert(call_requires(self.host_fn(), (message, unknown_id)));
        (self.ctor)(message, unknown_id)
    }
}

/// Builds the host's `RequestInvalidException` from a message.
///
/// No error is mapped to this kind yet; the entry keeps the table complete.
pub struct RequestInvalidExceptionConstructor<F> {
    ctor: F,
}

impl<F: Fn(FfiStr<'_>) -> ExceptionPtr> RequestInvalidExceptionConstructor<F> {
    /// The host function that this entry calls.
    pub closed spec fn host_fn(&self) -> F {
        self.ctor
    }

    /// The host function accepts every argument and always hands back an object.
    pub open spec fn wf(&self) -> bool {
        &&& forall|message: FfiStr<'_>| call_requires(self.host_fn(), (message,))
        &&& forall|message: FfiStr<'_>, r: ExceptionPtr|
            call_ensures(self.host_fn(), (message,), r) ==> !r.is_null()
    }

    /// Registers a host function that accepts every argument and always
    /// hands back an object; this is trusted, not checked at each call.
    pub fn new(ctor: F) -> (r: Self)
        requires
            forall|message: FfiStr<'_>| call_requires(ctor, (message,)),
            forall|message: FfiStr<'_>, r: ExceptionPtr|
                call_ensures(ctor, (message,), r) ==> !r.is_null(),
        ensures
            r.host_fn() == ctor,
            r.wf(),
    {
        RequestInvalidExceptionConstructor { ctor }
    }

    /// Calls the host function on the given views.
    pub fn construct(&self, message: FfiStr<'_>) -> (r: ExceptionPtr)
        requires
            self.wf(),
        ensures
            call_ensures(self.host_fn(), (message,), r),
            !r.is_null(),
    {
        assert(call_requires(self.host_fn(), (message,)));
        (self.ctor)(message)
    }
}

/// Builds the host's `SyntaxErrorException` from a message.
pub struct SyntaxErrorExceptionConstructor<F> {
    ctor: F,
}

impl<F: Fn(FfiStr<'_>) -> ExceptionPtr> SyntaxErrorExceptionConstructor<F> {
    /// The host function that this entry calls.
    pub closed spec fn host_fn(&self) -> F {
        self.ctor
    }

    /// The host function accepts every argument and always hands back an object.
    pub open spec fn wf(&self) -> bool {
        &&& forall|message: FfiStr<'_>| call_requires(self.host_fn(), (message,))
        &&& forall|message: FfiStr<'_>, r: ExceptionPtr|
            call_ensures(self.host_fn(), (message,), r) ==> !r.is_null()
    }

    /// Registers a host function that accepts every argument and always
    /// hands back an object; this is trusted, not checked at each call.
    pub fn new(ctor: F) -> (r: Self)
        requires
            forall|message: FfiStr<'_>| call_requires(ctor, (message,)),
            forall|message: FfiStr<'_>, r: ExceptionPtr|
                call_ensures(ctor, (message,), r) ==> !r.is_null(),
        ensures
            r.host_fn() == ctor,
            r.wf(),
    {
        SyntaxErrorExceptionConstructor { ctor }
    }

    /// Calls the host function on the given views.
    pub fn construct(&self, message: FfiStr<'_>) -> (r: ExceptionPtr)
        requires
            self.wf(),
        ensures
            call_ensures(self.host_fn(), (message,), r),
            !r.is_null(),
    {
        assert(call_requires(self.host_fn(), (message,)));
        (self.ctor)(message)
    }
}

/// Builds the host's `TraceRetrievalException` from a message.
///
/// No error is mapped to this kind yet; the entry keeps the table complete.
pub struct TraceRetrievalExceptionConstructor<F> {
    ctor: F,
}

impl<F: Fn(FfiStr<'_>) -> ExceptionPtr> TraceRetrievalExceptionConstructor<F> {
    /// The host function that this entry calls.
    pub closed spec fn host_fn(&self) -> F {
        self.ctor
    }

    /// The host function accepts every argument and always hands back an object.
    pub open spec fn wf(&self) -> bool {
        &&& forall|message: FfiStr<'_>| call_requires(self.host_fn(), (message,))
        &&& forall|message: FfiStr<'_>, r: ExceptionPtr|
            call_ensures(self.host_fn(), (message,), r) ==> !r.is_null()
    }

    /// Registers a host function that accepts every argument and always
    /// hands back an object; this is trusted, not checked at each call.
    pub fn new(ctor: F) -> (r: Self)
        requires
            forall|message: FfiStr<'_>| call_requires(ctor, (message,)),
            forall|message: FfiStr<'_>, r: ExceptionPtr|
                call_ensures(ctor, (message,), r) ==> !r.is_null(),
        ensures
            r.host_fn() == ctor,
            r.wf(),
    {
        TraceRetrievalExceptionConstructor { ctor }
    }

    /// Calls the host function on the given views.
    pub fn construct(&self, message: FfiStr<'_>) -> (r: ExceptionPtr)
        requires
            self.wf(),
        ensures
            call_ensures(self.host_fn(), (message,), r),
            !r.is_null(),
    {
        assert(call_requires(self.host_fn(), (message,)));
        (self.ctor)(message)
    }
}

/// Builds the host's `TruncateException` from a message.
pub struct TruncateExceptionConstructor<F> {
    ctor: F,
}

impl<F: Fn(FfiStr<'_>) -> ExceptionPtr> TruncateExceptionConstructor<F> {
    /// The host function that this entry calls.
    pub closed spec fn host_fn(&self) -> F {
        self.ctor
    }

    /// The host function accepts every argument and always hands back an object.
    pub open spec fn wf(&self) -> bool {
        &&& forall|message: FfiStr<'_>| call_requires(self.host_fn(), (message,))
        &&& forall|message: FfiStr<'_>, r: ExceptionPtr|
            call_ensures(self.host_fn(), (message,), r) ==> !r.is_null()
    }

    /// Registers a host function that accepts every argument and always
    /// hands back an object; this is trusted, not checked at each call.
    pub fn new(ctor: F) -> (r: Self)
        requires
            forall|message: FfiStr<'_>| call_requires(ctor, (message,)),
            forall|message: FfiStr<'_>, r: ExceptionPtr|
                call_ensures(ctor, (message,), r) ==> !r.is_null(),
        ensures
            r.host_fn() == ctor,
            r.wf(),
    {
        TruncateExceptionConstructor { ctor }
    }

    /// Calls the host function on the given views.
    pub fn construct(&self, message: FfiStr<'_>) -> (r: ExceptionPtr)
        requires
            self.wf(),
        ensures
            call_ensures(self.host_fn(), (message,), r),
            !r.is_null(),
    {
        assert(call_requires(self.host_fn(), (message,)));
        (self.ctor)(message)
    }
}

/// Builds the host's `UnauthorizedException` from a message.
pub struct UnauthorizedExceptionConstructor<F> {
    ctor: F,
}

impl<F: Fn(FfiStr<'_>) -> ExceptionPtr> UnauthorizedExceptionConstructor<F> {
    /// The host function that this entry calls.
    pub closed spec fn host_fn(&self) -> F {
        self.ctor
    }

    /// The host function accepts every argument and always hands back an object.
    pub open spec fn wf(&self) -> bool {
        &&& forall|message: FfiStr<'_>| call_requires(self.host_fn(), (message,))
        &&& forall|message: FfiStr<'_>, r: ExceptionPtr|
            call_ensures(self.host_fn(), (message,), r) ==> !r.is_null()
    }

    /// Registers a host function that accepts every argument and always
    /// hands back an object; this is trusted, not checked at each call.
    pub fn new(ctor: F) -> (r: Self)
        requires
            forall|message: FfiStr<'_>| call_requires(ctor, (message,)),
            forall|message: FfiStr<'_>, r: ExceptionPtr|
                call_ensures(ctor, (message,), r) ==> !r.is_null(),
        ensures
            r.host_fn() == ctor,
            r.wf(),
    {
        UnauthorizedExceptionConstructor { ctor }
    }

    /// Calls the host function on the given views.
    pub fn construct(&self, message: FfiStr<'_>) -> (r: ExceptionPtr)
        requires
            self.wf(),
        ensures
            call_ensures(self.host_fn(), (message,), r),
            !r.is_null(),
    {
        assert(call_requires(self.host_fn(), (message,)));
        (self.ctor)(message)
    }
}

/// Builds the host's `AlreadyExistsException` from a keyspace and a table name.
pub struct AlreadyExistsConstructor<F> {
    ctor: F,
}

impl<F: Fn(FfiStr<'_>, FfiStr<'_>) -> ExceptionPtr> AlreadyExistsConstructor<F> {
    /// The host function that this entry calls.
    pub closed spec fn host_fn(&self) -> F {
        self.ctor
    }

    /// The host function accepts every argument and always hands back an object.
    pub open spec fn wf(&self) -> bool {
        &&& forall|keyspace: FfiStr<'_>, table: FfiStr<'_>| call_requires(self.host_fn(), (keyspace, table))
        &&& forall|keyspace: FfiStr<'_>, table: FfiStr<'_>, r: ExceptionPtr|
            call_ensures(self.host_fn(), (keyspace, table), r) ==> !r.is_null()
    }

    /// Registers a host function that accepts every argument and always
    /// hands back an object; this is trusted, not checked at each call.
    pub fn new(ctor: F) -> (r: Self)
        requires
            forall|keyspace: FfiStr<'_>, table: FfiStr<'_>| call_requires(ctor, (keyspace, table)),
            forall|keyspace: FfiStr<'_>, table: FfiStr<'_>, r: ExceptionPtr|
                call_ensures(ctor, (keyspace, table), r) ==> !r.is_null(),
        ensures
            r.host_fn() == ctor,
            r.wf(),
    {
        AlreadyExistsConstructor { ctor }
    }

    /// Calls the host function on the given views.
    pub fn construct(&self, keyspace: FfiStr<'_>, table: FfiStr<'_>) -> (r: ExceptionPtr)
        requires
            self.wf(),
        ensures
            call_ensures(self.host_fn(), (keyspace, table), r),
            !r.is_null(),
    {
        assert(call_requires(self.host_fn(), (keyspace, table)));
        (self.ctor)(keyspace, table)
    }
}

/// Builds the host's `InvalidQueryException` from a message.
pub struct InvalidQueryConstructor<F> {
    ctor: F,
}

impl<F: Fn(FfiStr<'_>) -> ExceptionPtr> InvalidQueryConstructor<F> {
    /// The host function that this entry calls.
    pub closed spec fn host_fn(&self) -> F {
        self.ctor
    }

    /// The host function accepts every argument and always hands back an object.
    pub open spec fn wf(&self) -> bool {
        &&& forall|message: FfiStr<'_>| call_requires(self.host_fn(), (message,))
        &&& forall|message: FfiStr<'_>, r: ExceptionPtr|
            call_ensures(self.host_fn(), (message,), r) ==> !r.is_null()
    }

    /// Registers a host function that accepts every argument and always
    /// hands back an object; this is trusted, not checked at each call.
    pub fn new(ctor: F) -> (r: Self)
        requires
            forall|message: FfiStr<'_>| call_requires(ctor, (message,)),
            forall|message: FfiStr<'_>, r: ExceptionPtr|
                call_ensures(ctor, (message,), r) ==> !r.is_null(),
        ensures
            r.host_fn() == ctor,
            r.wf(),
    {
        InvalidQueryConstructor { ctor }
    }

    /// Calls the host function on the given views.
    pub fn construct(&self, message: FfiStr<'_>) -> (r: ExceptionPtr)
        requires
            self.wf(),
        ensures
            call_ensures(self.host_fn(), (message,), r),
            !r.is_null(),
    {
        assert(call_requires(self.host_fn(), (message,)));
        (self.ctor)(message)
    }
}

} // verus!
