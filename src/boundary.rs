use vstd::prelude::*;

verus! {

/// A handle to an exception object that lives on the host side.
///
/// The library never looks through the handle: it only carries it back to
/// the host. The address `0` stands for "no exception".
#[derive(Clone, Copy, Debug)]
pub struct ExceptionPtr {
    addr: usize,
}

impl ExceptionPtr {
    /// The address handed out by the host.
    pub closed spec fn spec_address(&self) -> usize {
        self.addr
    }

    /// Whether the handle denotes no exception.
    pub open spec fn spec_is_null(&self) -> bool {
        self.spec_address() == 0
    }

    /// Wraps an address handed out by the host.
    pub fn from_address(addr: usize) -> (r: ExceptionPtr)
        ensures
            r.spec_address() == addr,
    {
        ExceptionPtr { addr }
    }

    /// The handle that denotes the absence of an exception.
    pub fn null() -> (r: ExceptionPtr)
        ensures
            r.spec_address() == 0,
    {
        ExceptionPtr { addr: 0 }
    }

    /// Whether the handle denotes no exception.
    #[verifier::when_used_as_spec(spec_is_null)]
    pub fn is_null(&self) -> (r: bool)
        ensures
            r == self.spec_is_null(),
    {
        self.addr == 0
    }

    /// The address handed out by the host.
    pub fn address(&self) -> (r: usize)
        ensures
            r == self.spec_address(),
    {
        self.addr
    }
}

/// A borrowed view of text, valid only while the call that receives it runs.
#[derive(Clone, Copy)]
pub struct FfiStr<'a> {
    text: &'a str,
}

impl<'a> View for FfiStr<'a> {
    type V = Seq<char>;

    closed spec fn view(&self) -> Seq<char> {
        self.text@
    }
}

impl<'a> FfiStr<'a> {
    /// Borrows `text` for one boundary call.
    pub fn new(text: &'a str) -> (r: FfiStr<'a>)
        ensures
            r@ == text@,
    {
        FfiStr { text }
    }

    /// The borrowed text.
    pub fn as_str(&self) -> (r: &'a str)
        ensures
            r@ == self@,
    {
        self.text
    }
}

/// A borrowed view of bytes, valid only while the call that receives it runs.
#[derive(Clone, Copy)]
pub struct FfiByteSlice<'a> {
    bytes: &'a [u8],
}

impl<'a> View for FfiByteSlice<'a> {
    type V = Seq<u8>;

    closed spec fn view(&self) -> Seq<u8> {
        self.bytes@
    }
}

impl<'a> FfiByteSlice<'a> {
    /// Borrows `bytes` for one boundary call.
    pub fn new(bytes: &'a [u8]) -> (r: FfiByteSlice<'a>)
        ensures
            r@ == bytes@,
    {
        FfiByteSlice { bytes }
    }

    /// The borrowed bytes.
    pub fn as_slice(&self) -> (r: &'a [u8])
        ensures
            r@ == self@,
    {
        self.bytes
    }
}

} // verus!
