use crate::error::code::Code;
use vstd::prelude::*;
use vstd::std_specs::convert::FromSpecImpl;

verus! {

/// An error that has a place in the catalog. Whatever the error is, it stands
/// for exactly one code, and what a client is told follows from that code
/// alone.
pub trait ErrorCode {
    /// The code that stands for this error. An error that says nothing else
    /// of itself is internal.
    open spec fn code(&self) -> Code {
        Code::Internal
    }

    fn error_code(&self) -> (code: Code)
        ensures
            code == self.code(),
    ;

    /// The HTTP status to answer this error with.
    fn http_status(&self) -> (status: u16)
        ensures
            status == self.code().status(),
            100 <= status <= 599,
    {
        self.error_code().http()
    }

    /// Where the error is documented.
    fn error_url(&self) -> (link: String)
        ensures
            link@ == self.code().doc_link(),
    {
        self.error_code().url()
    }

    /// The name of the error's code.
    fn error_name(&self) -> (name: String)
        ensures
            name@ == self.code().stable_name(),
    {
        self.error_code().name()
    }

    /// The class of the error.
    fn error_type(&self) -> (name: String)
        ensures
            name@ == self.code().category().wire_name(),
    {
        self.error_code().type_()
    }
}

/// An error of some other part of the system, kept whole as the cause of an
/// internal failure. The cause is carried, never looked at: whatever it is,
/// the failure is [`Code::Internal`].
pub struct InternalCause<E> {
    pub cause: E,
}

impl<E> From<E> for InternalCause<E> {
    fn from(cause: E) -> (wrapped: Self) {
        InternalCause { cause }
    }
}

impl<E> FromSpecImpl<E> for InternalCause<E> {
    open spec fn obeys_from_spec() -> bool {
        true
    }

    open spec fn from_spec(cause: E) -> Self {
        InternalCause { cause }
    }
}

impl<E> ErrorCode for InternalCause<E> {
    open spec fn code(&self) -> Code {
        Code::Internal
    }

    fn error_code(&self) -> (code: Code) {
        Code::Internal
    }
}

} // verus!
