use crate::error::classify::ErrorCode;
use crate::error::code::{Code, ErrorType};
use vstd::prelude::*;

verus! {

/// `std::io::Error`, which is carried and never looked into.
#[verifier::external_type_specification]
#[verifier::external_body]
pub struct ExIoError(std::io::Error);

/// The error number that the operating system gave for `error`, if the error
/// came from it.
pub uninterp spec fn os_number(error: std::io::Error) -> Option<i32>;

/// `std::io::Error::raw_os_error`. Believed, not proved: what it returns
/// depends on the error alone, which is what gives [`os_number`] its meaning.
/// Nothing is claimed of the number itself.
#[verifier::external_body]
fn raw_os_error(error: &std::io::Error) -> (number: Option<i32>)
    ensures
        number == os_number(*error),
{
    error.raw_os_error()
}

/// A failure of input or output, known by the error number that the operating
/// system gave for it, if it gave one.
#[derive(Debug, Clone, Copy, PartialEq, Eq, Structural)]
pub struct IoFailure {
    pub raw_os_error: Option<i32>,
}

impl IoFailure {
    /// What `error` holds of the operating system's answer.
    pub fn of(error: &std::io::Error) -> (failure: IoFailure)
        ensures
            failure.raw_os_error == os_number(*error),
    {
        IoFailure { raw_os_error: raw_os_error(error) }
    }
}

impl ErrorCode for IoFailure {
    /// Three error numbers have a code of their own: 5, an input or output
    /// error; 24, too many open files; 28, no space left on the device. Any
    /// other number, and a failure without a number, is internal.
    open spec fn code(&self) -> Code {
        match self.raw_os_error {
            Some(5) => Code::IoError,
            Some(24) => Code::TooManyOpenFiles,
            Some(28) => Code::NoSpaceLeftOnDevice,
            _ => Code::Internal,
        }
    }

    fn error_code(&self) -> (code: Code) {
        match self.raw_os_error {
            Some(5) => Code::IoError,
            Some(24) => Code::TooManyOpenFiles,
            Some(28) => Code::NoSpaceLeftOnDevice,
            _ => Code::Internal,
        }
    }
}

/// Which failures of input or output get which code: the numbers 5, 24 and
/// 28 one code each, and every other failure the internal one.
pub proof fn lemma_three_numbers_have_codes(failure: IoFailure)
    ensures
        failure.code() == Code::IoError <==> failure.raw_os_error == Some(5i32),
        failure.code() == Code::TooManyOpenFiles <==> failure.raw_os_error == Some(24i32),
        failure.code() == Code::NoSpaceLeftOnDevice <==> failure.raw_os_error == Some(28i32),
        failure.code() == Code::Internal <==> failure.raw_os_error != Some(5i32)
            && failure.raw_os_error != Some(24i32) && failure.raw_os_error != Some(28i32),
{
}

/// A failure of input or output is answered with 422 where the client can do
/// something about it, and with 500 where not.
pub proof fn lemma_io_failure_is_answered(failure: IoFailure)
    ensures
        failure.code().status() == 422 || failure.code().status() == 500,
        failure.code().status() == 500 <==> failure.code() == Code::Internal,
        failure.code().category() != ErrorType::AuthenticationError,
{
}

} // verus!
