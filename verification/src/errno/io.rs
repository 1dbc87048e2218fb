//! Errors of the operating system as the standard library carries them.
use super::Errno;
use vstd::prelude::*;

verus! {

#[verifier::external_type_specification]
#[verifier::external_body]
pub struct ExIoError(std::io::Error);

/// The error that `std::io::Error::from_raw_os_error` makes of a code of the
/// operating system.
pub uninterp spec fn os_error(code: i32) -> std::io::Error;

/// The code of the operating system that `std::io::Error::raw_os_error`
/// finds in an error, if the error holds one.
pub uninterp spec fn os_code(err: std::io::Error) -> Option<i32>;

/// Calls `std::io::Error::raw_os_error`, which gives the code of the
/// operating system that the error holds, if it holds one.
#[verifier::external_body]
fn raw_os_error(err: &std::io::Error) -> (r: Option<i32>)
    ensures
        r == os_code(*err),
{
    err.raw_os_error()
}

/// Calls `std::io::Error::from_raw_os_error`, which makes the error of a code
/// of the operating system. An error that was made so gives its code back.
#[verifier::external_body]
fn io_error_of(code: i32) -> (r: std::io::Error)
    ensures
        r == os_error(code),
        os_code(r) == Some(code),
{
    std::io::Error::from_raw_os_error(code)
}

impl Errno {
    /// The error code that an error of the standard library holds, if it
    /// holds one.
    pub fn from_io_error(err: std::io::Error) -> (r: Option<Self>)
        ensures
            r is Some <==> os_code(err) is Some,
            r matches Some(e) ==> Some(e.code()) == os_code(err),
    {
        Errno::from_raw_os_error(raw_os_error(&err))
    }

    /// The error of the standard library for this code. It holds the code
    /// unchanged.
    pub fn into_io_error(self) -> (r: std::io::Error)
        ensures
            r == os_error(self.code()),
            os_code(r) == Some(self.code()),
    {
        io_error_of(self.into_raw())
    }
}

} // verus!
