//! Translation of curses status codes into `Result`s.
use vstd::prelude::*;
use libc::c_int;

verus! {

/// The status code curses returns on failure.
pub const ERR: c_int = -1;

/// Turns a curses status code into a `Result`: a negative code is an error,
/// any other code is the value of a successful call.
pub fn handle_err(result: c_int) -> (r: Result<c_int, c_int>)
    ensures
        result < 0 ==> r == Err::<c_int, c_int>(result),
        result >= 0 ==> r == Ok::<c_int, c_int>(result),
{
    if result < 0 {
        Err(result)
    } else {
        Ok(result)
    }
}

/// Reads the status code of a screen teardown: a negative code is returned as
/// the error, any other code is success.
pub fn teardown_result(code: c_int) -> (r: Result<(), c_int>)
    ensures
        code >= 0 ==> r is Ok,
        code < 0 ==> r == Err::<(), c_int>(code),
    opens_invariants none
    no_unwind
{
    if code < 0 {
        Err(code)
    } else {
        Ok(())
    }
}

} // verus!
