//! The errors that the library hands back to its callers, and access to the
//! operating system's error indicator.

use vstd::prelude::*;

verus! {

/// Every recoverable failure of the library.
#[derive(Debug, Clone, Copy, PartialEq, Eq, Structural)]
pub enum Error {
    /// The native library or a reactor could not be brought up.
    InitError,
    /// An agent could not be created: an argument was null or the engine
    /// refused, for instance because the address is already bound.
    CreateNuaError,
    /// A dialog handle could not be created.
    CreateNuaHandleError,
    /// A string holds an embedded terminator byte.
    ConvertToCStringError,
    /// A URL parameter is malformed.
    UrlError,
    /// A parameter has no native representation.
    MissingTagConversion,
}

/// The value of the error indicator that means "no error".
pub const ERROR_NONE: i32 = 0;

/// Reads the calling thread's error indicator through `errno::errno`.
///
/// The value is whatever the last system call on this thread left behind, so
/// nothing is claimed about it.
#[verifier::external_body]
fn read_errno() -> (code: i32) {
    errno::errno().0
}

/// Overwrites the calling thread's error indicator through
/// `errno::set_errno`.
#[verifier::external_body]
fn write_errno(code: i32) {
    errno::set_errno(errno::Errno(code))
}

/// Returns the thread's error indicator and resets it to [`ERROR_NONE`].
pub fn errno() -> (code: i32) {
    let mut indicator = read_errno();
    let code = get_and_reset(&mut indicator);
    write_errno(indicator);
    code
}

/// Takes the value out of an error indicator and leaves "no error" in it.
///
/// This is what [`errno`] returns for each value that the operating system
/// has left in the thread's indicator, and what it writes back.
pub fn get_and_reset(indicator: &mut i32) -> (code: i32)
    ensures
        code == *old(indicator),
        *final(indicator) == ERROR_NONE,
{
    let code = *indicator;
    *indicator = ERROR_NONE;
    code
}

} // verus!
