//! The single error taxonomy: a kernel error code, carried verbatim.

use vstd::prelude::*;

verus! {

/// An operating-system error: the kernel's reported error code, unchanged
/// from the point of failure.
#[derive(Clone, Copy, Debug, PartialEq, Eq, Structural)]
pub struct OSError {
    pub code: i32,
}

impl OSError {
    /// Wrap a kernel error code.
    pub fn from_code(code: i32) -> (e: OSError)
        ensures
            e.code == code,
    {
        OSError { code }
    }

    /// The kernel error code this error carries.
    pub fn code(&self) -> (c: i32)
        ensures
            c == self.code,
    {
        self.code
    }
}

} // verus!
