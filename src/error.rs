use vstd::prelude::*;

verus! {

/// Failure of an operating-system call, carrying the platform error code.
#[derive(Debug, Clone, Copy, PartialEq, Eq, Structural)]
pub struct IoError {
    pub code: u32,
}

impl IoError {
    pub fn from_code(code: u32) -> (r: IoError)
        ensures
            r.code == code,
    {
        IoError { code }
    }
}

} // verus!
