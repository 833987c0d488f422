use vstd::prelude::*;

verus! {

/// A failed native call, carrying the result code that the native API returned.
#[derive(PartialEq, Eq, Structural, Clone, Copy, Debug)]
pub struct HResultError {
    pub code: i32,
}

impl HResultError {
    pub fn from_code(code: i32) -> (r: HResultError)
        ensures
            r.code == code,
    {
        HResultError { code }
    }

    /// The native result code carried by this error.
    pub fn code(&self) -> (r: i32)
        ensures
            r == self.code,
    {
        self.code
    }
}

} // verus!
