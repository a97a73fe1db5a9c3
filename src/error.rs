use vstd::prelude::*;

verus! {

/// Represents a backend error.
#[derive(Debug, Clone, PartialEq, Eq)]
pub enum Error {
    /// Drawing to the display failed.
    DrawError,
    /// The requested kind of partial clear is not supported; holds its name.
    ClearTypeUnsupported(String),
    /// The color cannot be mapped onto a display color (indexed palette colors).
    UnsupportedColor,
}

/// Writing to the display failed.
#[derive(Debug, Clone, Copy, PartialEq, Eq, Structural)]
pub struct DrawError;

impl DrawError {
    /// The human-readable description of this error.
    pub fn message(&self) -> (s: String)
        ensures
            s@ == "writing to display failed"@,
    {
        let s = "writing to display failed".to_owned();
        proof {
            reveal_strlit("writing to display failed");
        }
        s
    }
}

} // verus!
