//! The failure taxonomy of the block processor. Short-output degradation is
//! deliberately not here: a program that returns fewer samples than requested
//! is recovered from locally and never surfaces as an error.

use vstd::prelude::*;

verus! {

/// Everything the block processor can fail with.
#[derive(Debug, Clone, PartialEq, Eq)]
pub enum Fault {
    /// The program source did not compile; no processor is built from it.
    Construction { message: String },
    /// A block of more frames than the buffers hold was requested; the block
    /// was not attempted and nothing was touched.
    Capacity { frames: usize, capacity: usize },
    /// The interpreter raised a runtime error, or a popped result was not a
    /// numeric array of rank at most one; buffers and state keep their prior
    /// contents.
    Execution { message: String },
}

impl Fault {
    /// Whether this fault rejects a request for more frames than fit.
    pub fn is_capacity(&self) -> (r: bool)
        ensures
            r == (self is Capacity),
    {
        matches!(self, Fault::Capacity { .. })
    }

    /// Whether this fault reports a failed compilation.
    pub fn is_construction(&self) -> (r: bool)
        ensures
            r == (self is Construction),
    {
        matches!(self, Fault::Construction { .. })
    }

    /// Whether this fault reports a failed execution or an ill-shaped result.
    pub fn is_execution(&self) -> (r: bool)
        ensures
            r == (self is Execution),
    {
        matches!(self, Fault::Execution { .. })
    }
}

} // verus!
