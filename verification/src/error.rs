//! The closed error taxonomy of the library.

use vstd::prelude::*;

verus! {

/// Why an argument was rejected.
#[derive(Clone, Copy, Debug, PartialEq, Eq)]
pub enum ArgumentFault {
    /// A fixed-length attribute array did not have its required length.
    Length { expected: usize, actual: usize },
    /// A geometric dimension was negative.
    NegativeDimension,
}

/// Every error a library operation can return.
#[derive(Clone, Copy, Debug, PartialEq, Eq)]
pub enum GraphError {
    /// An argument to a constructor or setter was rejected; the receiver is
    /// left unchanged.
    InvalidArgument(ArgumentFault),
    /// An element's state was found invalid while rendering.  Unreachable
    /// for canvases built through the constructors and setters, which
    /// enforce the invariants eagerly.
    RenderError,
}

} // verus!
