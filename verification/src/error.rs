//! The ways in which a request for a moving average is refused.

use vstd::prelude::*;

verus! {

/// Why no moving average was computed.
#[derive(Debug, Clone, Copy, PartialEq, Eq, Structural)]
pub enum AverageError {
    /// The input holds no item at all.
    EmptyInput,
    /// The window is of size zero, or of a size that the items' arithmetic
    /// cannot divide by.
    InvalidWindowSize,
}

} // verus!
