//! The geometry of sliding windows: their size, their number and their items.

use vstd::prelude::*;

use crate::error::AverageError;

verus! {

/// The size of the window that is really used: the requested size, cut down
/// to the length of the input where the request is larger.
pub open spec fn effective_window(len: nat, requested: nat) -> nat {
    if requested <= len {
        requested
    } else {
        len
    }
}

/// The number of places at which a window of `window` items fits into an
/// input of `len` items.
pub open spec fn window_count(len: nat, window: nat) -> nat
    recommends
        1 <= window <= len,
{
    (len - window + 1) as nat
}

/// The `window` consecutive items of `items` from index `start` on.
pub open spec fn window_at<T>(items: Seq<T>, window: nat, start: int) -> Seq<T>
    recommends
        0 <= start < window_count(items.len(), window),
{
    items.subrange(start, start + window)
}

/// Decides the window size for an input of `len` items.
///
/// An empty input is refused first, whatever was requested; then a request
/// for a window of size zero. Any other request is granted, cut down to `len`
/// where it is larger.
pub fn clamp_window(len: usize, requested: usize) -> (r: Result<usize, AverageError>)
    ensures
        len == 0 ==> r == Err::<usize, AverageError>(AverageError::EmptyInput),
        len > 0 && requested == 0 ==> r == Err::<usize, AverageError>(
            AverageError::InvalidWindowSize,
        ),
        len > 0 && requested > 0 ==> r == Ok::<usize, AverageError>(
            effective_window(len as nat, requested as nat) as usize,
        ),
{
    if len == 0 {
        Err(AverageError::EmptyInput)
    } else if requested == 0 {
        Err(AverageError::InvalidWindowSize)
    } else if requested <= len {
        Ok(requested)
    } else {
        Ok(len)
    }
}

} // verus!
