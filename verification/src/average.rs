//! The moving average itself.
//!
//! The items are of any type `T`. Two functions of the caller stand for the
//! arithmetic on them: `representable`, which tells whether a number of items
//! can be carried over into that arithmetic without loss, and `average`, which
//! reduces one window and its size to one value. Everything else is decided
//! here, and the contracts say what is handed to the two functions and what
//! becomes of their answers.

use vstd::prelude::*;

use crate::error::AverageError;
use crate::window::{clamp_window, effective_window, window_at, window_count};

verus! {

/// `value` is a result of `average` on the `window` items of `items` from
/// index `start` on, called with `window` as the size.
pub open spec fn averages_window<T, A: Fn(&[T], usize) -> T>(
    average: A,
    items: Seq<T>,
    window: usize,
    start: int,
    value: T,
) -> bool {
    exists|slice: &[T]|
        slice@ == window_at(items, window as nat, start) && #[trigger] average.ensures(
            (slice, window),
            value,
        )
}

/// `out` holds one value for each window of `items`, in the order of the
/// windows' first items, and each value is a result of `average` on its
/// window.
pub open spec fn is_moving_average<T, A: Fn(&[T], usize) -> T>(
    average: A,
    items: Seq<T>,
    window: usize,
    out: Seq<T>,
) -> bool {
    &&& out.len() == window_count(items.len(), window as nat)
    &&& forall|i: int|
        0 <= i < out.len() ==> averages_window(average, items, window, i, #[trigger] out[i])
}

/// `average` may be called on every window of `items`, with `window` as the
/// size.
pub open spec fn accepts_windows<T, A: Fn(&[T], usize) -> T>(
    average: A,
    items: Seq<T>,
    window: usize,
) -> bool {
    forall|slice: &[T], start: int|
        #![trigger average.requires((slice, window)), window_at(items, window as nat, start)]
        0 <= start < window_count(items.len(), window as nat) && slice@ == window_at(
            items,
            window as nat,
            start,
        ) ==> average.requires((slice, window))
}

/// What `moving_average` may return on `items` and a requested window size.
///
/// An empty input is an error whatever the request; on any other input a
/// request for a window of size zero is. Otherwise `representable` is asked
/// about the effective window size and nothing else: where it answers no, the
/// size is invalid; where it answers yes, the result is the moving average
/// over windows of that size.
pub open spec fn may_return<T, P: Fn(usize) -> bool, A: Fn(&[T], usize) -> T>(
    representable: P,
    average: A,
    items: Seq<T>,
    requested: usize,
    r: Result<Vec<T>, AverageError>,
) -> bool {
    let window = effective_window(items.len(), requested as nat) as usize;
    if items.len() == 0 {
        r == Err::<Vec<T>, AverageError>(AverageError::EmptyInput)
    } else if requested == 0 {
        r == Err::<Vec<T>, AverageError>(AverageError::InvalidWindowSize)
    } else {
        match r {
            Ok(out) => {
                &&& representable.ensures((window,), true)
                &&& is_moving_average(average, items, window, out@)
            },
            Err(e) => {
                &&& e == AverageError::InvalidWindowSize
                &&& representable.ensures((window,), false)
            },
        }
    }
}

/// Averages every window of `window` consecutive items of `array`, from the
/// one that starts at the first item to the one that ends at the last.
pub fn average_windows<T, A: Fn(&[T], usize) -> T>(
    array: &[T],
    window: usize,
    average: A,
) -> (out: Vec<T>)
    requires
        1 <= window <= array@.len(),
        accepts_windows(average, array@, window),
    ensures
        out@.len() == array@.len() - window + 1,
        is_moving_average(average, array@, window, out@),
{
    let len: usize = array.len();
    let count: usize = len - window + 1;
    let mut out: Vec<T> = Vec::with_capacity(count);
    let mut start: usize = 0;
    while start < count
        invariant
            len == array@.len(),
            1 <= window <= len,
            count == len - window + 1,
            accepts_windows(average, array@, window),
            start <= count,
            out@.len() == start,
            forall|i: int|
                0 <= i < start ==> averages_window(average, array@, window, i, #[trigger] out@[i]),
        decreases count - start,
    {
        let slice = &array[start..start + window];
        assert(slice@ == window_at(array@, window as nat, start as int));
        out.push(average(slice, window));
        start += 1;
    }
    out
}

/// The moving average of `array` over windows of `n` items.
///
/// A window larger than the input is cut down to the input's length, so that
/// the result is then the one average of the whole input. `representable` is
/// called at most once, before any window is averaged, and `average` only
/// where `representable` has accepted the window size.
pub fn moving_average<T, P: Fn(usize) -> bool, A: Fn(&[T], usize) -> T>(
    array: &[T],
    n: usize,
    representable: P,
    average: A,
) -> (r: Result<Vec<T>, AverageError>)
    requires
        array@.len() > 0 && n > 0 ==> representable.requires(
            (effective_window(array@.len(), n as nat) as usize,),
        ),
        array@.len() > 0 && n > 0 && representable.ensures(
            (effective_window(array@.len(), n as nat) as usize,),
            true,
        ) ==> accepts_windows(
            average,
            array@,
            effective_window(array@.len(), n as nat) as usize,
        ),
    ensures
        may_return(representable, average, array@, n, r),
        array@.len() == 0 ==> r == Err::<Vec<T>, AverageError>(AverageError::EmptyInput),
        r matches Ok(out) ==> out@.len() == array@.len() - effective_window(
            array@.len(),
            n as nat,
        ) + 1,
{
    match clamp_window(array.len(), n) {
        Err(e) => Err(e),
        Ok(window) => {
            if representable(window) {
                Ok(average_windows(array, window, average))
            } else {
                Err(AverageError::InvalidWindowSize)
            }
        },
    }
}

} // verus!
