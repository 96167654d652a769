//! Laws of the moving average, proved from what `moving_average` ensures.

use vstd::prelude::*;

use crate::average::may_return;
use crate::error::AverageError;
use crate::window::window_at;

verus! {

/// With a window of one item the moving average has as many values as the
/// input has items, and the value at each index is a result of `average` on
/// the item at that index alone. So where `average` gives back the item of a
/// window of one, the moving average is the input itself.
pub proof fn law_unit_window<T, P: Fn(usize) -> bool, A: Fn(&[T], usize) -> T>(
    representable: P,
    average: A,
    items: Seq<T>,
    r: Result<Vec<T>, AverageError>,
)
    requires
        may_return(representable, average, items, 1, r),
        forall|slice: &[T], value: T|
            slice@.len() == 1 && #[trigger] average.ensures((slice, 1usize), value) ==> value
                == slice@[0],
    ensures
        r matches Ok(out) ==> out@ == items,
{
    if let Ok(out) = r {
        assert forall|i: int| 0 <= i < out@.len() implies out@[i] == items[i] by {
            let slice = choose|slice: &[T]|
                slice@ == window_at(items, 1, i) && #[trigger] average.ensures(
                    (slice, 1usize),
                    out@[i],
                );
        }
        assert(out@ =~= items);
    }
}

/// With a window as long as the input the moving average has exactly one
/// value, and it is a result of `average` on the whole input.
pub proof fn law_full_window<T, P: Fn(usize) -> bool, A: Fn(&[T], usize) -> T>(
    representable: P,
    average: A,
    items: Seq<T>,
    r: Result<Vec<T>, AverageError>,
)
    requires
        0 < items.len() <= usize::MAX,
        may_return(representable, average, items, items.len() as usize, r),
    ensures
        r matches Ok(out) ==> out@.len() == 1 && exists|slice: &[T]|
            slice@ == items && #[trigger] average.ensures(
                (slice, items.len() as usize),
                out@[0],
            ),
{
    if let Ok(out) = r {
        let window = items.len() as usize;
        let slice = choose|slice: &[T]|
            slice@ == window_at(items, window as nat, 0) && #[trigger] average.ensures(
                (slice, window),
                out@[0],
            );
        assert(slice@ =~= items);
    }
}

/// A request for a window larger than the input is a request for a window as
/// large as the input: whatever may come of the one may come of the other.
pub proof fn law_oversized_request<T, P: Fn(usize) -> bool, A: Fn(&[T], usize) -> T>(
    representable: P,
    average: A,
    items: Seq<T>,
    requested: usize,
    r: Result<Vec<T>, AverageError>,
)
    requires
        requested > items.len(),
    ensures
        may_return(representable, average, items, requested, r) == may_return(
            representable,
            average,
            items,
            items.len() as usize,
            r,
        ),
{
}

} // verus!
