//! Moving averages over a sliding window.
//!
//! Given a sequence of items and a window size, the moving average is the
//! sequence of the averages of each run of that many consecutive items, the
//! window sliding forward by one item at a time.
//!
//! The library decides everything about it that is not arithmetic on the
//! items: which requests are refused, how large the window really is, how many
//! windows there are, which items each one holds and in what order the
//! averages come out. It never adds or divides an item itself. The caller
//! supplies the arithmetic as two functions, and the contracts are stated over
//! what those functions ensure.
//!
//! The policy on requests is fixed:
//! - an empty input is refused, whatever the window size;
//! - a window of size zero is refused;
//! - a window larger than the input is cut down to the input's length;
//! - a window whose size the items' arithmetic cannot represent is refused.

pub mod average;
pub mod error;
pub mod laws;
pub mod window;

pub use average::{average_windows, moving_average};
pub use error::AverageError;
pub use window::clamp_window;
