//! A stopwatch that accumulates elapsed time over start/stop cycles, generic
//! over the monotonic clock that backs it.
mod duration;
mod instant;
pub mod laws;
mod stopwatch;

pub use duration::{capped_sum, nanos_of, MAX_NANOS};
pub use instant::{quanta_ticks, span, Instant};
pub use stopwatch::{start, Step, Sw, SwView};
