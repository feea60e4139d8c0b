//! The cadence of the tasks.
//!
//! The two tasks that emit packets wait for a random, exponentially
//! distributed time between emissions; the poller waits for a fixed one.
//! Times are whole milliseconds.
use vstd::prelude::*;

verus! {

/// Mean time between two cover packets of the cover stream: half a second.
pub const LOOP_COVER_AVERAGE_DELAY: u64 = 500;

/// Mean time between two packets of the out queue: half a second.
pub const MESSAGE_SENDING_AVERAGE_DELAY: u64 = 500;

/// Time between two polls of the provider: one second.
pub const FETCH_MESSAGES_DELAY: u64 = 1000;

/// How long a task has to wait before its next step.
#[derive(Clone, Copy, Debug, PartialEq, Eq, Structural)]
pub enum Delay {
    /// A time drawn afresh from the exponential distribution with this
    /// mean, in milliseconds.
    Exponential { mean: u64 },
    /// Exactly this many milliseconds.
    Fixed { millis: u64 },
}

} // verus!
