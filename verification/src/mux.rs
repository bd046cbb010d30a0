//! Decisions of the event multiplexer: how long the input watcher may wait
//! for a key press, and when the periodic tick is due. The watcher itself —
//! polling the terminal, the channel, the clock — lives outside the core and
//! feeds these functions plain elapsed times.

use vstd::prelude::*;

verus! {

/// The fixed tick interval, in milliseconds.
pub const TICK_MS: u64 = 200;

/// How long the input watcher waits for a key press: the time remaining
/// until the next tick deadline, floored at zero.
pub fn poll_timeout_ms(elapsed_ms: u64, tick_ms: u64) -> (r: u64)
    ensures
        elapsed_ms >= tick_ms ==> r == 0,
        elapsed_ms < tick_ms ==> r as int == tick_ms - elapsed_ms,
{
    if elapsed_ms >= tick_ms {
        0
    } else {
        tick_ms - elapsed_ms
    }
}

/// Is a tick due? Exactly when at least the tick interval has elapsed since
/// the last tick was emitted.
pub fn tick_due(elapsed_ms: u64, tick_ms: u64) -> (r: bool)
    ensures
        r <==> elapsed_ms >= tick_ms,
{
    elapsed_ms >= tick_ms
}

} // verus!
