//! The rules of the task manager that do not depend on the worker pool:
//! how long a timer waits, and how many workers the pool may run.
use vstd::prelude::*;

verus! {

/// The longest delay that the host's timer can represent, in milliseconds.
pub const MAX_TIMER_MS: i32 = 2147483647;

/// How many workers the pool is willing to create.
pub const THREAD_PARALLELISM: usize = 8;

/// Why a task could not be handed to a worker.
#[derive(Debug, Clone, Copy, PartialEq, Eq, Structural)]
pub enum WasiThreadError {
    /// No worker could be created or scheduled for the task.
    SpawnFailed,
}

/// The delay that the host is asked for: the requested one, or the
/// host's ceiling where the request is above it.
pub open spec fn timer_delay(millis: int) -> int {
    if millis < MAX_TIMER_MS {
        millis
    } else {
        MAX_TIMER_MS as int
    }
}

/// The delay, in milliseconds, of the host timer that a sleep of `millis`
/// milliseconds waits on.
pub fn sleep_delay_ms(millis: u128) -> (r: i32)
    ensures
        r == timer_delay(millis as int),
        0 <= r <= MAX_TIMER_MS,
        r <= millis,
{
    if millis < MAX_TIMER_MS as u128 {
        millis as i32
    } else {
        MAX_TIMER_MS
    }
}

/// The number of tasks that can run at once: a fixed bound, the same
/// whatever is in flight.
pub fn thread_parallelism() -> (r: Result<usize, WasiThreadError>)
    ensures
        r == Ok::<usize, WasiThreadError>(THREAD_PARALLELISM),
        r->Ok_0 >= 1,
{
    Ok(THREAD_PARALLELISM)
}

} // verus!
