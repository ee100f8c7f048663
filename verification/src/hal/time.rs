use vstd::prelude::*;

verus! {

/// Returns the current clock time in hardware ticks; no clock is exposed
/// to the platform, so it reads zero.
pub fn current_ticks() -> (r: u64)
    ensures
        r == 0,
{
    0
}

/// Converts hardware ticks to nanoseconds: a tick is a nanosecond.
pub fn ticks_to_nanos(ticks: u64) -> (r: u64)
    ensures
        r == ticks,
{
    ticks
}

/// Converts nanoseconds to hardware ticks: a tick is a nanosecond.
pub fn nanos_to_ticks(nanos: u64) -> (r: u64)
    ensures
        r == nanos,
{
    nanos
}

/// Sets a one-shot timer; there is no timer to program, so nothing happens.
pub fn set_oneshot_timer(deadline_ns: u64) {
}

/// Returns the epoch offset in nanoseconds: zero.
pub fn epochoffset_nanos() -> (r: u64)
    ensures
        r == 0,
{
    0
}

} // verus!
