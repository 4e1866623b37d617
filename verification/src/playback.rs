//! Playback time model.
//!
//! The current time lives in [0, 1] and is carried as an integer number of
//! `1 / TIME_SCALE` units.  While the animation is advancing, a quarter of
//! each frame's elapsed wall-clock time is added, and the result wraps back
//! into the unit interval as a sawtooth: whenever it exceeds 1.0, one whole
//! unit is subtracted.

use vstd::prelude::*;

verus! {

/// Number of integer units that make up one unit of time.
pub const TIME_SCALE: u64 = 1_000_000;

/// The sawtooth wrap: subtract whole units until the value is back in
/// [0, TIME_SCALE].  A value of exactly TIME_SCALE (time 1.0) is left alone;
/// only values strictly beyond it wrap.
pub open spec fn wrap_time(t: int) -> int
    decreases t,
{
    if t <= TIME_SCALE {
        t
    } else {
        wrap_time(t - TIME_SCALE)
    }
}

/// Advance the current time by a quarter of the elapsed frame time, wrapping
/// back into the unit interval.
pub fn advanced_time(time: u64, elapsed: u64) -> (r: u64)
    requires
        time <= TIME_SCALE,
    ensures
        r == wrap_time(time + elapsed / 4),
        r <= TIME_SCALE,
{
    let increment: u64 = elapsed / 4;
    let mut t: u64 = time + increment;
    while t > TIME_SCALE
        invariant
            wrap_time(t as int) == wrap_time(time + increment),
        decreases t,
    {
        t = t - TIME_SCALE;
    }
    t
}

/// Clamp a slider-supplied time into [0, TIME_SCALE].
pub fn clamp_time(t: u64) -> (r: u64)
    ensures
        r == if t > TIME_SCALE { TIME_SCALE as int } else { t as int },
        r <= TIME_SCALE,
{
    if t > TIME_SCALE {
        TIME_SCALE
    } else {
        t
    }
}

} // verus!
