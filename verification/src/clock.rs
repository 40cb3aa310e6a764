//! Timers, counted in milliseconds. The ticking itself is the engine's.

use vstd::prelude::*;
use bevy::time::{Timer, TimerMode};
use std::time::Duration;

verus! {

/// A repeating timer after a tick: the time on it and whether it reached its
/// period in this tick. When it does, it starts over and keeps the time
/// beyond the period.
pub open spec fn repeating_tick(period: u32, elapsed: u32, delta: u32) -> (u32, bool) {
    if elapsed + delta >= period {
        (
            if period == 0 {
                0
            } else {
                ((elapsed + delta) % (period as int)) as u32
            },
            true,
        )
    } else {
        ((elapsed + delta) as u32, false)
    }
}

/// A timer that runs once, after a tick: the time on it, which stops at the
/// duration, and whether it has run out.
pub open spec fn single_tick(duration: u32, elapsed: u32, delta: u32) -> (u32, bool) {
    if elapsed + delta >= duration {
        (duration, true)
    } else {
        ((elapsed + delta) as u32, false)
    }
}

/// What `bevy::time::Timer::tick` makes of a repeating timer that is not
/// paused, has the given duration and shows `elapsed`, all in milliseconds:
/// the time it shows afterwards and what `finished` then tells. A timer that
/// reaches its duration keeps the remainder of its time by the duration, and
/// zero for a duration of zero.
#[verifier::external_body]
pub(crate) fn repeating_timer_tick(duration: u32, elapsed: u32, delta: u32) -> (after: (u32, bool))
    requires
        elapsed <= duration,
    ensures
        after == repeating_tick(duration, elapsed, delta),
{
    let mut timer = Timer::new(Duration::from_millis(duration as u64), TimerMode::Repeating);
    timer.set_elapsed(Duration::from_millis(elapsed as u64));
    timer.tick(Duration::from_millis(delta as u64));
    (timer.elapsed().as_millis() as u32, timer.finished())
}

/// What `bevy::time::Timer::tick` makes of a timer that runs once, is not
/// paused, has the given duration and shows `elapsed`, all in milliseconds:
/// the time it shows afterwards and what `finished` then tells. A timer that
/// reaches its duration stops there.
#[verifier::external_body]
pub(crate) fn single_timer_tick(duration: u32, elapsed: u32, delta: u32) -> (after: (u32, bool))
    requires
        elapsed <= duration,
    ensures
        after == single_tick(duration, elapsed, delta),
{
    let mut timer = Timer::new(Duration::from_millis(duration as u64), TimerMode::Once);
    timer.set_elapsed(Duration::from_millis(elapsed as u64));
    timer.tick(Duration::from_millis(delta as u64));
    (timer.elapsed().as_millis() as u32, timer.finished())
}

} // verus!
