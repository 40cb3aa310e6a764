//! The clock of one playthrough and the best time so far.

use vstd::prelude::*;

verus! {

/// Milliseconds in a minute.
pub const MINUTE: u64 = 60000;

/// Time survived in the current playthrough, in milliseconds.
#[derive(Clone, Copy, Debug, PartialEq, Eq, Structural)]
pub struct GameTimer(pub u64);

/// The longest time survived since the program started, in milliseconds.
#[derive(Clone, Copy, Debug, PartialEq, Eq, Structural)]
pub struct HighScore(pub u64);

/// What the death screen tells.
#[derive(Clone, Copy, Debug, PartialEq, Eq, Structural)]
pub struct DeathSummary {
    /// Whether this playthrough lasted longer than every one before.
    pub new_highscore: bool,
    /// Whole minutes survived, and the milliseconds beyond them.
    pub mins: u64,
    pub millis: u64,
    /// The best time, this playthrough included, split in the same way.
    pub best_mins: u64,
    pub best_millis: u64,
}

/// `elapsed` and `delta` together, held at the most that the clock can show.
pub open spec fn time_after(elapsed: u64, delta: u64) -> u64 {
    if elapsed + delta <= u64::MAX {
        (elapsed + delta) as u64
    } else {
        u64::MAX
    }
}

/// Sets the clock back to zero, as at the start of every playthrough.
pub fn reset_timer_system(timer: &mut GameTimer)
    ensures
        *final(timer) == GameTimer(0),
{
    timer.0 = 0;
}

/// Lets `delta` milliseconds pass on the clock.
pub fn game_timer_system(timer: &mut GameTimer, delta: u64)
    ensures
        *final(timer) == GameTimer(time_after(old(timer).0, delta)),
{
    if delta <= u64::MAX - timer.0 {
        timer.0 = timer.0 + delta;
    } else {
        timer.0 = u64::MAX;
    }
}

/// Takes stock at a death: the time survived becomes the best time if it is
/// longer than the best so far, and both times are split into minutes and the
/// rest.
pub fn death_enter_system(timer: &GameTimer, highscore: &mut HighScore) -> (summary: DeathSummary)
    ensures
        summary.new_highscore == (timer.0 > old(highscore).0),
        final(highscore).0 == if timer.0 > old(highscore).0 {
            timer.0
        } else {
            old(highscore).0
        },
        summary.mins == timer.0 / MINUTE,
        summary.millis == timer.0 % MINUTE,
        summary.best_mins == final(highscore).0 / MINUTE,
        summary.best_millis == final(highscore).0 % MINUTE,
{
    let new_highscore: bool = timer.0 > highscore.0;
    if new_highscore {
        highscore.0 = timer.0;
    }
    DeathSummary {
        new_highscore,
        mins: timer.0 / MINUTE,
        millis: timer.0 % MINUTE,
        best_mins: highscore.0 / MINUTE,
        best_millis: highscore.0 % MINUTE,
    }
}

} // verus!
