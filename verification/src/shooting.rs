//! When atoms fire and when short-lived objects end.

use vstd::prelude::*;
use crate::clock::{repeating_tick, repeating_timer_tick, single_tick, single_timer_tick};
use crate::molecule::{MoleculeView, Side, atom_place};
use crate::random::random_in;
use crate::registry::Registry;

verus! {

/// Lifetime of a projectile, in milliseconds.
pub const BULLET_LIFETIME: u32 = 2000;

/// The firing timer of one atom: it fires each time `period` milliseconds
/// have passed.
#[derive(Clone, Copy, Debug, PartialEq, Eq, Structural)]
pub struct Shooter {
    /// The atom that fires.
    pub atom: u64,
    pub period: u32,
    pub elapsed: u32,
}

/// The time that an object has left to live.
#[derive(Clone, Copy, Debug, PartialEq, Eq, Structural)]
pub struct TimeToLive {
    /// The object that ends with the timer.
    pub id: u64,
    pub duration: u32,
    pub elapsed: u32,
}

impl Shooter {
    /// The timer shows at most its period.
    pub open spec fn wf(&self) -> bool {
        self.elapsed <= self.period
    }

    /// A firing timer that starts at a point of its period drawn by chance, so
    /// that atoms made together do not fire together.
    pub fn new(atom: u64, period: u32) -> (shooter: Shooter)
        requires
            period > 0,
        ensures
            shooter.atom == atom,
            shooter.period == period,
            shooter.elapsed < period,
    {
        let phase: usize = random_in(0, period as usize);
        Shooter::with_phase(atom, period, phase as u32)
    }

    /// A firing timer that starts at the given point of its period.
    pub fn with_phase(atom: u64, period: u32, phase: u32) -> (shooter: Shooter)
        requires
            phase < period,
        ensures
            shooter == (Shooter { atom, period, elapsed: phase }),
    {
        let (elapsed, _) = repeating_timer_tick(period, 0, phase);
        Shooter { atom, period, elapsed }
    }

    /// The timer after `delta` milliseconds.
    pub open spec fn ticked(self, delta: u32) -> Shooter {
        Shooter { atom: self.atom, period: self.period, elapsed: repeating_tick(self.period, self.elapsed, delta).0 }
    }

    /// Whether the timer reaches its period within `delta` milliseconds.
    pub open spec fn fires(self, delta: u32) -> bool {
        repeating_tick(self.period, self.elapsed, delta).1
    }

    /// Lets `delta` milliseconds pass and tells whether the atom fires.
    pub fn tick(&mut self, delta: u32) -> (fires: bool)
        requires
            old(self).wf(),
        ensures
            *final(self) == old(self).ticked(delta),
            fires == old(self).fires(delta),
            final(self).wf(),
    {
        let (elapsed, fires) = repeating_timer_tick(self.period, self.elapsed, delta);
        proof {
            if self.period > 0 {
                vstd::arithmetic::div_mod::lemma_mod_bound((self.elapsed + delta) as int, self.period as int);
            }
        }
        self.elapsed = elapsed;
        fires
    }
}

impl TimeToLive {
    /// An object that lives for `duration` milliseconds from now.
    pub fn new(id: u64, duration: u32) -> (ttl: TimeToLive)
        ensures
            ttl == (TimeToLive { id, duration, elapsed: 0 }),
    {
        TimeToLive { id, duration, elapsed: 0 }
    }

    /// The timer shows at most its duration.
    pub open spec fn wf(&self) -> bool {
        self.elapsed <= self.duration
    }

    /// The timer after `delta` milliseconds.
    pub open spec fn ticked(self, delta: u32) -> TimeToLive {
        TimeToLive { id: self.id, duration: self.duration, elapsed: single_tick(self.duration, self.elapsed, delta).0 }
    }

    /// Whether the time is up after `delta` milliseconds.
    pub open spec fn expires(self, delta: u32) -> bool {
        single_tick(self.duration, self.elapsed, delta).1
    }

    /// Lets `delta` milliseconds pass and tells whether the time is up.
    pub fn tick(&mut self, delta: u32) -> (expired: bool)
        requires
            old(self).wf(),
        ensures
            *final(self) == old(self).ticked(delta),
            expired == old(self).expires(delta),
            final(self).wf(),
    {
        let (elapsed, expired) = single_timer_tick(self.duration, self.elapsed, delta);
        self.elapsed = elapsed;
        expired
    }
}

/// The atom belongs to a molecule of the player.
pub open spec fn is_player_atom(molecules: Seq<MoleculeView>, atom: u64) -> bool {
    match atom_place(molecules, atom) {
        Some((k, _)) => molecules[k].side == Side::Player,
        None => false,
    }
}

/// The atoms of the player among the shooters whose timers reach their period
/// within `delta` milliseconds, in the order of the shooters.
pub open spec fn firing(molecules: Seq<MoleculeView>, shooters: Seq<Shooter>, delta: u32) -> Seq<u64>
    decreases shooters.len(),
{
    if shooters.len() == 0 {
        Seq::empty()
    } else if shooters.last().fires(delta) && is_player_atom(molecules, shooters.last().atom) {
        firing(molecules, shooters.drop_last(), delta).push(shooters.last().atom)
    } else {
        firing(molecules, shooters.drop_last(), delta)
    }
}

/// The objects among `timers` whose time is up after `delta` milliseconds, in
/// their order.
pub open spec fn expiring(timers: Seq<TimeToLive>, delta: u32) -> Seq<u64>
    decreases timers.len(),
{
    if timers.len() == 0 {
        Seq::empty()
    } else if timers.last().expires(delta) {
        expiring(timers.drop_last(), delta).push(timers.last().id)
    } else {
        expiring(timers.drop_last(), delta)
    }
}

/// Lets `delta` milliseconds pass on every firing timer and names the atoms of
/// the player that fire. Without a point to aim at no timer moves and no atom
/// fires. The timers of other atoms move too, but those atoms do not fire.
pub fn player_shoot(registry: &Registry, shooters: &mut Vec<Shooter>, aiming: bool, delta: u32) -> (fired:
    Vec<u64>)
    requires
        forall|i: int| 0 <= i < old(shooters)@.len() ==> (#[trigger] old(shooters)@[i]).wf(),
    ensures
        final(shooters)@.len() == old(shooters)@.len(),
        forall|i: int| 0 <= i < final(shooters)@.len() ==> (#[trigger] final(shooters)@[i]).wf(),
        aiming ==> fired@ == firing(registry@, old(shooters)@, delta),
        aiming ==> forall|i: int|
            0 <= i < old(shooters)@.len() ==> (#[trigger] final(shooters)@[i]) == old(shooters)@[i].ticked(
                delta,
            ),
        !aiming ==> fired@.len() == 0 && final(shooters)@ == old(shooters)@,
{
    let mut fired: Vec<u64> = Vec::new();
    if !aiming {
        return fired;
    }
    let mut i: usize = 0;
    while i < shooters.len()
        invariant
            i <= shooters@.len(),
            shooters@.len() == old(shooters)@.len(),
            forall|p: int| 0 <= p < shooters@.len() ==> (#[trigger] shooters@[p]).wf(),
            forall|p: int| 0 <= p < i ==> (#[trigger] shooters@[p]) == old(shooters)@[p].ticked(delta),
            forall|p: int| i <= p < shooters@.len() ==> (#[trigger] shooters@[p]) == old(shooters)@[p],
            fired@ == firing(registry@, old(shooters)@.take(i as int), delta),
        decreases shooters@.len() - i,
    {
        proof {
            assert(old(shooters)@.take(i + 1).drop_last() =~= old(shooters)@.take(i as int));
        }
        let mut shooter: Shooter = shooters[i];
        let fires: bool = shooter.tick(delta);
        shooters.set(i, shooter);
        if fires {
            if let Some((k, _)) = registry.find_atom(shooter.atom) {
                if registry.get(k).side == Side::Player {
                    fired.push(shooter.atom);
                }
            }
        }
        i = i + 1;
    }
    proof {
        assert(old(shooters)@.take(i as int) =~= old(shooters)@);
    }
    fired
}

/// Lets `delta` milliseconds pass on every lifetime and names the objects
/// whose time is up.
pub fn time_to_live(timers: &mut Vec<TimeToLive>, delta: u32) -> (expired: Vec<u64>)
    requires
        forall|i: int| 0 <= i < old(timers)@.len() ==> (#[trigger] old(timers)@[i]).wf(),
    ensures
        final(timers)@.len() == old(timers)@.len(),
        forall|i: int| 0 <= i < final(timers)@.len() ==> (#[trigger] final(timers)@[i]).wf(),
        forall|i: int|
            0 <= i < old(timers)@.len() ==> (#[trigger] final(timers)@[i]) == old(timers)@[i].ticked(delta),
        expired@ == expiring(old(timers)@, delta),
{
    let mut expired: Vec<u64> = Vec::new();
    let mut i: usize = 0;
    while i < timers.len()
        invariant
            i <= timers@.len(),
            timers@.len() == old(timers)@.len(),
            forall|p: int| 0 <= p < timers@.len() ==> (#[trigger] timers@[p]).wf(),
            forall|p: int| 0 <= p < i ==> (#[trigger] timers@[p]) == old(timers)@[p].ticked(delta),
            forall|p: int| i <= p < timers@.len() ==> (#[trigger] timers@[p]) == old(timers)@[p],
            expired@ == expiring(old(timers)@.take(i as int), delta),
        decreases timers@.len() - i,
    {
        proof {
            assert(old(timers)@.take(i + 1).drop_last() =~= old(timers)@.take(i as int));
        }
        let mut timer: TimeToLive = timers[i];
        let done: bool = timer.tick(delta);
        timers.set(i, timer);
        if done {
            expired.push(timer.id);
        }
        i = i + 1;
    }
    proof {
        assert(old(timers)@.take(i as int) =~= old(timers)@);
    }
    expired
}

} // verus!
