//! Powerups: pickups that energy buys and that make the player's molecule grow.

use vstd::prelude::*;
use crate::collision::CollisionEvent;
use crate::elements::ElementInfo;
use crate::energy::{Energy, affordable, reset_energy};
use crate::molecule::BuildMolecule;
use crate::random::random_in;

verus! {

/// Powerups appear at least this far from the player, in world units.
pub const POWERUP_MIN_DISTANCE: usize = 600;

/// Powerups appear less than this far from the player, in world units.
pub const POWERUP_MAX_DISTANCE: usize = 2000;

/// A pickup in the world.
#[derive(Clone, Copy, Debug, PartialEq, Eq, Structural)]
pub enum Powerup {
    /// Adds one atom of this kind to the molecule that picks it up.
    AddAtom(ElementInfo),
}

/// A powerup to be placed in the world.
#[derive(Clone, Copy, Debug, PartialEq, Eq, Structural)]
pub struct PowerupPlan {
    pub powerup: Powerup,
    /// Distance from the player, in world units.
    pub distance: usize,
}

/// The powerup that a draw picks: the kind at the drawn position in the fixed
/// order of the kinds.
pub fn powerup_for(pick: usize) -> (powerup: Powerup)
    requires
        pick < ElementInfo::spec_all().len(),
    ensures
        powerup == Powerup::AddAtom(ElementInfo::spec_all()[pick as int]),
{
    let kinds = ElementInfo::all();
    Powerup::AddAtom(kinds[pick])
}

/// Spends the energy on a powerup once it suffices and the player is there to
/// place the powerup near: the energy goes back to zero, the purchase is
/// counted and a powerup is planned. While the energy does not suffice, or
/// without a player, nothing happens.
pub fn spawn_powerup_system(energy: &mut Energy, bought: &mut u32, player_present: bool) -> (plan: Option<
    PowerupPlan,
>)
    ensures
        affordable(old(energy).0, *old(bought)) && player_present ==> {
            &&& *final(energy) == Energy(0)
            &&& *final(bought) == *old(bought) + 1
            &&& plan.is_some()
        },
        !(affordable(old(energy).0, *old(bought)) && player_present) ==> {
            &&& *final(energy) == *old(energy)
            &&& *final(bought) == *old(bought)
            &&& plan.is_none()
        },
        plan.is_some() ==> POWERUP_MIN_DISTANCE <= plan.unwrap().distance < POWERUP_MAX_DISTANCE,
{
    if !player_present {
        return None;
    }
    if *bought >= 64 || !energy.can_afford(*bought) {
        proof {
            if *bought >= 64 {
                crate::energy::lemma_never_affordable_from_64(energy.0, *bought);
            }
        }
        return None;
    }
    reset_energy(energy);
    *bought = *bought + 1;
    let powerup = powerup_for(random_in(0, 4));
    Some(PowerupPlan { powerup, distance: random_in(POWERUP_MIN_DISTANCE, POWERUP_MAX_DISTANCE) })
}

/// The request that a pickup makes: the atom of the powerup is added to the
/// molecule that touched it.
pub open spec fn pickup_request<T>(event: CollisionEvent<Powerup, T>) -> BuildMolecule {
    match event.a_comp {
        Powerup::AddAtom(element) => BuildMolecule::Add { target: event.b_id, element },
    }
}

/// Turns the pickups of one tick into requests, one for each in their order,
/// and names the powerups that are used up, in the same order.
pub fn powerup_player_collision_system<T>(events: &Vec<CollisionEvent<Powerup, T>>) -> (outcome: (
    Vec<BuildMolecule>,
    Vec<u64>,
))
    ensures
        outcome.0@.len() == events@.len(),
        outcome.1@.len() == events@.len(),
        forall|i: int| 0 <= i < events@.len() ==> outcome.0@[i] == pickup_request(events@[i]),
        forall|i: int| 0 <= i < events@.len() ==> outcome.1@[i] == events@[i].a_id,
{
    let mut requests: Vec<BuildMolecule> = Vec::new();
    let mut used: Vec<u64> = Vec::new();
    let mut i: usize = 0;
    while i < events.len()
        invariant
            i <= events@.len(),
            requests@.len() == i,
            used@.len() == i,
            forall|p: int| 0 <= p < i ==> requests@[p] == pickup_request(events@[p]),
            forall|p: int| 0 <= p < i ==> used@[p] == events@[p].a_id,
        decreases events@.len() - i,
    {
        match events[i].a_comp {
            Powerup::AddAtom(element) => {
                requests.push(BuildMolecule::Add { target: events[i].b_id, element });
            },
        }
        used.push(events[i].a_id);
        i = i + 1;
    }
    (requests, used)
}

} // verus!
