//! One tick of a playthrough: the passes of the simulation in their fixed
//! order. Each pass sees what the passes before it did.

use vstd::prelude::*;
use crate::collision::{Collider, CollisionEvent, all_events, collision_system};
use crate::combat::{
    Bullet, after_bullets, after_contacts, bullet_hit_system, enemy_player_damage_system, kills,
    molecule_health_system, removal_requests,
};
use crate::energy::{Energy, KILL_REWARD, affordable};
use crate::game::{Game, Transition};
use crate::molecule::{
    BuildMolecule, MoleculeView, Side, applied_all, can_create, count_of, players_only,
    with_molecule,
};
use crate::powerup::{
    POWERUP_MAX_DISTANCE, POWERUP_MIN_DISTANCE, Powerup, PowerupPlan, pickup_request,
    powerup_player_collision_system, spawn_powerup_system,
};
use crate::registry::{Registry, build_molecules_system};
use crate::state::GameState;
use crate::timer::{GameTimer, game_timer_system, time_after};
use crate::wave::{EnemyPlan, planned_for, tier_enemy_count, wave_check_system};

verus! {

/// What the world looks like at the start of a tick, after everything has
/// moved: the objects of each category with their centres.
#[derive(Debug)]
pub struct Frame {
    /// Milliseconds since the tick before.
    pub delta: u64,
    pub bullets: Vec<Collider<Bullet>>,
    /// Every atom, with its own id.
    pub atoms: Vec<Collider<()>>,
    pub powerups: Vec<Collider<Powerup>>,
    /// The molecule of the player, with its own id.
    pub players: Vec<Collider<()>>,
}

/// What a tick asks the world to do.
#[derive(Debug)]
pub struct TickReport {
    /// Projectiles that hit and are to be despawned.
    pub spent_bullets: Vec<u64>,
    /// Powerups that were picked up and are to be despawned.
    pub used_powerups: Vec<u64>,
    /// A powerup to be placed.
    pub powerup: Option<PowerupPlan>,
    /// The enemies of a new wave, and the molecule that each one got.
    pub enemies: Vec<EnemyPlan>,
    pub enemy_ids: Vec<Option<u64>>,
    /// The end of the playthrough, where the tick brought it.
    pub transition: Option<Transition>,
}

/// The molecules and the next free id after a molecule of an enemy was
/// created for each plan, first to last. A plan for which no ids are left
/// creates nothing.
pub open spec fn spawned(molecules: Seq<MoleculeView>, next_id: u64, plans: Seq<EnemyPlan>) -> (
    Seq<MoleculeView>,
    u64,
)
    decreases plans.len(),
{
    if plans.len() == 0 {
        (molecules, next_id)
    } else {
        let before = spawned(molecules, next_id, plans.drop_last());
        if can_create(before.1, plans.last().elements@) {
            (
                with_molecule(before.0, before.1, Side::Enemy, plans.last().elements@),
                (before.1 + 1 + plans.last().elements@.len()) as u64,
            )
        } else {
            before
        }
    }
}

/// The id of the molecule that plan number `i` got, if it got one.
pub open spec fn spawned_id(molecules: Seq<MoleculeView>, next_id: u64, plans: Seq<EnemyPlan>, i: int) -> Option<
    u64,
> {
    let before = spawned(molecules, next_id, plans.take(i));
    if can_create(before.1, plans[i].elements@) {
        Some(before.1)
    } else {
        None
    }
}

/// The requests that the pickups make, in their order.
pub open spec fn pickup_requests(events: Seq<CollisionEvent<Powerup, ()>>) -> Seq<BuildMolecule> {
    Seq::new(events.len(), |i: int| pickup_request(events[i]))
}

/// The molecules after the passes that fight and rebuild: projectiles hit,
/// bodies touch, used-up atoms are taken away, and then the atoms of the
/// powerups that were picked up are added.
pub open spec fn after_combat(molecules: Seq<MoleculeView>, next_id: u64, frame: Frame) -> (
    Seq<MoleculeView>,
    u64,
) {
    let shot = after_bullets(molecules, all_events(frame.bullets@, frame.atoms@)).0;
    let touched = after_contacts(shot, all_events(frame.atoms@, frame.atoms@));
    let reaped = applied_all(touched, next_id, removal_requests(touched));
    applied_all(
        reaped.0,
        reaped.1,
        pickup_requests(all_events(frame.powerups@, frame.players@)),
    )
}

/// The molecules as the damage passes leave them, before any is rebuilt.
pub open spec fn after_damage(molecules: Seq<MoleculeView>, frame: Frame) -> Seq<MoleculeView> {
    after_contacts(
        after_bullets(molecules, all_events(frame.bullets@, frame.atoms@)).0,
        all_events(frame.atoms@, frame.atoms@),
    )
}

/// Creates a molecule of an enemy for each plan and returns the ids.
pub fn spawn_enemies(registry: &mut Registry, plans: &Vec<EnemyPlan>) -> (ids: Vec<Option<u64>>)
    requires
        old(registry).wf(),
    ensures
        final(registry).wf(),
        (final(registry)@, final(registry).spec_next_id()) == spawned(
            old(registry)@,
            old(registry).spec_next_id(),
            plans@,
        ),
        ids@.len() == plans@.len(),
        forall|i: int|
            0 <= i < plans@.len() ==> ids@[i] == spawned_id(
                old(registry)@,
                old(registry).spec_next_id(),
                plans@,
                i,
            ),
{
    let mut ids: Vec<Option<u64>> = Vec::new();
    let mut i: usize = 0;
    while i < plans.len()
        invariant
            i <= plans@.len(),
            registry.wf(),
            ids@.len() == i,
            (registry@, registry.spec_next_id()) == spawned(
                old(registry)@,
                old(registry).spec_next_id(),
                plans@.take(i as int),
            ),
            forall|p: int|
                0 <= p < i ==> ids@[p] == spawned_id(
                    old(registry)@,
                    old(registry).spec_next_id(),
                    plans@,
                    p,
                ),
        decreases plans@.len() - i,
    {
        proof {
            assert(plans@.take(i + 1).drop_last() =~= plans@.take(i as int));
        }
        let id = registry.create(Side::Enemy, &plans[i].elements);
        ids.push(id);
        i = i + 1;
    }
    proof {
        assert(plans@.take(i as int) =~= plans@);
    }
    ids
}

impl Game {
    /// Runs one tick. Outside a playthrough nothing happens. Within one, the
    /// passes run in this order: the clock; projectiles against atoms; atoms
    /// against atoms; the search for used-up atoms, which pays for kills; the
    /// rebuilding of molecules, removals first and then the atoms of the
    /// powerups that the player touched; the purchase of a powerup; the wave
    /// check; and last the check whether the player is gone, which ends the
    /// playthrough. Without a player no powerup is bought and no wave starts.
    pub fn tick(&mut self, frame: &Frame) -> (report: TickReport)
        requires
            old(self).registry.wf(),
        ensures
            final(self).registry.wf(),
            old(self).state != GameState::Playing ==> {
                &&& final(self).state == old(self).state
                &&& final(self).energy == old(self).energy
                &&& final(self).waves == old(self).waves
                &&& final(self).timer == old(self).timer
                &&& final(self).highscore == old(self).highscore
                &&& final(self).bought == old(self).bought
                &&& final(self).registry@ == old(self).registry@
                &&& final(self).registry.spec_next_id() == old(self).registry.spec_next_id()
                &&& report.spent_bullets@.len() == 0
                &&& report.used_powerups@.len() == 0
                &&& report.powerup.is_none()
                &&& report.enemies@.len() == 0
                &&& report.transition.is_none()
            },
            old(self).state == GameState::Playing ==> ({
                let before = old(self).registry@;
                let next_id = old(self).registry.spec_next_id();
                let hurt = after_damage(before, *frame);
                let rebuilt = after_combat(before, next_id, *frame);
                let earned = old(self).energy.gained(KILL_REWARD * kills(hurt));
                let player_present = count_of(rebuilt.0, Side::Player) > 0;
                let buys = affordable(earned.0, old(self).bought) && player_present;
                let wave_due = count_of(rebuilt.0, Side::Enemy) == 0 && player_present;
                let grown = spawned(rebuilt.0, rebuilt.1, report.enemies@);
                let over = count_of(grown.0, Side::Player) == 0;
                &&& final(self).timer == GameTimer(time_after(old(self).timer.0, frame.delta))
                &&& report.spent_bullets@ == after_bullets(
                    before,
                    all_events(frame.bullets@, frame.atoms@),
                ).1
                &&& report.used_powerups@.len() == all_events(frame.powerups@, frame.players@).len()
                &&& forall|i: int|
                    0 <= i < report.used_powerups@.len() ==> report.used_powerups@[i] == all_events(
                        frame.powerups@,
                        frame.players@,
                    )[i].a_id
                &&& final(self).energy == if buys {
                    Energy(0)
                } else {
                    earned
                }
                &&& final(self).bought == if buys {
                    old(self).bought + 1
                } else {
                    old(self).bought as int
                }
                &&& report.powerup.is_some() == buys
                &&& report.powerup.is_some() ==> POWERUP_MIN_DISTANCE <= report.powerup.unwrap().distance
                    < POWERUP_MAX_DISTANCE
                &&& final(self).waves == if wave_due {
                    old(self).waves.next()
                } else {
                    old(self).waves
                }
                &&& report.enemies@.len() == if wave_due {
                    tier_enemy_count(final(self).waves.0)
                } else {
                    0
                }
                &&& forall|i: int|
                    0 <= i < report.enemies@.len() ==> planned_for(
                        #[trigger] report.enemies@[i],
                        final(self).waves.0,
                    )
                &&& report.enemy_ids@.len() == report.enemies@.len()
                &&& forall|i: int|
                    0 <= i < report.enemies@.len() ==> report.enemy_ids@[i] == spawned_id(
                        rebuilt.0,
                        rebuilt.1,
                        report.enemies@,
                        i,
                    )
                &&& report.transition.is_some() == over
                &&& final(self).state == if over {
                    GameState::Death
                } else {
                    GameState::Playing
                }
                &&& final(self).registry@ == if over {
                    players_only(grown.0)
                } else {
                    grown.0
                }
                &&& final(self).registry.spec_next_id() == grown.1
                &&& !over ==> final(self).highscore == old(self).highscore
                &&& over ==> final(self).highscore.0 == if final(self).timer.0 > old(self).highscore.0 {
                    final(self).timer.0
                } else {
                    old(self).highscore.0
                }
            }),
    {
        if self.state != GameState::Playing {
            return TickReport {
                spent_bullets: Vec::new(),
                used_powerups: Vec::new(),
                powerup: None,
                enemies: Vec::new(),
                enemy_ids: Vec::new(),
                transition: None,
            };
        }
        game_timer_system(&mut self.timer, frame.delta);

        let hits = collision_system(&frame.bullets, &frame.atoms);
        let spent_bullets = bullet_hit_system(&mut self.registry, &hits);
        let contacts = collision_system(&frame.atoms, &frame.atoms);
        enemy_player_damage_system(&mut self.registry, &contacts);

        let removals = molecule_health_system(&self.registry, &mut self.energy);
        build_molecules_system(&mut self.registry, &removals);
        let pickups = collision_system(&frame.powerups, &frame.players);
        let (additions, used_powerups) = powerup_player_collision_system(&pickups);
        proof {
            assert(additions@ =~= pickup_requests(pickups@));
        }
        build_molecules_system(&mut self.registry, &additions);

        let players: usize = self.registry.count_side(Side::Player);
        let enemies_alive: usize = self.registry.count_side(Side::Enemy);
        let powerup = spawn_powerup_system(&mut self.energy, &mut self.bought, players > 0);
        let enemies = wave_check_system(enemies_alive, players > 0, &mut self.waves);
        let enemy_ids = spawn_enemies(&mut self.registry, &enemies);

        let transition = self.game_end_system();
        TickReport { spent_bullets, used_powerups, powerup, enemies, enemy_ids, transition }
    }
}

} // verus!
