//! The long-lived context of the game and what entering and leaving a state
//! does to it.

use vstd::prelude::*;
use crate::elements::ElementInfo;
use crate::energy::{Energy, reset_energy};
use crate::molecule::{MoleculeView, Side, can_create, players_only, with_molecule};
use crate::registry::{Registry, cleanup_system};
use crate::state::{GameState, Trigger, next_state};
use crate::timer::{DeathSummary, GameTimer, HighScore, MINUTE, death_enter_system, reset_timer_system};
use crate::wave::{WaveCount, reset_wave_count};

verus! {

/// Everything that lives as long as the program.
#[derive(Debug)]
pub struct Game {
    pub state: GameState,
    pub energy: Energy,
    pub waves: WaveCount,
    pub timer: GameTimer,
    pub highscore: HighScore,
    /// Number of powerups bought so far.
    pub bought: u32,
    pub registry: Registry,
}

/// What a trigger did.
#[derive(Clone, Copy, Debug, PartialEq, Eq, Structural)]
pub struct Transition {
    pub from: GameState,
    pub to: GameState,
    /// The molecule of the player, where one was spawned.
    pub player: Option<u64>,
    /// What the death screen tells, where the player died.
    pub summary: Option<DeathSummary>,
}

/// The elements of the player's molecule at the start of a playthrough.
pub open spec fn player_elements() -> Seq<ElementInfo> {
    seq![ElementInfo::Hydrogen]
}

/// The trigger starts a playthrough.
pub open spec fn enters_playing(state: GameState, trigger: Trigger) -> bool {
    state != GameState::Playing && next_state(state, trigger) == GameState::Playing
}

/// The trigger ends a playthrough.
pub open spec fn leaves_playing(state: GameState, trigger: Trigger) -> bool {
    state == GameState::Playing && next_state(state, trigger) != GameState::Playing
}

/// The trigger leads to the death screen.
pub open spec fn enters_death(state: GameState, trigger: Trigger) -> bool {
    state != GameState::Death && next_state(state, trigger) == GameState::Death
}

/// The molecules after the trigger: a playthrough starts with the player's new
/// molecule, if ids are left for it, and ends with the enemies despawned.
pub open spec fn molecules_after(
    molecules: Seq<MoleculeView>,
    next_id: u64,
    state: GameState,
    trigger: Trigger,
) -> Seq<MoleculeView> {
    if enters_playing(state, trigger) && can_create(next_id, player_elements()) {
        with_molecule(molecules, next_id, Side::Player, player_elements())
    } else if leaves_playing(state, trigger) {
        players_only(molecules)
    } else {
        molecules
    }
}

/// The next free id after the trigger: the player's new molecule and its atom
/// take two ids; nothing else takes any.
pub open spec fn next_id_after(next_id: u64, state: GameState, trigger: Trigger) -> u64 {
    if enters_playing(state, trigger) && can_create(next_id, player_elements()) {
        (next_id + 2) as u64
    } else {
        next_id
    }
}

/// Spawns the molecule of the player: a single atom of hydrogen.
pub fn create_player(registry: &mut Registry) -> (player: Option<u64>)
    requires
        old(registry).wf(),
    ensures
        final(registry).wf(),
        player.is_some() <==> can_create(old(registry).spec_next_id(), player_elements()),
        match player {
            Some(id) => {
                &&& id == old(registry).spec_next_id()
                &&& final(registry)@ == with_molecule(old(registry)@, id, Side::Player, player_elements())
                &&& final(registry).spec_next_id() == id + 2
            },
            None => {
                &&& final(registry)@ == old(registry)@
                &&& final(registry).spec_next_id() == old(registry).spec_next_id()
            },
        },
{
    let elements = vec![ElementInfo::Hydrogen];
    assert(elements@ =~= player_elements());
    registry.create(Side::Player, &elements)
}

impl Game {
    /// The game as it starts: in the menu, with nothing in the world and no
    /// id given out yet, so that the first molecule gets the id 0.
    pub fn new() -> (game: Game)
        ensures
            game.state == GameState::Menu,
            game.energy == Energy(0),
            game.waves == WaveCount(0),
            game.timer == GameTimer(0),
            game.highscore == HighScore(0),
            game.bought == 0,
            game.registry@ == Seq::<MoleculeView>::empty(),
            game.registry.spec_next_id() == 0,
            game.registry.wf(),
    {
        Game {
            state: GameState::Menu,
            energy: Energy(0),
            waves: WaveCount(0),
            timer: GameTimer(0),
            highscore: HighScore(0),
            bought: 0,
            registry: Registry::new(),
        }
    }

    /// Moves the game to the state that follows on the trigger and does what
    /// belongs to leaving the old state and entering the new one. Entering
    /// `Playing` sets energy, wave count and clock back to zero and spawns the
    /// player. Leaving `Playing` despawns the enemies. Entering `Death` takes
    /// stock of the time survived. A trigger that does not belong to the
    /// state changes nothing.
    pub fn handle(&mut self, trigger: Trigger) -> (done: Transition)
        requires
            old(self).registry.wf(),
        ensures
            final(self).registry.wf(),
            done.from == old(self).state,
            done.to == final(self).state,
            final(self).state == next_state(old(self).state, trigger),
            final(self).bought == old(self).bought,
            final(self).registry@ == molecules_after(
                old(self).registry@,
                old(self).registry.spec_next_id(),
                old(self).state,
                trigger,
            ),
            final(self).registry.spec_next_id() == next_id_after(
                old(self).registry.spec_next_id(),
                old(self).state,
                trigger,
            ),
            enters_playing(old(self).state, trigger) ==> {
                &&& final(self).energy == Energy(0)
                &&& final(self).waves == WaveCount(0)
                &&& final(self).timer == GameTimer(0)
                &&& done.player == if can_create(old(self).registry.spec_next_id(), player_elements()) {
                    Some(old(self).registry.spec_next_id())
                } else {
                    None
                }
            },
            !enters_playing(old(self).state, trigger) ==> {
                &&& final(self).energy == old(self).energy
                &&& final(self).waves == old(self).waves
                &&& final(self).timer == old(self).timer
                &&& done.player.is_none()
            },
            enters_death(old(self).state, trigger) ==> {
                &&& done.summary.is_some()
                &&& done.summary.unwrap().new_highscore == (old(self).timer.0 > old(self).highscore.0)
                &&& done.summary.unwrap().mins == old(self).timer.0 / MINUTE
                &&& done.summary.unwrap().millis == old(self).timer.0 % MINUTE
                &&& done.summary.unwrap().best_mins == final(self).highscore.0 / MINUTE
                &&& done.summary.unwrap().best_millis == final(self).highscore.0 % MINUTE
                &&& final(self).highscore.0 == if old(self).timer.0 > old(self).highscore.0 {
                    old(self).timer.0
                } else {
                    old(self).highscore.0
                }
            },
            !enters_death(old(self).state, trigger) ==> {
                &&& done.summary.is_none()
                &&& final(self).highscore == old(self).highscore
            },
    {
        let from: GameState = self.state;
        let to: GameState = from.on(trigger);
        let mut player: Option<u64> = None;
        let mut summary: Option<DeathSummary> = None;
        if from == GameState::Playing && to != GameState::Playing {
            cleanup_system(&mut self.registry);
        }
        if from != GameState::Playing && to == GameState::Playing {
            reset_energy(&mut self.energy);
            reset_wave_count(&mut self.waves);
            reset_timer_system(&mut self.timer);
            player = create_player(&mut self.registry);
        }
        if from != GameState::Death && to == GameState::Death {
            summary = Some(death_enter_system(&self.timer, &mut self.highscore));
        }
        self.state = to;
        Transition { from, to, player, summary }
    }

    /// Ends the playthrough once no molecule of the player is left.
    pub fn game_end_system(&mut self) -> (done: Option<Transition>)
        requires
            old(self).registry.wf(),
        ensures
            final(self).registry.wf(),
            done.is_some() <==> old(self).state == GameState::Playing && crate::molecule::count_of(
                old(self).registry@,
                Side::Player,
            ) == 0,
            done.is_some() ==> {
                &&& final(self).state == GameState::Death
                &&& done.unwrap().from == GameState::Playing
                &&& done.unwrap().to == GameState::Death
                &&& done.unwrap().summary.is_some()
                &&& final(self).registry@ == players_only(old(self).registry@)
                &&& final(self).highscore.0 == if old(self).timer.0 > old(self).highscore.0 {
                    old(self).timer.0
                } else {
                    old(self).highscore.0
                }
            },
            done.is_none() ==> {
                &&& final(self).state == old(self).state
                &&& final(self).registry@ == old(self).registry@
                &&& final(self).highscore == old(self).highscore
            },
            final(self).registry.spec_next_id() == old(self).registry.spec_next_id(),
            final(self).energy == old(self).energy,
            final(self).waves == old(self).waves,
            final(self).timer == old(self).timer,
            final(self).bought == old(self).bought,
    {
        if self.state == GameState::Playing {
            match crate::state::game_end_system(self.registry.count_side(Side::Player)) {
                Some(trigger) => Some(self.handle(trigger)),
                None => None,
            }
        } else {
            None
        }
    }
}

} // verus!
