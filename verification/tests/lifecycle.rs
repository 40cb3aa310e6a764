use atomic_warfare::collision::CollisionEvent;
use atomic_warfare::combat::{bullet_hit_system, molecule_health_system, Bullet};
use atomic_warfare::elements::ElementInfo;
use atomic_warfare::energy::Energy;
use atomic_warfare::game::{create_player, Game};
use atomic_warfare::molecule::Side;
use atomic_warfare::registry::{build_molecules_system, Registry};
use atomic_warfare::state::{
    game_end_system, menu_button_system, play_system, respawn_button_system, GameState, Trigger,
};
use atomic_warfare::timer::{
    death_enter_system, game_timer_system, reset_timer_system, GameTimer, HighScore,
};
use atomic_warfare::wave::WaveCount;

#[test]
fn the_game_starts_in_the_menu() {
    assert_eq!(GameState::initial(), GameState::Menu);
    assert_eq!(GameState::default(), GameState::Menu);
    let game = Game::new();
    assert_eq!(game.state, GameState::Menu);
    assert_eq!(game.registry.len(), 0);
}

#[test]
fn every_state_follows_its_own_triggers_only() {
    let all = [Trigger::Play, Trigger::PlayerGone, Trigger::Respawn, Trigger::ReturnToMenu];
    let after = |state: GameState| all.map(|trigger| state.on(trigger));
    assert_eq!(
        after(GameState::Menu),
        [GameState::Playing, GameState::Menu, GameState::Menu, GameState::Menu]
    );
    assert_eq!(
        after(GameState::Playing),
        [GameState::Playing, GameState::Death, GameState::Playing, GameState::Playing]
    );
    assert_eq!(
        after(GameState::Death),
        [GameState::Death, GameState::Death, GameState::Playing, GameState::Menu]
    );
}

#[test]
fn buttons_and_the_end_of_the_player_give_triggers() {
    assert_eq!(game_end_system(0), Some(Trigger::PlayerGone));
    assert_eq!(game_end_system(1), None);
    assert_eq!(play_system(true), Some(Trigger::Play));
    assert_eq!(play_system(false), None);
    assert_eq!(respawn_button_system(true), Some(Trigger::Respawn));
    assert_eq!(respawn_button_system(false), None);
    assert_eq!(menu_button_system(true), Some(Trigger::ReturnToMenu));
    assert_eq!(menu_button_system(false), None);
}

#[test]
fn entering_playing_resets_and_spawns_the_player() {
    let mut game = Game::new();
    game.energy = Energy(70);
    game.waves = WaveCount(5);
    game.timer = GameTimer(1234);
    game.bought = 3;
    let done = game.handle(Trigger::Play);
    assert_eq!((done.from, done.to), (GameState::Menu, GameState::Playing));
    assert_eq!(done.player, Some(0));
    assert_eq!(done.summary, None);
    assert_eq!(game.energy, Energy(0));
    assert_eq!(game.waves, WaveCount(0));
    assert_eq!(game.timer, GameTimer(0));
    assert_eq!(game.bought, 3);
    let player = game.registry.molecule(0).unwrap();
    assert_eq!(player.side, Side::Player);
    assert_eq!(player.atoms.len(), 1);
    assert_eq!(player.atoms[0].element, ElementInfo::Hydrogen);
    assert_eq!(player.atoms[0].health.health, 1000);
    assert_eq!(player.atoms[0].health.max_health, 1000);
    assert_eq!(game.registry.next_id(), 2);
}

#[test]
fn a_trigger_of_another_state_changes_nothing() {
    let mut game = Game::new();
    game.energy = Energy(70);
    let done = game.handle(Trigger::Respawn);
    assert_eq!((done.from, done.to), (GameState::Menu, GameState::Menu));
    assert_eq!(game.energy, Energy(70));
    assert_eq!(game.registry.len(), 0);
    assert_eq!(done.player, None);
    assert_eq!(done.summary, None);
}

#[test]
fn leaving_playing_despawns_the_enemies() {
    let mut game = Game::new();
    game.handle(Trigger::Play);
    game.registry.create(Side::Enemy, &vec![ElementInfo::Iron]).unwrap();
    game.registry.remove_atom(0, 1);
    game.timer = GameTimer(61_500);
    let done = game.game_end_system().unwrap();
    assert_eq!((done.from, done.to), (GameState::Playing, GameState::Death));
    assert_eq!(game.registry.len(), 0);
    let summary = done.summary.unwrap();
    assert!(summary.new_highscore);
    assert_eq!((summary.mins, summary.millis), (1, 1500));
    assert_eq!((summary.best_mins, summary.best_millis), (1, 1500));
    assert_eq!(game.highscore, HighScore(61_500));
    assert_eq!(game.game_end_system(), None);
    let again = game.handle(Trigger::Respawn);
    assert_eq!(again.to, GameState::Playing);
    assert_eq!(game.registry.count_side(Side::Player), 1);
    assert_eq!(game.highscore, HighScore(61_500));
    assert_eq!(game.timer, GameTimer(0));
}

#[test]
fn the_game_goes_on_while_the_player_lives() {
    let mut game = Game::new();
    game.handle(Trigger::Play);
    assert_eq!(game.game_end_system(), None);
    assert_eq!(game.state, GameState::Playing);
}

#[test]
fn death_leads_back_to_the_menu() {
    let mut game = Game::new();
    game.state = GameState::Death;
    let done = game.handle(Trigger::ReturnToMenu);
    assert_eq!(done.to, GameState::Menu);
    assert_eq!(game.state, GameState::Menu);
    assert_eq!(done.summary, None);
}

#[test]
fn the_best_time_is_kept() {
    let mut best = HighScore(100_000);
    let shorter = death_enter_system(&GameTimer(59_999), &mut best);
    assert!(!shorter.new_highscore);
    assert_eq!((shorter.mins, shorter.millis), (0, 59_999));
    assert_eq!((shorter.best_mins, shorter.best_millis), (1, 40_000));
    assert_eq!(best, HighScore(100_000));
    let equal = death_enter_system(&GameTimer(100_000), &mut best);
    assert!(!equal.new_highscore);
    let longer = death_enter_system(&GameTimer(180_001), &mut best);
    assert!(longer.new_highscore);
    assert_eq!((longer.mins, longer.millis), (3, 1));
    assert_eq!(best, HighScore(180_001));
}

#[test]
fn the_clock_adds_up_and_resets() {
    let mut timer = GameTimer(0);
    game_timer_system(&mut timer, 16);
    game_timer_system(&mut timer, 17);
    assert_eq!(timer, GameTimer(33));
    game_timer_system(&mut timer, u64::MAX);
    assert_eq!(timer, GameTimer(u64::MAX));
    reset_timer_system(&mut timer);
    assert_eq!(timer, GameTimer(0));
}

#[test]
fn the_player_is_one_atom_of_hydrogen() {
    let mut registry = Registry::new();
    let player = create_player(&mut registry).unwrap();
    assert_eq!(registry.len(), 1);
    assert_eq!(registry.next_id(), 2);
    let molecule = registry.molecule(player).unwrap();
    assert_eq!(molecule.side, Side::Player);
    assert_eq!(molecule.atoms.len(), 1);
    assert_eq!(molecule.atoms[0].element, ElementInfo::Hydrogen);
    assert_eq!(molecule.atoms[0].health.health, 1000);
    assert_eq!(molecule.atoms[0].health.max_health, 1000);
}

#[test]
fn a_respawn_gives_the_player_the_next_free_id() {
    let mut game = Game::new();
    assert_eq!(game.handle(Trigger::Play).player, Some(0));
    game.registry.create(Side::Enemy, &vec![ElementInfo::Iron, ElementInfo::Iron]).unwrap();
    assert_eq!(game.registry.next_id(), 5);
    game.registry.remove_atom(0, 1);
    let died = game.game_end_system().unwrap();
    assert_eq!(died.player, None);
    assert_eq!(game.registry.next_id(), 5);
    assert_eq!(game.handle(Trigger::ReturnToMenu).player, None);
    assert_eq!(game.registry.next_id(), 5);
    let again = game.handle(Trigger::Play);
    assert_eq!(again.player, Some(5));
    assert_eq!(game.registry.next_id(), 7);
    assert_eq!(game.registry.molecule(5).unwrap().atoms[0].id, 6);
}

#[test]
fn eight_hits_end_a_player_of_one_hydrogen() {
    let mut game = Game::new();
    game.state = GameState::Playing;
    let player = game.registry.create(Side::Player, &vec![ElementInfo::Hydrogen]).unwrap();
    let atom = game.registry.molecule(player).unwrap().atoms[0].id;
    assert_eq!(game.registry.molecule(player).unwrap().atoms[0].health.health, 1000);
    for bullet in 0..8u64 {
        assert_eq!(game.game_end_system(), None);
        let events =
            vec![CollisionEvent { a_id: 100 + bullet, a_comp: Bullet::FromEnemy, b_id: atom, b_comp: () }];
        let spent = bullet_hit_system(&mut game.registry, &events);
        assert_eq!(spent, vec![100 + bullet]);
        let left = game.registry.molecule(player).unwrap().atoms[0].health.health;
        assert_eq!(left, 1000 - 125 * (bullet as i64 + 1));
        if bullet < 7 {
            assert!(molecule_health_system(&game.registry, &mut game.energy).is_empty());
        }
    }
    assert!(game.registry.molecule(player).unwrap().atoms[0].health.is_depleted());
    let requests = molecule_health_system(&game.registry, &mut game.energy);
    assert_eq!(requests.len(), 1);
    assert_eq!(game.energy, Energy(0));
    build_molecules_system(&mut game.registry, &requests);
    assert!(game.registry.molecule(player).is_none());
    let done = game.game_end_system().unwrap();
    assert_eq!((done.from, done.to), (GameState::Playing, GameState::Death));
    assert_eq!(game.state, GameState::Death);
}
