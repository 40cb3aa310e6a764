use atomic_warfare::collision::{Collider, Point};
use atomic_warfare::combat::Bullet;
use atomic_warfare::elements::ElementInfo;
use atomic_warfare::energy::Energy;
use atomic_warfare::game::Game;
use atomic_warfare::molecule::Side;
use atomic_warfare::powerup::Powerup;
use atomic_warfare::registry::Registry;
use atomic_warfare::state::{GameState, Trigger};
use atomic_warfare::tick::{spawn_enemies, Frame};
use atomic_warfare::timer::{GameTimer, HighScore};
use atomic_warfare::wave::{EnemyPlan, WaveCount};

fn at<T>(id: u64, x: i32, y: i32, width: u32, tag: T) -> Collider<T> {
    Collider { id, center: Point { x, y }, molecule_atoms: None, sprite_width: Some(width), tag }
}

fn empty_frame(delta: u64) -> Frame {
    Frame { delta, bullets: vec![], atoms: vec![], powerups: vec![], players: vec![] }
}

fn plan(elements: Vec<ElementInfo>) -> EnemyPlan {
    EnemyPlan { elements, distance: 2000, drag: 25, max_speed: 15000, speed: 200 }
}

#[test]
fn nothing_happens_outside_a_playthrough() {
    let mut game = Game::new();
    game.energy = Energy(500);
    let report = game.tick(&empty_frame(16));
    assert_eq!(game.state, GameState::Menu);
    assert_eq!(game.timer, GameTimer(0));
    assert_eq!(game.energy, Energy(500));
    assert_eq!(game.waves, WaveCount(0));
    assert!(report.enemies.is_empty());
    assert!(report.powerup.is_none());
    assert!(report.transition.is_none());
}

#[test]
fn the_first_tick_starts_the_first_wave() {
    let mut game = Game::new();
    game.handle(Trigger::Play);
    let report = game.tick(&empty_frame(16));
    assert_eq!(game.timer, GameTimer(16));
    assert_eq!(game.waves, WaveCount(1));
    assert_eq!(report.enemies.len(), 4);
    assert_eq!(report.enemy_ids, vec![Some(2), Some(4), Some(6), Some(8)]);
    assert_eq!(game.registry.count_side(Side::Enemy), 4);
    for (plan, id) in report.enemies.iter().zip(report.enemy_ids.iter()) {
        let molecule = game.registry.molecule(id.unwrap()).unwrap();
        assert_eq!(molecule.side, Side::Enemy);
        let kinds: Vec<ElementInfo> = molecule.atoms.iter().map(|atom| atom.element).collect();
        assert_eq!(kinds, plan.elements);
        assert_eq!(kinds, vec![ElementInfo::Hydrogen]);
    }
    let second = game.tick(&empty_frame(16));
    assert!(second.enemies.is_empty());
    assert_eq!(game.waves, WaveCount(1));
    assert_eq!(game.timer, GameTimer(32));
    assert_eq!(game.state, GameState::Playing);
}

#[test]
fn a_tick_fights_then_rebuilds_then_pays() {
    let mut game = Game::new();
    game.handle(Trigger::Play);
    let enemy = game.registry.create(Side::Enemy, &vec![ElementInfo::Hydrogen, ElementInfo::Iron]).unwrap();
    let first = game.registry.molecule(enemy).unwrap().atoms[0].id;
    let second = game.registry.molecule(enemy).unwrap().atoms[1].id;
    game.registry.damage_atom(1, 0, 900);
    game.energy = Energy(5);
    let frame = Frame {
        delta: 16,
        bullets: vec![
            at(100, 0, 0, 28, Bullet::FromPlayer),
            at(101, 500, 0, 28, Bullet::FromPlayer),
            at(102, 0, 0, 28, Bullet::FromEnemy),
        ],
        atoms: vec![at(first, 10, 0, 64, ()), at(second, 5000, 0, 64, ())],
        powerups: vec![at(200, 9000, 9000, 64, Powerup::AddAtom(ElementInfo::Thorium))],
        players: vec![Collider {
            id: 0,
            center: Point { x: 9000, y: 9050 },
            molecule_atoms: Some(1),
            sprite_width: None,
            tag: (),
        }],
    };
    let report = game.tick(&frame);
    assert_eq!(report.spent_bullets, vec![100]);
    assert_eq!(report.used_powerups, vec![200]);
    assert_eq!(game.energy, Energy(15));
    assert!(report.powerup.is_none());
    assert!(report.enemies.is_empty());
    assert!(report.transition.is_none());
    let left = game.registry.molecule(enemy).unwrap();
    assert_eq!(left.atoms.len(), 1);
    assert_eq!(left.atoms[0].id, second);
    assert_eq!(left.atoms[0].health.health, 3000);
    let player = game.registry.molecule(0).unwrap();
    let kinds: Vec<ElementInfo> = player.atoms.iter().map(|atom| atom.element).collect();
    assert_eq!(kinds, vec![ElementInfo::Hydrogen, ElementInfo::Thorium]);
    assert_eq!(player.atoms[1].offset.steps, 2);
}

#[test]
fn a_tick_buys_a_powerup_with_the_energy_of_its_kills() {
    let mut game = Game::new();
    game.handle(Trigger::Play);
    game.registry.create(Side::Enemy, &vec![ElementInfo::Hydrogen, ElementInfo::Iron]).unwrap();
    game.registry.damage_atom(1, 0, 1000);
    game.energy = Energy(11);
    let report = game.tick(&empty_frame(16));
    assert_eq!(game.energy, Energy(0));
    assert_eq!(game.bought, 1);
    let plan = report.powerup.unwrap();
    assert!(600 <= plan.distance && plan.distance < 2000);
}

#[test]
fn a_tick_ends_the_playthrough_when_the_player_is_gone() {
    let mut game = Game::new();
    game.handle(Trigger::Play);
    game.registry.create(Side::Enemy, &vec![ElementInfo::Iron]).unwrap();
    game.registry.damage_atom(0, 0, 1000);
    game.highscore = HighScore(10);
    game.timer = GameTimer(984);
    let report = game.tick(&empty_frame(16));
    let done = report.transition.unwrap();
    assert_eq!((done.from, done.to), (GameState::Playing, GameState::Death));
    let summary = done.summary.unwrap();
    assert!(summary.new_highscore);
    assert_eq!((summary.mins, summary.millis), (0, 1000));
    assert_eq!(game.state, GameState::Death);
    assert_eq!(game.highscore, HighScore(1000));
    assert_eq!(game.registry.len(), 0);
    assert!(report.enemies.is_empty());
    assert_eq!(game.waves, WaveCount(0));
}

#[test]
fn a_tick_without_a_player_starts_no_wave_and_buys_nothing() {
    let mut game = Game::new();
    game.state = GameState::Playing;
    game.energy = Energy(500);
    game.waves = WaveCount(2);
    game.timer = GameTimer(100);
    let report = game.tick(&empty_frame(16));
    assert!(report.enemies.is_empty());
    assert!(report.enemy_ids.is_empty());
    assert!(report.powerup.is_none());
    assert_eq!(game.waves, WaveCount(2));
    assert_eq!(game.energy, Energy(500));
    assert_eq!(game.bought, 0);
    assert_eq!(game.registry.next_id(), 0);
    assert_eq!(game.timer, GameTimer(116));
    assert_eq!(report.transition.unwrap().to, GameState::Death);
    assert_eq!(game.state, GameState::Death);
}

#[test]
fn a_tick_moves_the_next_free_id_past_its_spawns() {
    let mut game = Game::new();
    game.handle(Trigger::Play);
    assert_eq!(game.registry.next_id(), 2);
    let report = game.tick(&empty_frame(16));
    assert_eq!(report.enemy_ids, vec![Some(2), Some(4), Some(6), Some(8)]);
    assert_eq!(game.registry.next_id(), 10);
    game.tick(&empty_frame(16));
    assert_eq!(game.registry.next_id(), 10);
}

#[test]
fn enemies_are_spawned_in_the_order_of_their_plans() {
    let mut registry = Registry::new();
    let plans = vec![
        plan(vec![ElementInfo::Iron, ElementInfo::Uranium]),
        plan(vec![]),
        plan(vec![ElementInfo::Thorium]),
    ];
    let ids = spawn_enemies(&mut registry, &plans);
    assert_eq!(ids, vec![Some(0), None, Some(3)]);
    assert_eq!(registry.len(), 2);
    assert_eq!(registry.next_id(), 5);
    assert_eq!(registry.molecule(0).unwrap().atoms.len(), 2);
    assert_eq!(registry.molecule(3).unwrap().atoms[0].element, ElementInfo::Thorium);
    assert_eq!(registry.count_side(Side::Enemy), 2);
}
