use atomic_warfare::elements::ElementInfo;
use atomic_warfare::health::Health;
use atomic_warfare::layout::{create_polygon, radius_of, slot, Offset};
use atomic_warfare::molecule::{BuildMolecule, Removal, Side};
use atomic_warfare::registry::{build_molecules_system, cleanup_system, Registry};

fn offsets_of(registry: &Registry, id: u64) -> Vec<Offset> {
    registry.molecule(id).unwrap().atoms.iter().map(|atom| atom.offset).collect()
}

#[test]
fn polygon_has_one_place_for_each_atom() {
    for points in [1usize, 2, 4, 6] {
        let places = create_polygon(points);
        assert_eq!(places.len(), points);
        assert_eq!(places, create_polygon(points));
        for (index, place) in places.iter().enumerate() {
            assert_eq!(place.step, index);
            assert_eq!(place.steps, points);
        }
    }
    assert!(create_polygon(0).is_empty());
}

#[test]
fn polygon_start_points_follow_the_shapes() {
    assert_eq!(create_polygon(1)[0], Offset { start_x: 0, start_y: 0, step: 0, steps: 1 });
    assert_eq!(create_polygon(2)[1], Offset { start_x: -56, start_y: 0, step: 1, steps: 2 });
    assert_eq!(create_polygon(4)[3], Offset { start_x: 64, start_y: 64, step: 3, steps: 4 });
    assert_eq!(create_polygon(3)[2], Offset { start_x: 0, start_y: 72, step: 2, steps: 3 });
    assert_eq!(create_polygon(6)[5], Offset { start_x: 0, start_y: 144, step: 5, steps: 6 });
    assert_eq!(slot(5, 0), Offset { start_x: 0, start_y: 120, step: 0, steps: 5 });
}

#[test]
fn polygon_places_are_pairwise_different() {
    for points in [2usize, 3, 4, 6, 9] {
        let places = create_polygon(points);
        for i in 0..points {
            for j in (i + 1)..points {
                assert_ne!(places[i], places[j]);
            }
        }
    }
}

#[test]
fn molecule_radius_is_hand_tuned_for_small_molecules() {
    assert_eq!(radius_of(1), 56);
    assert_eq!(radius_of(2), 80);
    assert_eq!(radius_of(3), 96);
    assert_eq!(radius_of(4), 88);
    assert_eq!(radius_of(6), 168);
    assert_eq!(radius_of(usize::MAX), 24 * (usize::MAX as u128) + 24);
}

#[test]
fn create_builds_one_fresh_atom_for_each_element() {
    let mut registry = Registry::new();
    let elements = vec![ElementInfo::Hydrogen, ElementInfo::Iron, ElementInfo::Thorium];
    let id = registry.create(Side::Enemy, &elements).unwrap();
    assert_eq!(id, 0);
    assert_eq!(registry.next_id(), 4);
    let molecule = registry.molecule(id).unwrap();
    assert_eq!(molecule.side, Side::Enemy);
    assert_eq!(molecule.atoms.len(), 3);
    assert_eq!(molecule.collision_radius(), 96);
    for (i, atom) in molecule.atoms.iter().enumerate() {
        assert_eq!(atom.id, 1 + i as u64);
        assert_eq!(atom.element, elements[i]);
        assert_eq!(atom.health, Health::new(elements[i].max_health()));
        assert_eq!(atom.offset, create_polygon(3)[i]);
    }
    assert_eq!(molecule.atoms[1].health.health, 3000);
}

#[test]
fn create_refuses_an_empty_list() {
    let mut registry = Registry::new();
    assert_eq!(registry.create(Side::Player, &Vec::new()), None);
    assert_eq!(registry.len(), 0);
    assert_eq!(registry.next_id(), 0);
}

#[test]
fn add_atom_places_every_atom_anew() {
    let mut registry = Registry::new();
    let id = registry.create(Side::Player, &vec![ElementInfo::Uranium]).unwrap();
    assert_eq!(offsets_of(&registry, id), create_polygon(1));
    let added = registry.add_atom(id, ElementInfo::Iron).unwrap();
    assert_eq!(added, 2);
    assert_eq!(offsets_of(&registry, id), create_polygon(2));
    registry.add_atom(id, ElementInfo::Thorium).unwrap();
    registry.add_atom(id, ElementInfo::Hydrogen).unwrap();
    assert_eq!(offsets_of(&registry, id), create_polygon(4));
    let molecule = registry.molecule(id).unwrap();
    let kinds: Vec<ElementInfo> = molecule.atoms.iter().map(|atom| atom.element).collect();
    assert_eq!(
        kinds,
        vec![ElementInfo::Uranium, ElementInfo::Iron, ElementInfo::Thorium, ElementInfo::Hydrogen]
    );
    assert_eq!(molecule.atoms[3].health.health, 1000);
    assert_eq!(molecule.collision_radius(), 88);
}

#[test]
fn add_atom_keeps_the_health_of_the_old_atoms() {
    let mut registry = Registry::new();
    let id = registry.create(Side::Player, &vec![ElementInfo::Uranium]).unwrap();
    registry.damage_atom(0, 0, 300);
    registry.add_atom(id, ElementInfo::Iron).unwrap();
    let molecule = registry.molecule(id).unwrap();
    assert_eq!(molecule.atoms[0].health, Health { health: 700, max_health: 1000 });
    assert_eq!(molecule.atoms[1].health, Health { health: 3000, max_health: 3000 });
}

#[test]
fn add_atom_to_a_missing_molecule_does_nothing() {
    let mut registry = Registry::new();
    registry.create(Side::Player, &vec![ElementInfo::Uranium]).unwrap();
    assert_eq!(registry.add_atom(77, ElementInfo::Iron), None);
    assert_eq!(registry.len(), 1);
    assert_eq!(registry.get(0).atoms.len(), 1);
    assert_eq!(registry.next_id(), 2);
}

#[test]
fn removing_the_only_atom_despawns_the_molecule() {
    let mut registry = Registry::new();
    let other = registry.create(Side::Enemy, &vec![ElementInfo::Iron]).unwrap();
    let id = registry.create(Side::Player, &vec![ElementInfo::Hydrogen]).unwrap();
    let atom = registry.molecule(id).unwrap().atoms[0].id;
    assert_eq!(registry.remove_atom(id, atom), Removal::MoleculeDespawned);
    assert!(registry.molecule(id).is_none());
    assert_eq!(registry.find(id), None);
    assert_eq!(registry.find_atom(atom), None);
    assert!(registry.molecule(other).is_some());
    assert_eq!(registry.len(), 1);
}

#[test]
fn removing_one_atom_places_the_others_anew() {
    let mut registry = Registry::new();
    let elements = vec![
        ElementInfo::Hydrogen,
        ElementInfo::Iron,
        ElementInfo::Uranium,
        ElementInfo::Thorium,
        ElementInfo::Iron,
    ];
    let id = registry.create(Side::Enemy, &elements).unwrap();
    let before: Vec<u64> = registry.molecule(id).unwrap().atoms.iter().map(|a| a.id).collect();
    assert_eq!(registry.remove_atom(id, before[1]), Removal::AtomRemoved);
    let molecule = registry.molecule(id).unwrap();
    let after: Vec<u64> = molecule.atoms.iter().map(|a| a.id).collect();
    assert_eq!(after, vec![before[0], before[2], before[3], before[4]]);
    let kinds: Vec<ElementInfo> = molecule.atoms.iter().map(|a| a.element).collect();
    assert_eq!(
        kinds,
        vec![ElementInfo::Hydrogen, ElementInfo::Uranium, ElementInfo::Thorium, ElementInfo::Iron]
    );
    let places = offsets_of(&registry, id);
    assert_eq!(places, create_polygon(4));
    for i in 0..places.len() {
        for j in (i + 1)..places.len() {
            assert_ne!(places[i], places[j]);
        }
    }
}

#[test]
fn removing_a_missing_atom_does_nothing() {
    let mut registry = Registry::new();
    let id = registry.create(Side::Enemy, &vec![ElementInfo::Iron, ElementInfo::Iron]).unwrap();
    assert_eq!(registry.remove_atom(id, 99), Removal::Absent);
    assert_eq!(registry.remove_atom(99, 1), Removal::Absent);
    assert_eq!(registry.molecule(id).unwrap().atoms.len(), 2);
}

#[test]
fn remove_at_clamps_an_index_beyond_the_last_atom() {
    let mut registry = Registry::new();
    let elements = vec![ElementInfo::Hydrogen, ElementInfo::Iron, ElementInfo::Uranium];
    let id = registry.create(Side::Enemy, &elements).unwrap();
    assert_eq!(registry.remove_at(0, 17), Removal::AtomRemoved);
    let molecule = registry.molecule(id).unwrap();
    let kinds: Vec<ElementInfo> = molecule.atoms.iter().map(|a| a.element).collect();
    assert_eq!(kinds, vec![ElementInfo::Hydrogen, ElementInfo::Iron]);
    assert_eq!(offsets_of(&registry, id), create_polygon(2));
    assert_eq!(registry.remove_at(0, 0), Removal::AtomRemoved);
    assert_eq!(registry.remove_at(0, 5), Removal::MoleculeDespawned);
    assert_eq!(registry.len(), 0);
}

#[test]
fn requests_are_carried_out_in_their_order() {
    let mut registry = Registry::new();
    let events = vec![
        BuildMolecule::Create { side: Side::Player, elements: vec![ElementInfo::Uranium] },
        BuildMolecule::Add { target: 0, element: ElementInfo::Iron },
        BuildMolecule::Add { target: 5, element: ElementInfo::Iron },
        BuildMolecule::Create { side: Side::Enemy, elements: vec![] },
        BuildMolecule::RemoveAtom { target: 0, atom: 1 },
        BuildMolecule::Create { side: Side::Enemy, elements: vec![ElementInfo::Thorium] },
    ];
    build_molecules_system(&mut registry, &events);
    assert_eq!(registry.len(), 2);
    let player = registry.molecule(0).unwrap();
    assert_eq!(player.atoms.len(), 1);
    assert_eq!(player.atoms[0].id, 2);
    assert_eq!(player.atoms[0].element, ElementInfo::Iron);
    assert_eq!(player.atoms[0].offset, create_polygon(1)[0]);
    let enemy = registry.molecule(3).unwrap();
    assert_eq!(enemy.side, Side::Enemy);
    assert_eq!(enemy.atoms[0].id, 4);
    assert_eq!(registry.next_id(), 5);
}

#[test]
fn apply_tells_the_id_it_gave_out() {
    let mut registry = Registry::new();
    let create = BuildMolecule::Create { side: Side::Enemy, elements: vec![ElementInfo::Iron] };
    assert_eq!(registry.apply(&create), Some(0));
    assert_eq!(registry.apply(&BuildMolecule::Add { target: 0, element: ElementInfo::Iron }), Some(2));
    assert_eq!(registry.apply(&BuildMolecule::RemoveAtom { target: 0, atom: 2 }), None);
    assert_eq!(registry.apply(&BuildMolecule::Add { target: 9, element: ElementInfo::Iron }), None);
}

#[test]
fn cleanup_despawns_the_enemies_only() {
    let mut registry = Registry::new();
    registry.create(Side::Enemy, &vec![ElementInfo::Iron]).unwrap();
    let player = registry.create(Side::Player, &vec![ElementInfo::Uranium]).unwrap();
    registry.create(Side::Enemy, &vec![ElementInfo::Thorium, ElementInfo::Iron]).unwrap();
    assert_eq!(registry.count_side(Side::Enemy), 2);
    assert_eq!(registry.count_side(Side::Player), 1);
    cleanup_system(&mut registry);
    assert_eq!(registry.len(), 1);
    assert_eq!(registry.get(0).id, player);
    assert_eq!(registry.count_side(Side::Enemy), 0);
}

#[test]
fn elements_have_their_fixed_values() {
    assert_eq!(ElementInfo::Hydrogen.max_health(), 1000);
    assert_eq!(ElementInfo::Iron.max_health(), 3000);
    assert_eq!(ElementInfo::Uranium.max_health(), 1000);
    assert_eq!(ElementInfo::Thorium.max_health(), 2000);
    assert_eq!(ElementInfo::Hydrogen.firing_time(), 1000);
    assert_eq!(ElementInfo::Iron.firing_time(), 1000);
    assert_eq!(ElementInfo::Uranium.firing_time(), 500);
    assert_eq!(ElementInfo::Thorium.firing_time(), 200);
    assert_eq!(ElementInfo::Hydrogen.image_path(), "ElementH.png");
    assert_eq!(ElementInfo::Iron.image_path(), "ElementFe.png");
    assert_eq!(ElementInfo::Uranium.image_path(), "ElementU.png");
    assert_eq!(ElementInfo::Thorium.image_path(), "ElementTh.png");
    assert_eq!(
        ElementInfo::all(),
        vec![ElementInfo::Hydrogen, ElementInfo::Iron, ElementInfo::Uranium, ElementInfo::Thorium]
    );
}

#[test]
fn health_bar_has_eight_steps() {
    let at = |health: i64| Health { health, max_health: 1000 }.texture_index();
    assert_eq!(at(1000), 7);
    assert_eq!(at(876), 7);
    assert_eq!(at(875), 6);
    assert_eq!(at(126), 1);
    assert_eq!(at(125), 0);
    assert_eq!(at(1), 0);
    assert_eq!(at(0), -1);
    assert_eq!(at(-1), -1);
    assert_eq!(at(-124), -1);
    assert_eq!(at(-125), -2);
    assert_eq!(at(-250), -3);
    assert_eq!(Health { health: 1, max_health: 3 }.texture_index(), 2);
}

#[test]
fn damage_takes_exactly_the_amount() {
    let mut health = Health::new(1000);
    health.damage(125);
    assert_eq!(health, Health { health: 875, max_health: 1000 });
    assert!(!health.is_depleted());
    health.damage(875);
    assert!(health.is_depleted());
    health.damage(10);
    assert_eq!(health.health, -10);
    let mut low = Health { health: i64::MIN + 5, max_health: 10 };
    low.damage(6);
    assert_eq!(low.health, i64::MIN);
}
