//! Damage: what projectiles and body contact do to atoms, and what becomes of
//! atoms whose health is used up.

use vstd::prelude::*;
use crate::collision::CollisionEvent;
use crate::energy::{Energy, KILL_REWARD};
use crate::molecule::{
    Atom, BuildMolecule, MoleculeView, Side, atom_place, is_first_owner, with_damage,
};
use crate::registry::Registry;

verus! {

/// Damage of one projectile: an eighth of 100 health points, whatever the
/// target's own maximum is. In tenths of a point.
pub const BULLET_DAMAGE: u32 = 125;

/// Damage that an atom of the player takes in each tick in which it touches an
/// atom of an enemy. In tenths of a point.
pub const CONTACT_DAMAGE: u32 = 10;

/// A projectile, by the side that fired it.
#[derive(Clone, Copy, Debug, PartialEq, Eq, Structural)]
pub enum Bullet {
    FromPlayer,
    FromEnemy,
}

impl Bullet {
    /// Key of the picture that shows the projectile.
    pub open spec fn spec_image_path(&self) -> Seq<char> {
        match self {
            Bullet::FromPlayer => "PlayerBullet.png"@,
            Bullet::FromEnemy => "EnemyBullet.png"@,
        }
    }

    pub fn image_path(&self) -> (path: &'static str)
        ensures
            path@ == self.spec_image_path(),
    {
        match self {
            Bullet::FromPlayer => "PlayerBullet.png",
            Bullet::FromEnemy => "EnemyBullet.png",
        }
    }

    /// A projectile harms only the other side: there is no friendly fire.
    pub open spec fn spec_harms(&self, side: Side) -> bool {
        match (*self, side) {
            (Bullet::FromPlayer, Side::Enemy) => true,
            (Bullet::FromEnemy, Side::Player) => true,
            _ => false,
        }
    }

    #[verifier::when_used_as_spec(spec_harms)]
    pub fn harms(&self, side: Side) -> (hit: bool)
        ensures
            hit == self.spec_harms(side),
    {
        match (*self, side) {
            (Bullet::FromPlayer, Side::Enemy) => true,
            (Bullet::FromEnemy, Side::Player) => true,
            _ => false,
        }
    }
}

/// The molecules and the projectiles used up so far, after one more contact of
/// a projectile with an atom was looked at. The contact does something only
/// where the projectile is not used up yet, the atom is still there and belongs
/// to the other side: then the atom loses `BULLET_DAMAGE` and the projectile is
/// used up.
pub open spec fn after_bullet(
    molecules: Seq<MoleculeView>,
    spent: Seq<u64>,
    bullet: u64,
    kind: Bullet,
    atom: u64,
) -> (Seq<MoleculeView>, Seq<u64>) {
    if spent.contains(bullet) {
        (molecules, spent)
    } else {
        match atom_place(molecules, atom) {
            Some((k, j)) => if kind.spec_harms(molecules[k].side) {
                (with_damage(molecules, k, j, BULLET_DAMAGE), spent.push(bullet))
            } else {
                (molecules, spent)
            },
            None => (molecules, spent),
        }
    }
}

/// The molecules and the used-up projectiles after all contacts of a tick,
/// looked at first to last.
pub open spec fn after_bullets<T>(
    molecules: Seq<MoleculeView>,
    events: Seq<CollisionEvent<Bullet, T>>,
) -> (Seq<MoleculeView>, Seq<u64>)
    decreases events.len(),
{
    if events.len() == 0 {
        (molecules, Seq::empty())
    } else {
        let before = after_bullets(molecules, events.drop_last());
        let event = events.last();
        after_bullet(before.0, before.1, event.a_id, event.a_comp, event.b_id)
    }
}

/// The molecules after one contact of two atoms was looked at: the first atom
/// loses `CONTACT_DAMAGE` where it belongs to the player and the second does
/// not. Where either atom is gone, nothing happens.
pub open spec fn after_contact(molecules: Seq<MoleculeView>, first: u64, second: u64) -> Seq<
    MoleculeView,
> {
    match (atom_place(molecules, first), atom_place(molecules, second)) {
        (Some((k, j)), Some((other, _))) => if molecules[k].side == Side::Player
            && molecules[other].side != Side::Player {
            with_damage(molecules, k, j, CONTACT_DAMAGE)
        } else {
            molecules
        },
        _ => molecules,
    }
}

/// The molecules after all contacts of atoms of a tick, looked at first to
/// last.
pub open spec fn after_contacts<A, B>(
    molecules: Seq<MoleculeView>,
    events: Seq<CollisionEvent<A, B>>,
) -> Seq<MoleculeView>
    decreases events.len(),
{
    if events.len() == 0 {
        molecules
    } else {
        after_contact(
            after_contacts(molecules, events.drop_last()),
            events.last().a_id,
            events.last().b_id,
        )
    }
}

/// The requests to take away the used-up atoms among `atoms`, in their order.
pub open spec fn requests_in(molecule: u64, atoms: Seq<Atom>) -> Seq<BuildMolecule>
    decreases atoms.len(),
{
    if atoms.len() == 0 {
        Seq::empty()
    } else if atoms.last().health.spec_is_depleted() {
        requests_in(molecule, atoms.drop_last()).push(
            BuildMolecule::RemoveAtom { target: molecule, atom: atoms.last().id },
        )
    } else {
        requests_in(molecule, atoms.drop_last())
    }
}

/// The requests to take away every atom whose health is zero or less, molecule
/// by molecule.
pub open spec fn removal_requests(molecules: Seq<MoleculeView>) -> Seq<BuildMolecule>
    decreases molecules.len(),
{
    if molecules.len() == 0 {
        Seq::empty()
    } else {
        removal_requests(molecules.drop_last()) + requests_in(
            molecules.last().id,
            molecules.last().atoms,
        )
    }
}

/// Number of atoms of enemies whose health is zero or less.
pub open spec fn kills(molecules: Seq<MoleculeView>) -> nat
    decreases molecules.len(),
{
    if molecules.len() == 0 {
        0
    } else if molecules.last().side == Side::Enemy {
        kills(molecules.drop_last()) + requests_in(molecules.last().id, molecules.last().atoms).len()
    } else {
        kills(molecules.drop_last())
    }
}

/// A projectile that meets an atom of the side that fired it does nothing:
/// no health changes and the projectile is not used up.
pub proof fn lemma_no_friendly_fire(
    molecules: Seq<MoleculeView>,
    spent: Seq<u64>,
    bullet: u64,
    kind: Bullet,
    atom: u64,
)
    requires
        atom_place(molecules, atom).is_some(),
        !kind.spec_harms(molecules[atom_place(molecules, atom).unwrap().0].side),
    ensures
        after_bullet(molecules, spent, bullet, kind, atom) == (molecules, spent),
{
}

/// A projectile that is not used up and meets an atom of the other side
/// takes exactly `BULLET_DAMAGE` from the health of that atom and is used up.
/// The atom keeps its id, kind, maximum and place, and nothing else changes.
pub proof fn lemma_hit_takes_flat_damage(
    molecules: Seq<MoleculeView>,
    spent: Seq<u64>,
    bullet: u64,
    kind: Bullet,
    atom: u64,
)
    requires
        !spent.contains(bullet),
        atom_place(molecules, atom).is_some(),
        kind.spec_harms(molecules[atom_place(molecules, atom).unwrap().0].side),
        molecules[atom_place(molecules, atom).unwrap().0].atoms[atom_place(
            molecules,
            atom,
        ).unwrap().1].health.health - BULLET_DAMAGE >= i64::MIN,
    ensures
        ({
            let (k, j) = atom_place(molecules, atom).unwrap();
            let (after, used) = after_bullet(molecules, spent, bullet, kind, atom);
            &&& 0 <= k < molecules.len()
            &&& 0 <= j < molecules[k].atoms.len()
            &&& molecules[k].atoms[j].id == atom
            &&& used == spent.push(bullet)
            &&& used.contains(bullet)
            &&& after.len() == molecules.len()
            &&& after[k].atoms.len() == molecules[k].atoms.len()
            &&& after[k].atoms[j].health.health == molecules[k].atoms[j].health.health - BULLET_DAMAGE
            &&& after[k].atoms[j].health.max_health == molecules[k].atoms[j].health.max_health
            &&& after[k].atoms[j].id == molecules[k].atoms[j].id
            &&& after[k].atoms[j].element == molecules[k].atoms[j].element
            &&& after[k].atoms[j].offset == molecules[k].atoms[j].offset
            &&& forall|i: int| 0 <= i < molecules.len() && i != k ==> after[i] == molecules[i]
            &&& forall|i: int|
                0 <= i < molecules[k].atoms.len() && i != j ==> after[k].atoms[i] == molecules[k].atoms[i]
        }),
{
    assert(spent.push(bullet)[spent.len() as int] == bullet);
    let k = choose|k: int| is_first_owner(molecules, atom, k);
    assert(is_first_owner(molecules, atom, k));
}

fn is_spent(spent: &Vec<u64>, bullet: u64) -> (found: bool)
    ensures
        found == spent@.contains(bullet),
{
    let mut i: usize = 0;
    while i < spent.len()
        invariant
            i <= spent@.len(),
            forall|j: int| 0 <= j < i ==> spent@[j] != bullet,
        decreases spent@.len() - i,
    {
        if spent[i] == bullet {
            return true;
        }
        i = i + 1;
    }
    false
}

/// Lets the projectiles of one tick do their damage and returns those that
/// are used up, in the order in which they hit. A projectile takes effect at
/// most once.
pub fn bullet_hit_system<T>(registry: &mut Registry, events: &Vec<CollisionEvent<Bullet, T>>) -> (spent:
    Vec<u64>)
    requires
        old(registry).wf(),
    ensures
        final(registry).wf(),
        final(registry).spec_next_id() == old(registry).spec_next_id(),
        (final(registry)@, spent@) == after_bullets(old(registry)@, events@),
{
    let mut spent: Vec<u64> = Vec::new();
    let mut i: usize = 0;
    while i < events.len()
        invariant
            i <= events@.len(),
            registry.wf(),
            registry.spec_next_id() == old(registry).spec_next_id(),
            (registry@, spent@) == after_bullets(old(registry)@, events@.take(i as int)),
        decreases events@.len() - i,
    {
        proof {
            assert(events@.take(i + 1).drop_last() =~= events@.take(i as int));
        }
        let bullet: u64 = events[i].a_id;
        let kind: Bullet = events[i].a_comp;
        if !is_spent(&spent, bullet) {
            if let Some((k, j)) = registry.find_atom(events[i].b_id) {
                if kind.harms(registry.get(k).side) {
                    registry.damage_atom(k, j, BULLET_DAMAGE);
                    spent.push(bullet);
                }
            }
        }
        i = i + 1;
    }
    proof {
        assert(events@.take(i as int) =~= events@);
    }
    spent
}

/// Lets the contacts between atoms of one tick do their damage.
pub fn enemy_player_damage_system<A, B>(registry: &mut Registry, events: &Vec<CollisionEvent<A, B>>)
    requires
        old(registry).wf(),
    ensures
        final(registry).wf(),
        final(registry).spec_next_id() == old(registry).spec_next_id(),
        final(registry)@ == after_contacts(old(registry)@, events@),
{
    let mut i: usize = 0;
    while i < events.len()
        invariant
            i <= events@.len(),
            registry.wf(),
            registry.spec_next_id() == old(registry).spec_next_id(),
            registry@ == after_contacts(old(registry)@, events@.take(i as int)),
        decreases events@.len() - i,
    {
        proof {
            assert(events@.take(i + 1).drop_last() =~= events@.take(i as int));
        }
        if let Some((k, j)) = registry.find_atom(events[i].a_id) {
            if let Some((other, _)) = registry.find_atom(events[i].b_id) {
                let a_is_player: bool = registry.get(k).side == Side::Player;
                let b_is_player: bool = registry.get(other).side == Side::Player;
                if a_is_player && !b_is_player {
                    registry.damage_atom(k, j, CONTACT_DAMAGE);
                }
            }
        }
        i = i + 1;
    }
    proof {
        assert(events@.take(i as int) =~= events@);
    }
}

/// Looks once at every atom and asks for each whose health is zero or less to
/// be taken away; each such atom of an enemy brings `KILL_REWARD`.
pub fn molecule_health_system(registry: &Registry, energy: &mut Energy) -> (requests: Vec<BuildMolecule>)
    ensures
        requests@ == removal_requests(registry@),
        *final(energy) == old(energy).gained(KILL_REWARD * kills(registry@)),
{
    let mut requests: Vec<BuildMolecule> = Vec::new();
    let mut k: usize = 0;
    while k < registry.len()
        invariant
            k <= registry@.len(),
            requests@ == removal_requests(registry@.take(k as int)),
            *energy == old(energy).gained(KILL_REWARD * kills(registry@.take(k as int))),
        decreases registry@.len() - k,
    {
        let molecule = registry.get(k);
        let ghost before = requests@;
        let ghost energy_before = *energy;
        let mut j: usize = 0;
        proof {
            assert(registry@.take(k + 1).drop_last() =~= registry@.take(k as int));
        }
        while j < molecule.atoms.len()
            invariant
                j <= molecule.atoms@.len(),
                requests@ == before + requests_in(molecule.id, molecule.atoms@.take(j as int)),
                *energy == energy_before.gained(
                    if molecule.side == Side::Enemy {
                        KILL_REWARD * requests_in(molecule.id, molecule.atoms@.take(j as int)).len()
                    } else {
                        0
                    },
                ),
            decreases molecule.atoms@.len() - j,
        {
            proof {
                assert(molecule.atoms@.take(j + 1).drop_last() =~= molecule.atoms@.take(j as int));
            }
            if molecule.atoms[j].health.is_depleted() {
                requests.push(BuildMolecule::RemoveAtom { target: molecule.id, atom: molecule.atoms[j].id });
                if molecule.side == Side::Enemy {
                    energy.award_kill();
                }
            }
            proof {
                assert(requests@ =~= before + requests_in(
                    molecule.id,
                    molecule.atoms@.take(j + 1),
                ));
            }
            j = j + 1;
        }
        proof {
            assert(molecule.atoms@.take(j as int) =~= molecule.atoms@);
        }
        k = k + 1;
    }
    proof {
        assert(registry@.take(k as int) =~= registry@);
    }
    requests
}

} // verus!
