//! Molecules and the registry that owns them.
//!
//! A molecule owns an ordered list of atoms. Whenever the list changes, every
//! atom is given the place that the polygon of the new number of atoms has for
//! its position in the list. A molecule never has zero atoms: taking its last
//! atom takes the molecule with it.

use vstd::prelude::*;
use crate::elements::ElementInfo;
use crate::health::Health;
use crate::layout::{polygon, polygon_slot, molecule_radius, radius_of, Offset};

verus! {

/// Whose molecule it is.
#[derive(Clone, Copy, Debug, PartialEq, Eq, Structural)]
pub enum Side {
    Player,
    Enemy,
}

/// One destructible part of a molecule.
#[derive(Clone, Copy, Debug, PartialEq, Eq, Structural)]
pub struct Atom {
    pub id: u64,
    pub element: ElementInfo,
    pub health: Health,
    pub offset: Offset,
}

/// A creature made of one or more atoms.
#[derive(Debug)]
pub struct Molecule {
    pub id: u64,
    pub side: Side,
    pub atoms: Vec<Atom>,
}

/// What a molecule is, as a value.
pub struct MoleculeView {
    pub id: u64,
    pub side: Side,
    pub atoms: Seq<Atom>,
}

impl View for Molecule {
    type V = MoleculeView;

    open spec fn view(&self) -> MoleculeView {
        MoleculeView { id: self.id, side: self.side, atoms: self.atoms@ }
    }
}

/// What became of a request to take an atom away.
#[derive(Clone, Copy, Debug, PartialEq, Eq, Structural)]
pub enum Removal {
    /// The molecule or the atom was not there; nothing changed.
    Absent,
    /// The atom is gone and the others were placed anew.
    AtomRemoved,
    /// The atom was the last one: the molecule is gone with it.
    MoleculeDespawned,
}

/// A request to change a molecule.
#[derive(Debug)]
pub enum BuildMolecule {
    Create { side: Side, elements: Vec<ElementInfo> },
    Add { target: u64, element: ElementInfo },
    RemoveAtom { target: u64, atom: u64 },
}

/// An atom as it is made: with the full health of its kind.
pub open spec fn fresh_atom(id: u64, element: ElementInfo, offset: Offset) -> Atom {
    Atom {
        id,
        element,
        health: Health { health: element.spec_max_health(), max_health: element.spec_max_health() },
        offset,
    }
}

/// The atoms of a new molecule: one for each element, numbered from `first_id`.
pub open spec fn fresh_atoms(first_id: int, elements: Seq<ElementInfo>) -> Seq<Atom> {
    Seq::new(
        elements.len(),
        |i: int| fresh_atom((first_id + i) as u64, elements[i], polygon_slot(elements.len() as int, i)),
    )
}

/// The same atoms in the same order, each at the place that the polygon of
/// their number has for its position.
pub open spec fn relayout(atoms: Seq<Atom>) -> Seq<Atom> {
    Seq::new(
        atoms.len(),
        |i: int|
            Atom {
                id: atoms[i].id,
                element: atoms[i].element,
                health: atoms[i].health,
                offset: polygon_slot(atoms.len() as int, i),
            },
    )
}

/// Every atom sits at the place that the polygon of their number has for it.
pub open spec fn laid_out(atoms: Seq<Atom>) -> bool {
    forall|i: int| 0 <= i < atoms.len() ==> (#[trigger] atoms[i]).offset == polygon_slot(atoms.len() as int, i)
}

/// Position of the first molecule with the given id, if there is one.
pub open spec fn molecule_index(molecules: Seq<MoleculeView>, id: u64) -> Option<int> {
    if exists|k: int| is_first_molecule(molecules, id, k) {
        Some(choose|k: int| is_first_molecule(molecules, id, k))
    } else {
        None
    }
}

/// `k` is the position of the first molecule with the given id.
pub open spec fn is_first_molecule(molecules: Seq<MoleculeView>, id: u64, k: int) -> bool {
    &&& 0 <= k < molecules.len()
    &&& molecules[k].id == id
    &&& forall|j: int| 0 <= j < k ==> (#[trigger] molecules[j]).id != id
}

/// Position of the first atom with the given id, if there is one.
pub open spec fn atom_index(atoms: Seq<Atom>, id: u64) -> Option<int> {
    if exists|k: int| is_first_atom(atoms, id, k) {
        Some(choose|k: int| is_first_atom(atoms, id, k))
    } else {
        None
    }
}

/// `k` is the position of the first atom with the given id.
pub open spec fn is_first_atom(atoms: Seq<Atom>, id: u64, k: int) -> bool {
    &&& 0 <= k < atoms.len()
    &&& atoms[k].id == id
    &&& forall|j: int| 0 <= j < k ==> (#[trigger] atoms[j]).id != id
}

/// `k` is the position of the first molecule that holds an atom with the given
/// id.
pub open spec fn is_first_owner(molecules: Seq<MoleculeView>, atom: u64, k: int) -> bool {
    &&& 0 <= k < molecules.len()
    &&& atom_index(molecules[k].atoms, atom).is_some()
    &&& forall|j: int| 0 <= j < k ==> atom_index((#[trigger] molecules[j]).atoms, atom).is_none()
}

/// Where the atom with the given id is: the position of its molecule and its
/// own position in it. None where no molecule holds such an atom.
pub open spec fn atom_place(molecules: Seq<MoleculeView>, atom: u64) -> Option<(int, int)> {
    if exists|k: int| is_first_owner(molecules, atom, k) {
        let k = choose|k: int| is_first_owner(molecules, atom, k);
        Some((k, atom_index(molecules[k].atoms, atom).unwrap()))
    } else {
        None
    }
}

/// The molecules after the atom at position `j` of the molecule at position `k`
/// took damage of `amount`.
pub open spec fn with_damage(molecules: Seq<MoleculeView>, k: int, j: int, amount: u32) -> Seq<
    MoleculeView,
> {
    let hit = molecules[k].atoms[j];
    molecules.update(
        k,
        MoleculeView {
            id: molecules[k].id,
            side: molecules[k].side,
            atoms: molecules[k].atoms.update(
                j,
                Atom {
                    id: hit.id,
                    element: hit.element,
                    health: hit.health.damaged(amount),
                    offset: hit.offset,
                },
            ),
        },
    )
}

/// The molecule with the given id, if there is one.
pub open spec fn lookup(molecules: Seq<MoleculeView>, id: u64) -> Option<MoleculeView> {
    match molecule_index(molecules, id) {
        Some(k) => Some(molecules[k]),
        None => None,
    }
}

/// The molecules after one with the given elements was created under the id
/// `next_id`; its atoms take the ids that follow.
pub open spec fn with_molecule(
    molecules: Seq<MoleculeView>,
    next_id: u64,
    side: Side,
    elements: Seq<ElementInfo>,
) -> Seq<MoleculeView> {
    molecules.push(MoleculeView { id: next_id, side, atoms: fresh_atoms(next_id + 1, elements) })
}

/// The molecules after the one at position `k` was given a new last atom.
pub open spec fn with_atom(
    molecules: Seq<MoleculeView>,
    k: int,
    atom_id: u64,
    element: ElementInfo,
) -> Seq<MoleculeView> {
    let count = molecules[k].atoms.len() as int;
    let grown = molecules[k].atoms.push(fresh_atom(atom_id, element, polygon_slot(count + 1, count)));
    molecules.update(
        k,
        MoleculeView { id: molecules[k].id, side: molecules[k].side, atoms: relayout(grown) },
    )
}

/// The position that is really removed when `index` is asked for: `index` itself,
/// or the last position where `index` lies beyond it.
pub open spec fn clamped(index: int, len: int) -> int {
    if index >= len {
        len - 1
    } else {
        index
    }
}

/// The molecules after the atom at position `j` of the molecule at position `k`
/// was taken away: without the molecule if that was its only atom, else with
/// the atoms that are left, in their order, placed anew.
pub open spec fn without_atom(molecules: Seq<MoleculeView>, k: int, j: int) -> Seq<MoleculeView> {
    if molecules[k].atoms.len() == 1 {
        molecules.remove(k)
    } else {
        molecules.update(
            k,
            MoleculeView {
                id: molecules[k].id,
                side: molecules[k].side,
                atoms: relayout(molecules[k].atoms.remove(j)),
            },
        )
    }
}

/// The molecules after the atom with the id `atom` was asked to be taken from
/// the molecule with the id `molecule`: unchanged where either is not there.
pub open spec fn after_removal(molecules: Seq<MoleculeView>, molecule: u64, atom: u64) -> Seq<
    MoleculeView,
> {
    match molecule_index(molecules, molecule) {
        Some(k) => match atom_index(molecules[k].atoms, atom) {
            Some(j) => without_atom(molecules, k, j),
            None => molecules,
        },
        None => molecules,
    }
}

/// What such a request reports.
pub open spec fn removal_outcome(molecules: Seq<MoleculeView>, molecule: u64, atom: u64) -> Removal {
    match molecule_index(molecules, molecule) {
        Some(k) => match atom_index(molecules[k].atoms, atom) {
            Some(j) => if molecules[k].atoms.len() == 1 {
                Removal::MoleculeDespawned
            } else {
                Removal::AtomRemoved
            },
            None => Removal::Absent,
        },
        None => Removal::Absent,
    }
}

/// A molecule can be created from these elements: there is at least one, and
/// ids are left for the molecule and each atom.
pub open spec fn can_create(next_id: u64, elements: Seq<ElementInfo>) -> bool {
    elements.len() > 0 && next_id + elements.len() < u64::MAX
}

/// An atom can be added to the molecule with the id `target`: the molecule is
/// there, an id is left, and so is a position in its list.
pub open spec fn can_add(molecules: Seq<MoleculeView>, next_id: u64, target: u64) -> bool {
    &&& molecule_index(molecules, target).is_some()
    &&& next_id < u64::MAX
    &&& molecules[molecule_index(molecules, target).unwrap()].atoms.len() < usize::MAX
}

/// The molecules and the next free id after one request was carried out.
pub open spec fn applied(molecules: Seq<MoleculeView>, next_id: u64, event: BuildMolecule) -> (
    Seq<MoleculeView>,
    u64,
) {
    match event {
        BuildMolecule::Create { side, elements } => if can_create(next_id, elements@) {
            (
                with_molecule(molecules, next_id, side, elements@),
                (next_id + 1 + elements@.len()) as u64,
            )
        } else {
            (molecules, next_id)
        },
        BuildMolecule::Add { target, element } => if can_add(molecules, next_id, target) {
            (
                with_atom(molecules, molecule_index(molecules, target).unwrap(), next_id, element),
                (next_id + 1) as u64,
            )
        } else {
            (molecules, next_id)
        },
        BuildMolecule::RemoveAtom { target, atom } => (after_removal(molecules, target, atom), next_id),
    }
}

/// The id that carrying out the request gives out: that of the new molecule or
/// atom, if one was made.
pub open spec fn granted(molecules: Seq<MoleculeView>, next_id: u64, event: BuildMolecule) -> Option<
    u64,
> {
    match event {
        BuildMolecule::Create { side, elements } => if can_create(next_id, elements@) {
            Some(next_id)
        } else {
            None
        },
        BuildMolecule::Add { target, element } => if can_add(molecules, next_id, target) {
            Some(next_id)
        } else {
            None
        },
        BuildMolecule::RemoveAtom { target, atom } => None,
    }
}

/// The molecules and the next free id after the requests were carried out one
/// after the other, first to last.
pub open spec fn applied_all(
    molecules: Seq<MoleculeView>,
    next_id: u64,
    events: Seq<BuildMolecule>,
) -> (Seq<MoleculeView>, u64)
    decreases events.len(),
{
    if events.len() == 0 {
        (molecules, next_id)
    } else {
        let before = applied_all(molecules, next_id, events.drop_last());
        applied(before.0, before.1, events.last())
    }
}

/// The molecules of the player among `molecules`, in their order.
pub open spec fn players_only(molecules: Seq<MoleculeView>) -> Seq<MoleculeView>
    decreases molecules.len(),
{
    if molecules.len() == 0 {
        Seq::empty()
    } else if molecules.last().side == Side::Player {
        players_only(molecules.drop_last()).push(molecules.last())
    } else {
        players_only(molecules.drop_last())
    }
}

/// Number of molecules of a side.
pub open spec fn count_of(molecules: Seq<MoleculeView>, side: Side) -> nat
    decreases molecules.len(),
{
    if molecules.len() == 0 {
        0
    } else if molecules.last().side == side {
        count_of(molecules.drop_last(), side) + 1
    } else {
        count_of(molecules.drop_last(), side)
    }
}

/// The atom has the maximum health of its kind and no more health than that.
pub open spec fn intact(atom: Atom) -> bool {
    &&& atom.health.max_health == atom.element.spec_max_health()
    &&& atom.health.health <= atom.health.max_health
}

/// What holds of the molecules of a registry whose next free id is `next_id`.
pub open spec fn well_formed(molecules: Seq<MoleculeView>, next_id: u64) -> bool {
    &&& forall|i: int| 0 <= i < molecules.len() ==> 1 <= (#[trigger] molecules[i]).atoms.len() <= usize::MAX
    &&& forall|i: int| 0 <= i < molecules.len() ==> laid_out((#[trigger] molecules[i]).atoms)
    &&& forall|i: int| 0 <= i < molecules.len() ==> (#[trigger] molecules[i]).id < next_id
    &&& forall|i: int, j: int|
        0 <= i < molecules.len() && 0 <= j < molecules[i].atoms.len() ==> (#[trigger] molecules[i].atoms[j]).id
            < next_id
    &&& forall|i: int, j: int|
        0 <= i < molecules.len() && 0 <= j < molecules[i].atoms.len() ==> intact(
            #[trigger] molecules[i].atoms[j],
        )
    &&& forall|i: int, j: int|
        0 <= i < j < molecules.len() ==> (#[trigger] molecules[i]).id != (#[trigger] molecules[j]).id
    &&& forall|i: int, j: int, k: int, l: int|
        0 <= i < molecules.len() && 0 <= j < molecules[i].atoms.len() && 0 <= k < molecules.len() && 0 <= l
            < molecules[k].atoms.len() && (i != k || j != l) ==> (#[trigger] molecules[i].atoms[j]).id != (
        #[trigger] molecules[k].atoms[l]).id
    &&& forall|i: int, k: int, l: int|
        0 <= i < molecules.len() && 0 <= k < molecules.len() && 0 <= l < molecules[k].atoms.len() ==> (
        #[trigger] molecules[i]).id != (#[trigger] molecules[k].atoms[l]).id
}

impl Molecule {
    /// Radius of the molecule in collisions.
    pub fn collision_radius(&self) -> (radius: u128)
        ensures
            radius == molecule_radius(self.atoms@.len() as int),
    {
        radius_of(self.atoms.len())
    }

    /// Position of the first atom with the given id.
    pub fn find_atom(&self, atom: u64) -> (found: Option<usize>)
        ensures
            match found {
                Some(k) => atom_index(self.atoms@, atom) == Some(k as int),
                None => atom_index(self.atoms@, atom).is_none(),
            },
            found.is_some() ==> is_first_atom(self.atoms@, atom, found.unwrap() as int),
    {
        let mut k: usize = 0;
        while k < self.atoms.len()
            invariant
                k <= self.atoms@.len(),
                forall|j: int| 0 <= j < k ==> (#[trigger] self.atoms@[j]).id != atom,
            decreases self.atoms@.len() - k,
        {
            if self.atoms[k].id == atom {
                proof {
                    lemma_first_atom_is_unique(self.atoms@, atom, k as int);
                }
                return Some(k);
            }
            k = k + 1;
        }
        None
    }
}

/// At most one position is that of the first atom with a given id.
pub proof fn lemma_first_atom_is_unique(atoms: Seq<Atom>, id: u64, k: int)
    requires
        is_first_atom(atoms, id, k),
    ensures
        atom_index(atoms, id) == Some(k),
{
    let c = choose|c: int| is_first_atom(atoms, id, c);
    assert(c == k);
}

/// At most one position is that of the first molecule that holds a given atom.
pub proof fn lemma_first_owner_is_unique(molecules: Seq<MoleculeView>, atom: u64, k: int)
    requires
        is_first_owner(molecules, atom, k),
    ensures
        atom_place(molecules, atom) == Some((k, atom_index(molecules[k].atoms, atom).unwrap())),
{
    let c = choose|c: int| is_first_owner(molecules, atom, c);
    assert(c == k);
}

/// At most one position is that of the first molecule with a given id.
pub proof fn lemma_first_molecule_is_unique(molecules: Seq<MoleculeView>, id: u64, k: int)
    requires
        is_first_molecule(molecules, id, k),
    ensures
        molecule_index(molecules, id) == Some(k),
{
    let c = choose|c: int| is_first_molecule(molecules, id, c);
    assert(c == k);
}

/// Taking the only atom of a molecule despawns the molecule: looking it up
/// afterwards finds nothing.
pub proof fn lemma_removing_only_atom_despawns(
    molecules: Seq<MoleculeView>,
    next_id: u64,
    molecule: u64,
    atom: u64,
)
    requires
        well_formed(molecules, next_id),
        lookup(molecules, molecule).is_some(),
        lookup(molecules, molecule).unwrap().atoms.len() == 1,
        lookup(molecules, molecule).unwrap().atoms[0].id == atom,
    ensures
        removal_outcome(molecules, molecule, atom) == Removal::MoleculeDespawned,
        lookup(after_removal(molecules, molecule, atom), molecule).is_none(),
{
    let k = molecule_index(molecules, molecule).unwrap();
    lemma_first_atom_is_unique(molecules[k].atoms, atom, 0);
    assert(after_removal(molecules, molecule, atom) == molecules.remove(k));
}

/// Taking one atom from a molecule of more than one leaves the molecule with
/// one atom less: the other atoms as they were and in their order, each at the
/// place that the polygon of the new number has for its new position, and no
/// two of them at the same place.
pub proof fn lemma_removing_one_atom_relays(
    molecules: Seq<MoleculeView>,
    next_id: u64,
    molecule: u64,
    atom: u64,
)
    requires
        well_formed(molecules, next_id),
        lookup(molecules, molecule).is_some(),
        lookup(molecules, molecule).unwrap().atoms.len() > 1,
        atom_index(lookup(molecules, molecule).unwrap().atoms, atom).is_some(),
    ensures
        removal_outcome(molecules, molecule, atom) == Removal::AtomRemoved,
        lookup(after_removal(molecules, molecule, atom), molecule).is_some(),
        ({
            let before = lookup(molecules, molecule).unwrap().atoms;
            let after = lookup(after_removal(molecules, molecule, atom), molecule).unwrap().atoms;
            let gone = atom_index(before, atom).unwrap();
            &&& 0 <= gone < before.len()
            &&& before[gone].id == atom
            &&& after.len() == before.len() - 1
            &&& forall|i: int|
                0 <= i < after.len() ==> {
                    let from = if i < gone { i } else { i + 1 };
                    &&& (#[trigger] after[i]).id == before[from].id
                    &&& after[i].element == before[from].element
                    &&& after[i].health == before[from].health
                    &&& after[i].offset == polygon(after.len() as int)[i]
                }
            &&& forall|i: int, j: int|
                0 <= i < j < after.len() ==> (#[trigger] after[i]).offset != (#[trigger] after[j]).offset
        }),
{
    let k = molecule_index(molecules, molecule).unwrap();
    let changed = after_removal(molecules, molecule, atom);
    assert(is_first_molecule(changed, molecule, k));
    lemma_first_molecule_is_unique(changed, molecule, k);
}

} // verus!
