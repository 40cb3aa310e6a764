//! The registry: the one owner of all molecules and the source of their ids.

use vstd::prelude::*;
use crate::elements::ElementInfo;
use crate::health::Health;
use crate::layout::slot;
use crate::molecule::{
    Atom, BuildMolecule, Molecule, MoleculeView, Removal, Side, after_removal, applied,
    applied_all, atom_index, atom_place, can_add, can_create, clamped, count_of, fresh_atoms,
    granted, is_first_atom, is_first_molecule, is_first_owner, lemma_first_molecule_is_unique,
    lemma_first_owner_is_unique, molecule_index, players_only, relayout, removal_outcome,
    well_formed, with_atom, with_damage, with_molecule, without_atom,
};

verus! {

/// All molecules, in the order of their creation, and the next free id.
#[derive(Debug)]
pub struct Registry {
    molecules: Vec<Molecule>,
    next_id: u64,
}

impl View for Registry {
    type V = Seq<MoleculeView>;

    closed spec fn view(&self) -> Seq<MoleculeView> {
        Seq::new(self.molecules@.len(), |i: int| self.molecules@[i]@)
    }
}

/// The atoms of `atoms` without the one at `skip`, placed anew.
fn placed_without(atoms: &Vec<Atom>, skip: usize) -> (placed: Vec<Atom>)
    requires
        skip < atoms@.len(),
    ensures
        placed@ == relayout(atoms@.remove(skip as int)),
{
    let count: usize = atoms.len() - 1;
    let ghost rest = atoms@.remove(skip as int);
    let mut placed: Vec<Atom> = Vec::new();
    let mut i: usize = 0;
    while i < count
        invariant
            i <= count,
            count == atoms@.len() - 1,
            skip < atoms@.len(),
            rest == atoms@.remove(skip as int),
            placed@.len() == i,
            forall|p: int| 0 <= p < i ==> placed@[p] == relayout(rest)[p],
        decreases count - i,
    {
        let from: usize = if i < skip { i } else { i + 1 };
        let atom = Atom {
            id: atoms[from].id,
            element: atoms[from].element,
            health: atoms[from].health,
            offset: slot(count, i),
        };
        placed.push(atom);
        i = i + 1;
    }
    placed
}

/// The atoms of `atoms` and then `last`, placed anew.
fn placed_with(atoms: &Vec<Atom>, last: Atom) -> (placed: Vec<Atom>)
    requires
        atoms@.len() < usize::MAX,
    ensures
        placed@ == relayout(atoms@.push(last)),
{
    let count: usize = atoms.len() + 1;
    let ghost grown = atoms@.push(last);
    let mut placed: Vec<Atom> = Vec::new();
    let mut i: usize = 0;
    while i < count
        invariant
            i <= count,
            count == atoms@.len() + 1,
            grown == atoms@.push(last),
            placed@.len() == i,
            forall|p: int| 0 <= p < i ==> placed@[p] == relayout(grown)[p],
        decreases count - i,
    {
        let source: Atom = if i < atoms.len() { atoms[i] } else { last };
        let atom = Atom {
            id: source.id,
            element: source.element,
            health: source.health,
            offset: slot(count, i),
        };
        placed.push(atom);
        i = i + 1;
    }
    placed
}

/// One fresh atom for each element, numbered from `first_id`.
fn build_atoms(first_id: u64, elements: &Vec<ElementInfo>) -> (atoms: Vec<Atom>)
    requires
        first_id + elements@.len() <= u64::MAX,
    ensures
        atoms@ == fresh_atoms(first_id as int, elements@),
{
    let count: usize = elements.len();
    let mut atoms: Vec<Atom> = Vec::new();
    let mut i: usize = 0;
    while i < count
        invariant
            i <= count,
            count == elements@.len(),
            first_id + elements@.len() <= u64::MAX,
            atoms@.len() == i,
            forall|p: int| 0 <= p < i ==> atoms@[p] == fresh_atoms(first_id as int, elements@)[p],
        decreases count - i,
    {
        let element = elements[i];
        let atom = Atom {
            id: first_id + (i as u64),
            element,
            health: Health::new(element.max_health()),
            offset: slot(count, i),
        };
        atoms.push(atom);
        i = i + 1;
    }
    atoms
}

impl Registry {
    /// The id that the next molecule or atom will get.
    pub closed spec fn spec_next_id(&self) -> u64 {
        self.next_id
    }

    /// The registry's invariant: no molecule is empty, every atom sits at its
    /// place and has at most the maximum health of its kind, no id is used
    /// twice, whether for a molecule or for an atom, and every id in use is
    /// below the next free one.
    pub open spec fn wf(&self) -> bool {
        well_formed(self@, self.spec_next_id())
    }

    /// A registry without molecules.
    pub fn new() -> (registry: Registry)
        ensures
            registry@ == Seq::<MoleculeView>::empty(),
            registry.spec_next_id() == 0,
            registry.wf(),
    {
        Registry { molecules: Vec::new(), next_id: 0 }
    }

    #[verifier::when_used_as_spec(spec_next_id)]
    pub fn next_id(&self) -> (id: u64)
        ensures
            id == self.spec_next_id(),
    {
        self.next_id
    }

    /// Number of molecules.
    pub fn len(&self) -> (count: usize)
        ensures
            count == self@.len(),
    {
        self.molecules.len()
    }

    /// The molecule at a position.
    pub fn get(&self, index: usize) -> (molecule: &Molecule)
        requires
            index < self@.len(),
        ensures
            molecule@ == self@[index as int],
    {
        &self.molecules[index]
    }

    /// Position of the molecule with the given id.
    pub fn find(&self, id: u64) -> (found: Option<usize>)
        ensures
            match found {
                Some(k) => molecule_index(self@, id) == Some(k as int),
                None => molecule_index(self@, id).is_none(),
            },
            found.is_some() ==> is_first_molecule(self@, id, found.unwrap() as int),
    {
        let mut k: usize = 0;
        while k < self.molecules.len()
            invariant
                k <= self@.len(),
                self@.len() == self.molecules@.len(),
                forall|j: int| 0 <= j < k ==> (#[trigger] self@[j]).id != id,
            decreases self@.len() - k,
        {
            if self.molecules[k].id == id {
                proof {
                    lemma_first_molecule_is_unique(self@, id, k as int);
                }
                return Some(k);
            }
            k = k + 1;
        }
        None
    }

    /// The molecule with the given id; none once it is despawned.
    pub fn molecule(&self, id: u64) -> (found: Option<&Molecule>)
        ensures
            match found {
                Some(molecule) => crate::molecule::lookup(self@, id) == Some(molecule@),
                None => crate::molecule::lookup(self@, id).is_none(),
            },
    {
        match self.find(id) {
            Some(k) => Some(&self.molecules[k]),
            None => None,
        }
    }

    /// Where the atom with the given id is: the position of the first molecule
    /// that holds it, and its position there.
    pub fn find_atom(&self, atom: u64) -> (found: Option<(usize, usize)>)
        ensures
            match found {
                Some((k, j)) => atom_place(self@, atom) == Some((k as int, j as int)),
                None => atom_place(self@, atom).is_none(),
            },
            found.is_some() ==> {
                &&& is_first_owner(self@, atom, found.unwrap().0 as int)
                &&& is_first_atom(self@[found.unwrap().0 as int].atoms, atom, found.unwrap().1 as int)
            },
    {
        let mut k: usize = 0;
        while k < self.molecules.len()
            invariant
                k <= self@.len(),
                self@.len() == self.molecules@.len(),
                forall|j: int| 0 <= j < k ==> atom_index((#[trigger] self@[j]).atoms, atom).is_none(),
            decreases self@.len() - k,
        {
            if let Some(j) = self.molecules[k].find_atom(atom) {
                proof {
                    lemma_first_owner_is_unique(self@, atom, k as int);
                }
                return Some((k, j));
            }
            k = k + 1;
        }
        None
    }

    /// Takes `amount` from the health of the atom at position `index` of the
    /// molecule at position `at`. Nothing else changes.
    pub fn damage_atom(&mut self, at: usize, index: usize, amount: u32)
        requires
            old(self).wf(),
            at < old(self)@.len(),
            index < old(self)@[at as int].atoms.len(),
        ensures
            final(self).wf(),
            final(self).spec_next_id() == old(self).spec_next_id(),
            final(self)@ == with_damage(old(self)@, at as int, index as int, amount),
    {
        let mut molecule = self.molecules.remove(at);
        let mut atom: Atom = molecule.atoms[index];
        atom.health.damage(amount);
        molecule.atoms.set(index, atom);
        self.molecules.insert(at, molecule);
        proof {
            assert(final(self)@ =~= with_damage(old(self)@, at as int, index as int, amount));
        }
    }

    /// Creates a molecule with one fresh atom for each element, each at its
    /// place in the polygon of their number, and returns its id. Nothing is
    /// created from an empty list, nor when the ids would run out.
    pub fn create(&mut self, side: Side, elements: &Vec<ElementInfo>) -> (id: Option<u64>)
        requires
            old(self).wf(),
        ensures
            final(self).wf(),
            id.is_some() <==> can_create(old(self).spec_next_id(), elements@),
            match id {
                Some(id) => {
                    &&& id == old(self).spec_next_id()
                    &&& final(self)@ == with_molecule(old(self)@, id, side, elements@)
                    &&& final(self).spec_next_id() == id + 1 + elements@.len()
                },
                None => {
                    &&& final(self)@ == old(self)@
                    &&& final(self).spec_next_id() == old(self).spec_next_id()
                },
            },
    {
        let count: usize = elements.len();
        if count == 0 {
            return None;
        }
        if (count as u64) >= u64::MAX - self.next_id {
            return None;
        }
        let id: u64 = self.next_id;
        let atoms = build_atoms(id + 1, elements);
        let molecule = Molecule { id, side, atoms };
        self.molecules.push(molecule);
        self.next_id = id + 1 + (count as u64);
        proof {
            assert(final(self)@ =~= with_molecule(old(self)@, id, side, elements@));
        }
        Some(id)
    }

    /// Appends one fresh atom to the molecule with the given id and places all
    /// its atoms anew, the new one last; returns the new atom's id. Nothing
    /// changes where no such molecule exists, or when the ids or the places in
    /// the molecule's list have run out.
    pub fn add_atom(&mut self, molecule: u64, element: ElementInfo) -> (atom: Option<u64>)
        requires
            old(self).wf(),
        ensures
            final(self).wf(),
            atom.is_some() <==> can_add(old(self)@, old(self).spec_next_id(), molecule),
            match atom {
                Some(atom) => {
                    &&& atom == old(self).spec_next_id()
                    &&& final(self)@ == with_atom(
                        old(self)@,
                        molecule_index(old(self)@, molecule).unwrap(),
                        atom,
                        element,
                    )
                    &&& final(self).spec_next_id() == atom + 1
                },
                None => {
                    &&& final(self)@ == old(self)@
                    &&& final(self).spec_next_id() == old(self).spec_next_id()
                },
            },
    {
        let k: usize = match self.find(molecule) {
            Some(k) => k,
            None => {
                return None;
            },
        };
        if self.next_id == u64::MAX {
            return None;
        }
        let id: u64 = self.next_id;
        let count: usize = self.molecules[k].atoms.len();
        if count == usize::MAX {
            return None;
        }
        let last = Atom {
            id,
            element,
            health: Health::new(element.max_health()),
            offset: slot(count + 1, count),
        };
        let atoms = placed_with(&self.molecules[k].atoms, last);
        let grown = Molecule { id: self.molecules[k].id, side: self.molecules[k].side, atoms };
        self.molecules.set(k, grown);
        self.next_id = id + 1;
        proof {
            assert(final(self)@ =~= with_atom(old(self)@, k as int, id, element));
        }
        Some(id)
    }

    /// Takes the atom at position `index` from the molecule at position `at`; an
    /// `index` beyond the last atom stands for the last one. A molecule that
    /// has only that atom is despawned with it; else the atoms that are left
    /// keep their order and are placed anew.
    pub fn remove_at(&mut self, at: usize, index: usize) -> (outcome: Removal)
        requires
            old(self).wf(),
            at < old(self)@.len(),
        ensures
            final(self).wf(),
            final(self).spec_next_id() == old(self).spec_next_id(),
            final(self)@ == without_atom(
                old(self)@,
                at as int,
                clamped(index as int, old(self)@[at as int].atoms.len() as int),
            ),
            outcome == if old(self)@[at as int].atoms.len() == 1 {
                Removal::MoleculeDespawned
            } else {
                Removal::AtomRemoved
            },
    {
        let count: usize = self.molecules[at].atoms.len();
        if count == 1 {
            let _ = self.molecules.remove(at);
            proof {
                assert(final(self)@ =~= old(self)@.remove(at as int));
            }
            return Removal::MoleculeDespawned;
        }
        let index: usize = if index >= count { count - 1 } else { index };
        let atoms = placed_without(&self.molecules[at].atoms, index);
        let shrunk = Molecule { id: self.molecules[at].id, side: self.molecules[at].side, atoms };
        self.molecules.set(at, shrunk);
        proof {
            assert(final(self)@ =~= without_atom(old(self)@, at as int, index as int));
        }
        Removal::AtomRemoved
    }

    /// Takes the atom with the given id from the molecule with the given id.
    /// Where either is not there, nothing changes.
    pub fn remove_atom(&mut self, molecule: u64, atom: u64) -> (outcome: Removal)
        requires
            old(self).wf(),
        ensures
            final(self).wf(),
            final(self).spec_next_id() == old(self).spec_next_id(),
            final(self)@ == after_removal(old(self)@, molecule, atom),
            outcome == removal_outcome(old(self)@, molecule, atom),
    {
        let at: usize = match self.find(molecule) {
            Some(at) => at,
            None => {
                return Removal::Absent;
            },
        };
        match self.molecules[at].find_atom(atom) {
            Some(index) => self.remove_at(at, index),
            None => Removal::Absent,
        }
    }

    /// Carries out one request. Returns the id that a creation or an addition
    /// gave out.
    pub fn apply(&mut self, event: &BuildMolecule) -> (id: Option<u64>)
        requires
            old(self).wf(),
        ensures
            final(self).wf(),
            (final(self)@, final(self).spec_next_id()) == applied(
                old(self)@,
                old(self).spec_next_id(),
                *event,
            ),
            id == granted(old(self)@, old(self).spec_next_id(), *event),
    {
        match event {
            BuildMolecule::Create { side, elements } => self.create(*side, elements),
            BuildMolecule::Add { target, element } => self.add_atom(*target, *element),
            BuildMolecule::RemoveAtom { target, atom } => {
                let _ = self.remove_atom(*target, *atom);
                None
            },
        }
    }

    /// Number of molecules of a side.
    pub fn count_side(&self, side: Side) -> (count: usize)
        ensures
            count == count_of(self@, side),
    {
        let mut count: usize = 0;
        let mut k: usize = 0;
        while k < self.molecules.len()
            invariant
                k <= self@.len(),
                self@.len() == self.molecules@.len(),
                count == count_of(self@.take(k as int), side),
                count <= k,
            decreases self@.len() - k,
        {
            proof {
                assert(self@.take(k + 1).drop_last() =~= self@.take(k as int));
            }
            if self.molecules[k].side == side {
                count = count + 1;
            }
            k = k + 1;
        }
        proof {
            assert(self@.take(k as int) =~= self@);
        }
        count
    }
}

/// Carries out the requests of one tick, first to last.
pub fn build_molecules_system(registry: &mut Registry, events: &Vec<BuildMolecule>)
    requires
        old(registry).wf(),
    ensures
        final(registry).wf(),
        (final(registry)@, final(registry).spec_next_id()) == applied_all(
            old(registry)@,
            old(registry).spec_next_id(),
            events@,
        ),
{
    let mut i: usize = 0;
    while i < events.len()
        invariant
            i <= events@.len(),
            registry.wf(),
            (registry@, registry.spec_next_id()) == applied_all(
                old(registry)@,
                old(registry).spec_next_id(),
                events@.take(i as int),
            ),
        decreases events@.len() - i,
    {
        let _ = registry.apply(&events[i]);
        proof {
            assert(events@.take(i + 1).drop_last() =~= events@.take(i as int));
        }
        i = i + 1;
    }
    proof {
        assert(events@.take(i as int) =~= events@);
    }
}

/// Despawns every molecule of an enemy, as at the end of a playthrough.
/// The molecules of the player stay as they are, in their order.
pub fn cleanup_system(registry: &mut Registry)
    requires
        old(registry).wf(),
    ensures
        final(registry).wf(),
        final(registry).spec_next_id() == old(registry).spec_next_id(),
        final(registry)@ == players_only(old(registry)@),
{
    let mut k: usize = 0;
    let ghost mut seen: int = 0;
    while k < registry.molecules.len()
        invariant
            registry.wf(),
            registry.spec_next_id() == old(registry).spec_next_id(),
            0 <= seen <= old(registry)@.len(),
            k <= registry@.len(),
            registry@.len() == registry.molecules@.len(),
            registry@.len() - k == old(registry)@.len() - seen,
            registry@.take(k as int) == players_only(old(registry)@.take(seen)),
            registry@.skip(k as int) == old(registry)@.skip(seen),
        decreases registry@.len() - k,
    {
        proof {
            assert(old(registry)@.take(seen + 1).drop_last() =~= old(registry)@.take(seen));
            assert(old(registry)@[seen] == old(registry)@.skip(seen)[0]);
        }
        let ghost before = registry@;
        if registry.molecules[k].side == Side::Player {
            proof {
                assert(old(registry)@.skip(seen + 1) =~= old(registry)@.skip(seen).skip(1));
            }
            k = k + 1;
        } else {
            let _ = registry.molecules.remove(k);
            proof {
                assert(registry@ =~= before.remove(k as int));
                assert(old(registry)@.skip(seen + 1) =~= old(registry)@.skip(seen).skip(1));
            }
        }
        proof {
            seen = seen + 1;
        }
    }
    proof {
        assert(old(registry)@.take(seen) =~= old(registry)@);
    }
}

} // verus!
