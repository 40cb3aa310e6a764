//! Where the atoms of a molecule sit around its centre.
//!
//! A place is given exactly, as a start point and a fraction of a full turn,
//! so that the library needs no trigonometry; whoever draws the molecule turns
//! the start point by that fraction.

use vstd::prelude::*;

verus! {

/// The point reached from the start point `(start_x, start_y)` by turning it
/// clockwise about the centre by `step / steps` of a full turn.
#[derive(Clone, Copy, Debug, PartialEq, Eq, Structural)]
pub struct Offset {
    pub start_x: i128,
    pub start_y: i128,
    pub step: usize,
    pub steps: usize,
}

/// First coordinate of the point from which the places of `points` atoms are
/// turned.
pub open spec fn polygon_start_x(points: int) -> int {
    if points == 2 {
        -56
    } else if points == 4 {
        64
    } else {
        0
    }
}

/// Second coordinate of that point. One atom sits in the centre, two and four
/// have shapes of their own, and any other number is spread over a circle whose
/// radius grows with the number.
pub open spec fn polygon_start_y(points: int) -> int {
    if points == 1 || points == 2 {
        0
    } else if points == 4 {
        64
    } else {
        24 * points
    }
}

/// The place of atom number `index` among `points` atoms.
pub open spec fn polygon_slot(points: int, index: int) -> Offset {
    Offset {
        start_x: polygon_start_x(points) as i128,
        start_y: polygon_start_y(points) as i128,
        step: index as usize,
        steps: points as usize,
    }
}

/// The places of `points` atoms, in the order of the atoms.
pub open spec fn polygon(points: int) -> Seq<Offset> {
    Seq::new(points as nat, |index: int| polygon_slot(points, index))
}

/// Computes the place of one atom.
pub fn slot(points: usize, index: usize) -> (place: Offset)
    ensures
        place == polygon_slot(points as int, index as int),
{
    let start_x: i128 = if points == 2 {
        -56
    } else if points == 4 {
        64
    } else {
        0
    };
    let start_y: i128 = if points == 1 || points == 2 {
        0
    } else if points == 4 {
        64
    } else {
        24 * (points as i128)
    };
    Offset { start_x, start_y, step: index, steps: points }
}

/// Computes the places of `points` atoms: as many places as atoms, a function
/// of `points` alone.
pub fn create_polygon(points: usize) -> (places: Vec<Offset>)
    ensures
        places@ == polygon(points as int),
        places@.len() == points,
{
    let mut places: Vec<Offset> = Vec::new();
    let mut index: usize = 0;
    while index < points
        invariant
            index <= points,
            places@.len() == index,
            forall|i: int| 0 <= i < index ==> places@[i] == polygon_slot(points as int, i),
        decreases points - index,
    {
        places.push(slot(points, index));
        index = index + 1;
    }
    places
}

/// Radius of the circle that stands for a molecule of `atoms` atoms in
/// collisions: hand-tuned for one, two and four atoms, growing with the number
/// otherwise, and always with a padding of 24.
pub open spec fn molecule_radius(atoms: int) -> int {
    (if atoms == 1 {
        32
    } else if atoms == 2 {
        56
    } else if atoms == 4 {
        64
    } else {
        24 * atoms
    }) + 24
}

/// Computes the radius of a molecule of `atoms` atoms.
pub fn radius_of(atoms: usize) -> (radius: u128)
    ensures
        radius == molecule_radius(atoms as int),
{
    let inner: u128 = if atoms == 1 {
        32
    } else if atoms == 2 {
        56
    } else if atoms == 4 {
        64
    } else {
        24 * (atoms as u128)
    };
    inner + 24
}

/// The places of one polygon are pairwise different: they are turned from one
/// start point, which is not the centre as soon as there are two, by different
/// fractions of a full turn, each less than a full turn.
pub proof fn lemma_polygon_places_differ(points: int, i: int, j: int)
    requires
        0 <= i < j < points <= usize::MAX,
    ensures
        polygon(points)[i].start_x == polygon(points)[j].start_x,
        polygon(points)[i].start_y == polygon(points)[j].start_y,
        polygon(points)[i].start_x != 0 || polygon(points)[i].start_y != 0,
        polygon(points)[i].steps == points,
        polygon(points)[j].steps == points,
        polygon(points)[i].step < polygon(points)[j].step < points,
{
}

} // verus!
