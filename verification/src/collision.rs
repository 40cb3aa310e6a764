//! Proximity collisions between two categories of objects.
//!
//! Every object is a circle. Two circles collide when the distance of their
//! centres is at most the sum of their radii, which is decided exactly on
//! integers by comparing the squares.

use vstd::prelude::*;
use crate::layout::{molecule_radius, radius_of};

verus! {

/// A point of the world, in whole world units.
#[derive(Clone, Copy, Debug, PartialEq, Eq, Structural)]
pub struct Point {
    pub x: i32,
    pub y: i32,
}

/// One object of a category with what a collision test reads of it. `tag` is
/// the data by which the category knows the object.
#[derive(Debug)]
pub struct Collider<T> {
    pub id: u64,
    pub center: Point,
    /// Number of atoms, where the object is a molecule.
    pub molecule_atoms: Option<usize>,
    /// Declared width of the picture, where the object has one.
    pub sprite_width: Option<u32>,
    pub tag: T,
}

/// One member of the first category and one of the second that touch in this
/// tick, each with a copy of its tag.
#[derive(Debug)]
pub struct CollisionEvent<A, B> {
    pub a_id: u64,
    pub a_comp: A,
    pub b_id: u64,
    pub b_comp: B,
}

/// The distance of the centres minus both radii is at most zero.
pub open spec fn circles_overlap(a_center: Point, a_radius: int, b_center: Point, b_radius: int) -> bool {
    (a_center.x - b_center.x) * (a_center.x - b_center.x) + (a_center.y - b_center.y) * (a_center.y
        - b_center.y) <= (a_radius + b_radius) * (a_radius + b_radius)
}

/// The radius that an object has in collisions: that of its molecule where it
/// is one, else half the width of its picture, and none where it has neither.
pub open spec fn effective_radius<T>(object: Collider<T>) -> Option<int> {
    match (object.molecule_atoms, object.sprite_width) {
        (Some(atoms), _) => Some(molecule_radius(atoms as int)),
        (None, Some(width)) => Some(width as int / 2),
        (None, None) => None,
    }
}

/// Both objects have a radius and their circles overlap.
pub open spec fn collide<A, B>(a: Collider<A>, b: Collider<B>) -> bool {
    &&& effective_radius(a).is_some()
    &&& effective_radius(b).is_some()
    &&& circles_overlap(a.center, effective_radius(a).unwrap(), b.center, effective_radius(b).unwrap())
}

/// The event that reports `a` touching `b`.
pub open spec fn event_of<A, B>(a: Collider<A>, b: Collider<B>) -> CollisionEvent<A, B> {
    CollisionEvent { a_id: a.id, a_comp: a.tag, b_id: b.id, b_comp: b.tag }
}

/// The events of one member of the first category with the second category,
/// in the order of the second.
pub open spec fn row_events<A, B>(a: Collider<A>, second: Seq<Collider<B>>) -> Seq<CollisionEvent<A, B>>
    decreases second.len(),
{
    if second.len() == 0 {
        Seq::empty()
    } else if collide(a, second.last()) {
        row_events(a, second.drop_last()).push(event_of(a, second.last()))
    } else {
        row_events(a, second.drop_last())
    }
}

/// One event for each pair that collides, ordered by the first category and
/// then by the second. The sides are kept: nothing is mirrored.
pub open spec fn all_events<A, B>(first: Seq<Collider<A>>, second: Seq<Collider<B>>) -> Seq<
    CollisionEvent<A, B>,
>
    decreases first.len(),
{
    if first.len() == 0 {
        Seq::empty()
    } else {
        all_events(first.drop_last(), second) + row_events(first.last(), second)
    }
}

/// Tells whether two circles touch or overlap.
pub fn circle_collision(a_center: Point, a_radius: u128, b_center: Point, b_radius: u128) -> (hit: bool)
    ensures
        hit == circles_overlap(a_center, a_radius as int, b_center, b_radius as int),
{
    let dx: i128 = (a_center.x as i128) - (b_center.x as i128);
    let dy: i128 = (a_center.y as i128) - (b_center.y as i128);
    assert(0 <= dx * dx <= 0x1_0000_0000_0000_0000) by (nonlinear_arith)
        requires
            -0x1_0000_0000 <= dx <= 0x1_0000_0000,
    ;
    assert(0 <= dy * dy <= 0x1_0000_0000_0000_0000) by (nonlinear_arith)
        requires
            -0x1_0000_0000 <= dy <= 0x1_0000_0000,
    ;
    if a_radius >= 0x2_0000_0000 || b_radius >= 0x2_0000_0000 {
        assert((a_radius + b_radius) * (a_radius + b_radius) >= 0x4_0000_0000_0000_0000)
            by (nonlinear_arith)
            requires
                a_radius + b_radius >= 0x2_0000_0000,
        ;
        return true;
    }
    let reach: i128 = (a_radius + b_radius) as i128;
    assert(0 <= reach * reach <= 0x10_0000_0000_0000_0000) by (nonlinear_arith)
        requires
            0 <= reach <= 0x4_0000_0000,
    ;
    dx * dx + dy * dy <= reach * reach
}

/// Resolves the radius of an object.
pub fn resolve_radius<T>(object: &Collider<T>) -> (radius: Option<u128>)
    ensures
        match radius {
            Some(radius) => effective_radius(*object) == Some(radius as int),
            None => effective_radius(*object).is_none(),
        },
{
    match (object.molecule_atoms, object.sprite_width) {
        (Some(atoms), _) => Some(radius_of(atoms)),
        (None, Some(width)) => Some((width / 2) as u128),
        (None, None) => None,
    }
}

/// Finds every pair of one member of the first category and one of the second
/// that collide. An object without a radius takes part in no pair.
pub fn collision_system<A: Copy, B: Copy>(first: &Vec<Collider<A>>, second: &Vec<Collider<B>>) -> (events:
    Vec<CollisionEvent<A, B>>)
    ensures
        events@ == all_events(first@, second@),
{
    let mut events: Vec<CollisionEvent<A, B>> = Vec::new();
    let mut i: usize = 0;
    while i < first.len()
        invariant
            i <= first@.len(),
            events@ == all_events(first@.take(i as int), second@),
        decreases first@.len() - i,
    {
        let a_radius = resolve_radius(&first[i]);
        let ghost before = events@;
        let mut j: usize = 0;
        while j < second.len()
            invariant
                i < first@.len(),
                j <= second@.len(),
                match a_radius {
                    Some(radius) => effective_radius(first@[i as int]) == Some(radius as int),
                    None => effective_radius(first@[i as int]).is_none(),
                },
                events@ == before + row_events(first@[i as int], second@.take(j as int)),
            decreases second@.len() - j,
        {
            proof {
                assert(second@.take(j + 1).drop_last() =~= second@.take(j as int));
            }
            if let Some(a_radius) = a_radius {
                if let Some(b_radius) = resolve_radius(&second[j]) {
                    if circle_collision(first[i].center, a_radius, second[j].center, b_radius) {
                        events.push(
                            CollisionEvent {
                                a_id: first[i].id,
                                a_comp: first[i].tag,
                                b_id: second[j].id,
                                b_comp: second[j].tag,
                            },
                        );
                    }
                }
            }
            j = j + 1;
        }
        proof {
            assert(second@.take(j as int) =~= second@);
            assert(first@.take(i + 1).drop_last() =~= first@.take(i as int));
        }
        i = i + 1;
    }
    proof {
        assert(first@.take(i as int) =~= first@);
    }
    events
}

/// Every event of a row reports a member of the second category that collides
/// with the member of the first.
pub proof fn lemma_row_events_are_collisions<A, B>(a: Collider<A>, second: Seq<Collider<B>>, e: int)
    requires
        0 <= e < row_events(a, second).len(),
    ensures
        exists|j: int|
            0 <= j < second.len() && collide(a, #[trigger] second[j]) && row_events(a, second)[e]
                == event_of(a, second[j]),
    decreases second.len(),
{
    let rest = second.drop_last();
    if e < row_events(a, rest).len() {
        lemma_row_events_are_collisions(a, rest, e);
    }
}

/// Every member of the second category that collides with the member of the
/// first is reported in the row.
pub proof fn lemma_row_collisions_are_events<A, B>(a: Collider<A>, second: Seq<Collider<B>>, j: int)
    requires
        0 <= j < second.len(),
        collide(a, second[j]),
    ensures
        exists|e: int|
            0 <= e < row_events(a, second).len() && #[trigger] row_events(a, second)[e] == event_of(
                a,
                second[j],
            ),
    decreases second.len(),
{
    let rest = second.drop_last();
    if j < second.len() - 1 {
        lemma_row_collisions_are_events(a, rest, j);
        let e = choose|e: int|
            0 <= e < row_events(a, rest).len() && #[trigger] row_events(a, rest)[e] == event_of(
                a,
                rest[j],
            );
        assert(row_events(a, second)[e] == row_events(a, rest)[e]);
    } else {
        let e = row_events(a, rest).len() as int;
        assert(row_events(a, second)[e] == event_of(a, second[j]));
    }
}

/// Every event reports a pair that collides.
pub proof fn lemma_events_are_collisions<A, B>(
    first: Seq<Collider<A>>,
    second: Seq<Collider<B>>,
    e: int,
)
    requires
        0 <= e < all_events(first, second).len(),
    ensures
        exists|i: int, j: int|
            0 <= i < first.len() && 0 <= j < second.len() && collide(
                #[trigger] first[i],
                #[trigger] second[j],
            ) && all_events(first, second)[e] == event_of(first[i], second[j]),
    decreases first.len(),
{
    let rest = first.drop_last();
    let before = all_events(rest, second);
    if e < before.len() {
        lemma_events_are_collisions(rest, second, e);
    } else {
        lemma_row_events_are_collisions(first.last(), second, e - before.len());
    }
}

/// Every pair that collides is reported by an event.
pub proof fn lemma_collisions_are_events<A, B>(
    first: Seq<Collider<A>>,
    second: Seq<Collider<B>>,
    i: int,
    j: int,
)
    requires
        0 <= i < first.len(),
        0 <= j < second.len(),
        collide(first[i], second[j]),
    ensures
        exists|e: int|
            0 <= e < all_events(first, second).len() && #[trigger] all_events(first, second)[e]
                == event_of(first[i], second[j]),
    decreases first.len(),
{
    let rest = first.drop_last();
    let before = all_events(rest, second);
    if i < first.len() - 1 {
        lemma_collisions_are_events(rest, second, i, j);
        let e = choose|e: int|
            0 <= e < before.len() && #[trigger] before[e] == event_of(rest[i], second[j]);
        assert(all_events(first, second)[e] == before[e]);
    } else {
        lemma_row_collisions_are_events(first[i], second, j);
        let r = choose|r: int|
            0 <= r < row_events(first[i], second).len() && #[trigger] row_events(first[i], second)[r]
                == event_of(first[i], second[j]);
        assert(all_events(first, second)[before.len() + r] == row_events(first[i], second)[r]);
    }
}

} // verus!
