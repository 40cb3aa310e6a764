//! Waves of enemies: when one is due, how large it is and what it is made of.

use vstd::prelude::*;
use crate::elements::ElementInfo;
use crate::random::random_in;

verus! {

/// Enemies appear at least this far from the player, in world units.
pub const SPAWN_MIN_DISTANCE: usize = 2000;

/// Enemies appear less than this far from the player, in world units.
pub const SPAWN_MAX_DISTANCE: usize = 6000;

/// Least drag of an enemy, in thousandths of its velocity per tick.
pub const DRAG_MIN: usize = 25;

/// The drag of an enemy stays below this.
pub const DRAG_MAX: usize = 55;

/// Least speed limit of an enemy, in thousandths of a world unit per tick.
pub const MAX_SPEED_MIN: usize = 15000;

/// The speed limit of an enemy stays below this.
pub const MAX_SPEED_MAX: usize = 20000;

/// Least acceleration of an enemy towards the player, in thousandths of a
/// world unit per tick.
pub const SPEED_MIN: usize = 200;

/// The acceleration of an enemy stays below this.
pub const SPEED_MAX: usize = 600;

/// Number of waves so far in this playthrough.
#[derive(Clone, Copy, Debug, PartialEq, Eq, Structural)]
pub struct WaveCount(pub usize);

/// What a wave is made of.
#[derive(Debug)]
pub struct WaveTier {
    /// Which of the four tiers this is, from 1.
    pub number: u8,
    pub enemy_count: usize,
    /// The kinds that the atoms of this wave's enemies are drawn from.
    pub kinds: Vec<ElementInfo>,
    /// Least and greatest number of atoms of one enemy.
    pub min_size: usize,
    pub max_size: usize,
}

/// One enemy to be spawned.
#[derive(Debug)]
pub struct EnemyPlan {
    pub elements: Vec<ElementInfo>,
    /// Distance from the player, in world units.
    pub distance: usize,
    /// Drag, in thousandths of the velocity per tick.
    pub drag: usize,
    /// Speed limit, in thousandths of a world unit per tick.
    pub max_speed: usize,
    /// Acceleration towards the player, in thousandths of a world unit per
    /// tick.
    pub speed: usize,
}

/// The tier of wave number `count`: the first three waves are of tier 1, the
/// next three of tier 2, the next four of tier 3, all later ones of tier 4.
pub open spec fn tier_number(count: usize) -> u8 {
    if count <= 3 {
        1
    } else if count <= 6 {
        2
    } else if count <= 10 {
        3
    } else {
        4
    }
}

/// Number of enemies of wave number `count`.
pub open spec fn tier_enemy_count(count: usize) -> int {
    if count <= 3 {
        count * 4
    } else if count <= 6 {
        count * 3
    } else if count <= 10 {
        count * 2
    } else {
        count as int
    }
}

/// The kinds of atoms of a tier.
pub open spec fn tier_kinds(number: u8) -> Seq<ElementInfo> {
    if number == 1 {
        seq![ElementInfo::Hydrogen]
    } else if number == 2 {
        seq![ElementInfo::Hydrogen, ElementInfo::Uranium]
    } else {
        seq![ElementInfo::Iron, ElementInfo::Uranium, ElementInfo::Thorium]
    }
}

/// Least number of atoms of an enemy of a tier.
pub open spec fn tier_min_size(number: u8) -> usize {
    if number <= 3 {
        1
    } else {
        2
    }
}

/// Greatest number of atoms of an enemy of a tier.
pub open spec fn tier_max_size(number: u8) -> usize {
    if number <= 3 {
        number as usize
    } else {
        4
    }
}

impl WaveTier {
    /// A tier that enemies can be drawn from: it names at least one kind, and
    /// its sizes form a range.
    pub open spec fn usable(&self) -> bool {
        &&& self.kinds@.len() > 0
        &&& self.min_size <= self.max_size < usize::MAX
    }

    /// The tier is the one that the table has for wave number `count`.
    pub open spec fn is_tier_of(&self, count: usize) -> bool {
        &&& self.number == tier_number(count)
        &&& self.enemy_count == tier_enemy_count(count)
        &&& self.kinds@ == tier_kinds(tier_number(count))
        &&& self.min_size == tier_min_size(tier_number(count))
        &&& self.max_size == tier_max_size(tier_number(count))
    }

    /// The elements are a molecule of this tier.
    pub open spec fn admits(&self, elements: Seq<ElementInfo>) -> bool {
        admitted(self.kinds@, self.min_size, self.max_size, elements)
    }
}

/// The elements are at least `min_size` and at most `max_size`, each of one of
/// the `kinds`.
pub open spec fn admitted(
    kinds: Seq<ElementInfo>,
    min_size: usize,
    max_size: usize,
    elements: Seq<ElementInfo>,
) -> bool {
    &&& min_size <= elements.len() <= max_size
    &&& forall|i: int| 0 <= i < elements.len() ==> kinds.contains(#[trigger] elements[i])
}

/// The plan is one for wave number `count`: its molecule is one of the wave's
/// tier, and its distance, drag and speeds lie within their bounds.
pub open spec fn planned_for(plan: EnemyPlan, count: usize) -> bool {
    &&& admitted(
        tier_kinds(tier_number(count)),
        tier_min_size(tier_number(count)),
        tier_max_size(tier_number(count)),
        plan.elements@,
    )
    &&& plan.within_bounds()
}

impl EnemyPlan {
    /// The distance, the drag and the speeds lie within their bounds; so the
    /// enemy never appears where the player is.
    pub open spec fn within_bounds(&self) -> bool {
        &&& SPAWN_MIN_DISTANCE <= self.distance < SPAWN_MAX_DISTANCE
        &&& DRAG_MIN <= self.drag < DRAG_MAX
        &&& MAX_SPEED_MIN <= self.max_speed < MAX_SPEED_MAX
        &&& SPEED_MIN <= self.speed < SPEED_MAX
    }

    /// The plan is one of the tier: its molecule is, and the rest lies within
    /// its bounds.
    pub open spec fn fits(&self, tier: &WaveTier) -> bool {
        &&& tier.admits(self.elements@)
        &&& self.within_bounds()
    }
}

impl WaveCount {
    /// The count after one more wave; it stays at the greatest number.
    pub open spec fn next(self) -> WaveCount {
        if self.0 < usize::MAX {
            WaveCount((self.0 + 1) as usize)
        } else {
            self
        }
    }

    /// Counts one more wave.
    pub fn advance(&mut self)
        ensures
            *final(self) == old(self).next(),
    {
        if self.0 < usize::MAX {
            self.0 = self.0 + 1;
        }
    }
}

/// Sets the count back to zero, as at the start of every playthrough.
pub fn reset_wave_count(count: &mut WaveCount)
    ensures
        *final(count) == WaveCount(0),
{
    count.0 = 0;
}

/// The table's entry for wave number `count`.
pub fn wave_tier(count: usize) -> (tier: WaveTier)
    ensures
        tier.is_tier_of(count),
        tier.usable(),
{
    if count <= 3 {
        let kinds = vec![ElementInfo::Hydrogen];
        assert(kinds@ =~= tier_kinds(1));
        WaveTier { number: 1, enemy_count: count * 4, kinds, min_size: 1, max_size: 1 }
    } else if count <= 6 {
        let kinds = vec![ElementInfo::Hydrogen, ElementInfo::Uranium];
        assert(kinds@ =~= tier_kinds(2));
        WaveTier { number: 2, enemy_count: count * 3, kinds, min_size: 1, max_size: 2 }
    } else if count <= 10 {
        let kinds = vec![ElementInfo::Iron, ElementInfo::Uranium, ElementInfo::Thorium];
        assert(kinds@ =~= tier_kinds(3));
        WaveTier { number: 3, enemy_count: count * 2, kinds, min_size: 1, max_size: 3 }
    } else {
        let kinds = vec![ElementInfo::Iron, ElementInfo::Uranium, ElementInfo::Thorium];
        assert(kinds@ =~= tier_kinds(4));
        WaveTier { number: 4, enemy_count: count, kinds, min_size: 2, max_size: 4 }
    }
}

/// The elements that the draws pick from the kinds: draw number `i` picks the
/// kind of element number `i`.
pub fn compose(kinds: &Vec<ElementInfo>, picks: &Vec<usize>) -> (elements: Vec<ElementInfo>)
    requires
        forall|i: int| 0 <= i < picks@.len() ==> picks@[i] < kinds@.len(),
    ensures
        elements@.len() == picks@.len(),
        forall|i: int| 0 <= i < picks@.len() ==> elements@[i] == kinds@[picks@[i] as int],
{
    let mut elements: Vec<ElementInfo> = Vec::new();
    let mut i: usize = 0;
    while i < picks.len()
        invariant
            i <= picks@.len(),
            elements@.len() == i,
            forall|p: int| 0 <= p < picks@.len() ==> picks@[p] < kinds@.len(),
            forall|p: int| 0 <= p < i ==> elements@[p] == kinds@[picks@[p] as int],
        decreases picks@.len() - i,
    {
        elements.push(kinds[picks[i]]);
        i = i + 1;
    }
    elements
}

/// Draws a molecule of the tier: a size within the tier's range, and for each
/// atom one of the tier's kinds.
pub fn draw_molecule(tier: &WaveTier) -> (elements: Vec<ElementInfo>)
    requires
        tier.usable(),
    ensures
        tier.admits(elements@),
{
    let size: usize = random_in(tier.min_size, tier.max_size + 1);
    let mut picks: Vec<usize> = Vec::new();
    let mut i: usize = 0;
    while i < size
        invariant
            i <= size,
            picks@.len() == i,
            tier.kinds@.len() > 0,
            forall|p: int| 0 <= p < i ==> picks@[p] < tier.kinds@.len(),
        decreases size - i,
    {
        picks.push(random_in(0, tier.kinds.len()));
        i = i + 1;
    }
    let elements = compose(&tier.kinds, &picks);
    assert forall|p: int| 0 <= p < elements@.len() implies tier.kinds@.contains(
        #[trigger] elements@[p],
    ) by {
        assert(elements@[p] == tier.kinds@[picks@[p] as int]);
    }
    elements
}

/// Draws one enemy of the tier.
pub fn draw_enemy(tier: &WaveTier) -> (plan: EnemyPlan)
    requires
        tier.usable(),
    ensures
        plan.fits(tier),
{
    let elements = draw_molecule(tier);
    EnemyPlan {
        elements,
        distance: random_in(SPAWN_MIN_DISTANCE, SPAWN_MAX_DISTANCE),
        drag: random_in(DRAG_MIN, DRAG_MAX),
        max_speed: random_in(MAX_SPEED_MIN, MAX_SPEED_MAX),
        speed: random_in(SPEED_MIN, SPEED_MAX),
    }
}

/// Starts a wave when one is due. A wave is due only while no enemy is alive
/// and the player is there: then the wave is counted and its enemies are
/// drawn from the table's entry for the new count, as many as the entry says.
/// While enemies are alive, or without a player, nothing happens.
pub fn wave_check_system(enemies_alive: usize, player_present: bool, count: &mut WaveCount) -> (plans:
    Vec<EnemyPlan>)
    ensures
        *final(count) == if enemies_alive == 0 && player_present {
            old(count).next()
        } else {
            *old(count)
        },
        enemies_alive != 0 || !player_present ==> plans@.len() == 0,
        enemies_alive == 0 && player_present ==> plans@.len() == tier_enemy_count(final(count).0),
        forall|i: int| 0 <= i < plans@.len() ==> planned_for(#[trigger] plans@[i], final(count).0),
{
    let mut plans: Vec<EnemyPlan> = Vec::new();
    if enemies_alive != 0 || !player_present {
        return plans;
    }
    count.advance();
    let tier = wave_tier(count.0);
    let mut i: usize = 0;
    while i < tier.enemy_count
        invariant
            i <= tier.enemy_count,
            tier.usable(),
            tier.is_tier_of(count.0),
            plans@.len() == i,
            forall|p: int| 0 <= p < i ==> planned_for(#[trigger] plans@[p], count.0),
        decreases tier.enemy_count - i,
    {
        plans.push(draw_enemy(&tier));
        i = i + 1;
    }
    plans
}

} // verus!
