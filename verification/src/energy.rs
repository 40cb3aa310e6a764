//! Energy: the currency that kills bring.

use vstd::prelude::*;

verus! {

/// Energy gained for each atom of an enemy that is destroyed.
pub const KILL_REWARD: u32 = 10;

/// The energy at hand, in whole points.
#[derive(Clone, Copy, Debug, PartialEq, Eq, Structural)]
pub struct Energy(pub u32);

/// `energy` and `gain` together, held at the most that the counter can show.
pub open spec fn energy_after(energy: u32, gain: int) -> u32 {
    if energy + gain <= u32::MAX {
        (energy + gain) as u32
    } else {
        u32::MAX
    }
}

/// `base` multiplied with itself `exponent` times.
pub open spec fn power(base: int, exponent: nat) -> int
    decreases exponent,
{
    if exponent == 0 {
        1
    } else {
        base * power(base, (exponent - 1) as nat)
    }
}

/// The energy suffices for the next powerup after `count` were bought: it is at
/// least `20 + 1.5^count`, stated without fractions.
pub open spec fn affordable(energy: u32, count: u32) -> bool {
    energy * power(2, count as nat) >= 20 * power(2, count as nat) + power(3, count as nat)
}

proof fn lemma_power_positive(base: int, exponent: nat)
    requires
        base > 0,
    ensures
        power(base, exponent) > 0,
    decreases exponent,
{
    if exponent > 0 {
        lemma_power_positive(base, (exponent - 1) as nat);
        assert(base * power(base, (exponent - 1) as nat) > 0) by (nonlinear_arith)
            requires
                base > 0,
                power(base, (exponent - 1) as nat) > 0,
        ;
    }
}

proof fn lemma_power_adds(base: int, m: nat, n: nat)
    ensures
        power(base, m + n) == power(base, m) * power(base, n),
    decreases m,
{
    if m == 0 {
        assert(1 * power(base, n) == power(base, n));
    } else {
        lemma_power_adds(base, (m - 1) as nat, n);
        let x = power(base, (m - 1) as nat);
        let y = power(base, n);
        assert(base * (x * y) == (base * x) * y) by (nonlinear_arith);
    }
}

proof fn lemma_power_monotone(base: int, low: nat, high: nat)
    requires
        base >= 1,
        low <= high,
    ensures
        power(base, low) <= power(base, high),
    decreases high - low,
{
    if low < high {
        lemma_power_monotone(base, low, (high - 1) as nat);
        lemma_power_positive(base, (high - 1) as nat);
        assert(base * power(base, (high - 1) as nat) >= power(base, (high - 1) as nat))
            by (nonlinear_arith)
            requires
                base >= 1,
                power(base, (high - 1) as nat) > 0,
        ;
    }
}

proof fn lemma_power_64()
    ensures
        power(2, 64) == 0x1_0000_0000_0000_0000,
        power(3, 64) == 3433683820292512484657849089281,
{
    reveal_with_fuel(power, 3);
    assert(power(2, 2) == 4 && power(3, 2) == 9);
    lemma_power_adds(2, 2, 2);
    lemma_power_adds(3, 2, 2);
    assert(power(2, 4) == 16 && power(3, 4) == 81);
    lemma_power_adds(2, 4, 4);
    lemma_power_adds(3, 4, 4);
    assert(power(2, 8) == 256 && power(3, 8) == 6561);
    lemma_power_adds(2, 8, 8);
    lemma_power_adds(3, 8, 8);
    assert(power(2, 16) == 65536 && power(3, 16) == 43046721);
    lemma_power_adds(2, 16, 16);
    lemma_power_adds(3, 16, 16);
    assert(power(2, 32) == 4294967296 && power(3, 32) == 1853020188851841);
    lemma_power_adds(2, 32, 32);
    lemma_power_adds(3, 32, 32);
}

/// From 64 on the price is beyond what the counter can show.
proof fn lemma_price_outgrows(count: nat)
    requires
        count >= 64,
    ensures
        power(3, count) >= 0x1_0000_0000 * power(2, count),
    decreases count,
{
    if count == 64 {
        lemma_power_64();
    } else {
        lemma_price_outgrows((count - 1) as nat);
        lemma_power_positive(2, (count - 1) as nat);
    }
}

/// Once 64 powerups are bought, no energy that the counter can show buys
/// another.
pub proof fn lemma_never_affordable_from_64(energy: u32, count: u32)
    requires
        count >= 64,
    ensures
        !affordable(energy, count),
{
    lemma_price_outgrows(count as nat);
    lemma_power_positive(2, count as nat);
    let p = power(2, count as nat);
    let e = energy as int;
    assert(e * p < 0x1_0000_0000 * p) by (nonlinear_arith)
        requires
            e < 0x1_0000_0000,
            p > 0,
    ;
}

impl Energy {
    /// The energy after a gain.
    pub open spec fn gained(self, gain: int) -> Energy {
        Energy(energy_after(self.0, gain))
    }

    /// Adds the reward for one kill.
    pub fn award_kill(&mut self)
        ensures
            *final(self) == old(self).gained(KILL_REWARD as int),
    {
        if self.0 <= u32::MAX - KILL_REWARD {
            self.0 = self.0 + KILL_REWARD;
        } else {
            self.0 = u32::MAX;
        }
    }

    /// Tells whether the energy suffices for the next powerup after `count`
    /// were bought.
    pub fn can_afford(&self, count: u32) -> (enough: bool)
        ensures
            enough == affordable(self.0, count),
    {
        if count >= 64 {
            proof {
                lemma_never_affordable_from_64(self.0, count);
            }
            return false;
        }
        let mut twos: u128 = 1;
        let mut threes: u128 = 1;
        let mut i: u32 = 0;
        while i < count
            invariant
                i <= count < 64,
                twos == power(2, i as nat),
                threes == power(3, i as nat),
            decreases count - i,
        {
            proof {
                lemma_power_64();
                lemma_power_monotone(2, (i + 1) as nat, 64);
                lemma_power_monotone(3, (i + 1) as nat, 64);
            }
            twos = twos * 2;
            threes = threes * 3;
            i = i + 1;
        }
        proof {
            lemma_power_64();
            lemma_power_monotone(2, count as nat, 64);
            lemma_power_monotone(3, count as nat, 64);
            assert(0 <= self.0 * twos <= 0xffff_ffff * 0x1_0000_0000_0000_0000) by (nonlinear_arith)
                requires
                    0 <= self.0 <= 0xffff_ffff,
                    0 <= twos <= 0x1_0000_0000_0000_0000,
            ;
        }
        (self.0 as u128) * twos >= 20 * twos + threes
    }
}

/// Sets the energy back to zero, as at the start of every playthrough.
pub fn reset_energy(energy: &mut Energy)
    ensures
        *final(energy) == Energy(0),
{
    energy.0 = 0;
}

} // verus!
