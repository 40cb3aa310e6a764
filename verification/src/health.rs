//! Health of one atom, in tenths of a health point.

use vstd::prelude::*;
use vstd::arithmetic::div_mod::lemma_fundamental_div_mod;

verus! {

/// Current and maximum health, both in tenths of a point.
#[derive(Clone, Copy, Debug, PartialEq, Eq, Structural)]
pub struct Health {
    pub health: i64,
    pub max_health: i64,
}

/// What is left of `health` after `amount` is taken, held at the least `i64`.
pub open spec fn health_after(health: i64, amount: u32) -> i64 {
    if health - amount >= i64::MIN {
        (health - amount) as i64
    } else {
        i64::MIN
    }
}

impl Health {
    /// Full health: current and maximum are both `health`.
    pub fn new(health: i64) -> (fresh: Health)
        ensures
            fresh == (Health { health, max_health: health }),
    {
        Health { health, max_health: health }
    }

    /// An atom whose health is zero or less is marked for removal.
    pub open spec fn spec_is_depleted(&self) -> bool {
        self.health <= 0
    }

    #[verifier::when_used_as_spec(spec_is_depleted)]
    pub fn is_depleted(&self) -> (gone: bool)
        ensures
            gone == self.spec_is_depleted(),
    {
        self.health <= 0
    }

    /// The health that damage of `amount` leaves; the maximum stays.
    pub open spec fn damaged(self, amount: u32) -> Health {
        Health { health: health_after(self.health, amount), max_health: self.max_health }
    }

    /// Takes `amount` tenths from the current health.
    pub fn damage(&mut self, amount: u32)
        ensures
            *final(self) == old(self).damaged(amount),
            final(self).health <= old(self).health,
    {
        let amount: i64 = amount as i64;
        if self.health >= i64::MIN + amount {
            self.health = self.health - amount;
        } else {
            self.health = i64::MIN;
        }
    }

    /// Which of the eight pictures of the health bar shows this health: the
    /// number `k` with `k / 8 < health / max_health <= (k + 1) / 8`, so 7 at full
    /// health and below 0 once the health is zero or less.
    pub fn texture_index(&self) -> (index: i128)
        requires
            self.max_health > 0,
        ensures
            index * self.max_health < 8 * self.health <= (index + 1) * self.max_health,
    {
        let max: i128 = self.max_health as i128;
        let scaled: i128 = 8 * (self.health as i128);
        if scaled > 0 {
            let top: i128 = scaled - 1;
            let index: i128 = top / max;
            proof {
                lemma_fundamental_div_mod(top as int, max as int);
                assert(index * max <= top < index * max + max) by (nonlinear_arith)
                    requires
                        top == max * index + ((top as int) % (max as int)),
                        0 <= ((top as int) % (max as int)),
                        ((top as int) % (max as int)) < max,
                {}
                assert((index + 1) * max == index * max + max) by (nonlinear_arith);
            }
            index
        } else {
            let top: i128 = -scaled;
            let below: i128 = top / max;
            proof {
                lemma_fundamental_div_mod(top as int, max as int);
                assert(below * max <= top < below * max + max) by (nonlinear_arith)
                    requires
                        top == max * below + ((top as int) % (max as int)),
                        0 <= ((top as int) % (max as int)),
                        ((top as int) % (max as int)) < max,
                {}
                assert((-below - 1) * max == -(below * max) - max) by (nonlinear_arith);
                assert((-below) * max == -(below * max)) by (nonlinear_arith);
            }
            -below - 1
        }
    }
}

} // verus!
