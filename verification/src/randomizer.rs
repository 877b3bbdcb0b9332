//! The pluggable source of every probabilistic decision: spawn chance,
//! level jitter and uniform choice among options.
//!
//! A [`Randomizer`] is either live, drawing from the operating system's
//! generator, or fixed, returning a predetermined value so that callers
//! and tests are fully deterministic.  Every contract in the crate states
//! exact results for the fixed form and what holds of every outcome for
//! the live form.

use vstd::prelude::*;
use crate::location::Distance;

verus! {

/// Relies on rand::thread_rng for a generator and on
/// rand::Rng::gen_range over the range `0..n`, which returns a
/// uniformly distributed value in that range and panics only when the
/// range is empty; the precondition rules that out.
#[verifier::external_body]
fn rand_below(n: u32) -> (r: u32)
    requires
        1 <= n,
    ensures
        r < n,
{
    let mut rng = rand::thread_rng();
    rand::Rng::gen_range(&mut rng, 0..n)
}

/// Chance, in percent, that an enemy or NPC appears at the given
/// distance from home: 10% at home, growing by 10 points per step and
/// saturating at 100% nine or more steps away.  Farther from home means
/// more frequent encounters.
pub open spec fn appear_chance(d: int) -> int {
    if d <= 0 {
        10
    } else if d >= 9 {
        100
    } else {
        (d + 1) * 10
    }
}

/// The appearance chance is a monotonically non-decreasing function of
/// distance: for all distances d1 < d2, the probability that
/// `should_enemy_appear` answers true at d2 is at least the one at d1.
pub proof fn lemma_appear_chance_monotone(d1: int, d2: int)
    requires
        d1 < d2,
    ensures
        appear_chance(d1) <= appear_chance(d2),
{
}

/// An enemy's level after jitter: one step down, unchanged, or one step
/// up from the base, never below 1.
pub open spec fn jittered_level(level: int, j: int) -> int {
    if level + j - 1 < 1 {
        1
    } else {
        level + j - 1
    }
}

/// Source of all probabilistic decisions.  It keeps no state across
/// calls, so any call can be replaced by a deterministic stub.
#[derive(Clone, Copy, Debug, PartialEq, Eq, Structural)]
pub enum Randomizer {
    /// Draws from the machine's random number generator.
    Live,
    /// Always yields the held value (reduced modulo the requested bound).
    Fixed(u32),
}

impl Randomizer {
    /// The value a fixed randomizer will yield, if it is fixed.
    pub open spec fn fixed_val(self) -> Option<u32> {
        match self {
            Randomizer::Live => None,
            Randomizer::Fixed(v) => Some(v),
        }
    }

    /// A uniform draw in `[0, n)`.
    pub fn range(&self, n: u32) -> (r: u32)
        requires
            1 <= n,
        ensures
            r < n,
            self.fixed_val() matches Some(v) ==> r == v % n,
    {
        match self {
            Randomizer::Live => rand_below(n),
            Randomizer::Fixed(v) => *v % n,
        }
    }

    /// Rolls whether an encounter appears at the given distance; the
    /// probability of true is `appear_chance(d.len)` percent.
    pub fn should_enemy_appear(&self, d: &Distance) -> (r: bool)
        requires
            d.wf(),
        ensures
            self.fixed_val() matches Some(v) ==> r == ((v % 100) < appear_chance(d.len as int)),
    {
        let roll = self.range(100);
        let chance: i64 = if d.len <= 0 {
            10
        } else if d.len >= 9 {
            100
        } else {
            (d.len + 1) * 10
        };
        (roll as i64) < chance
    }

    /// Applies bounded jitter to a base enemy level: the result moves at
    /// most one step in either direction and is never below 1.
    pub fn enemy_level(&self, level: i64) -> (r: i64)
        requires
            -1_000_000_000 <= level <= 2_000_000_000,
        ensures
            1 <= r,
            r <= jittered_level(level as int, 2),
            self.fixed_val() matches Some(v) ==> r == jittered_level(level as int, (v % 3) as int),
    {
        let j = self.range(3);
        let shifted: i64 = level + (j as i64) - 1;
        if shifted < 1 {
            1
        } else {
            shifted
        }
    }
}

} // verus!
