//! A user's record: money and the bot's affinity towards them.

pub mod exp;

use vstd::prelude::*;
use crate::affinity::{Affinity, AffinityChange, lowered, raised, level_shift, lemma_affinity_monotone};

verus! {

/// Money of a user seen for the first time.
pub const STARTING_MONEY: u32 = 0;

/// Affinity score towards a user seen for the first time.
pub const STARTING_AFFINITY_SCORE: u8 = 127;

/// Level of a user seen for the first time.
pub const STARTING_LEVEL: u32 = 1;

/// Experience of a user seen for the first time.
pub const STARTING_EXP: u32 = 0;

/// What is known of a user.
#[derive(Debug, Clone)]
pub struct Anima {
    pub money: u32,
    pub affinity_score: u8,
}

impl Anima {
    /// A record with the given money and affinity score.
    pub fn new(money: u32, affinity_score: u8) -> (anima: Anima)
        ensures
            anima.money == money,
            anima.affinity_score == affinity_score,
    {
        Anima { money, affinity_score }
    }

    /// Lowers the affinity score by `value` (stopping at 0) and reports the
    /// change of affinity level that this caused. The level never goes up and
    /// the money is untouched.
    pub fn affinity_sub(&mut self, value: u8) -> (change: AffinityChange)
        ensures
            final(self).money == old(self).money,
            final(self).affinity_score == lowered(old(self).affinity_score, value),
            change.as_pair() == level_shift(old(self).affinity_score, final(self).affinity_score),
            change matches AffinityChange::Changed(before, after) ==> after.rank() < before.rank(),
    {
        let before = Affinity::from_score(self.affinity_score);
        self.affinity_score = self.affinity_score.saturating_sub(value);
        let after = Affinity::from_score(self.affinity_score);
        proof { lemma_affinity_monotone(self.affinity_score, old(self).affinity_score); }
        if before != after {
            AffinityChange::Changed(before, after)
        } else {
            AffinityChange::Unchanged
        }
    }

    /// Raises the affinity score by `value` (stopping at 255) and reports the
    /// change of affinity level that this caused. The level never goes down
    /// and the money is untouched.
    pub fn affinity_add(&mut self, value: u8) -> (change: AffinityChange)
        ensures
            final(self).money == old(self).money,
            final(self).affinity_score == raised(old(self).affinity_score, value),
            change.as_pair() == level_shift(old(self).affinity_score, final(self).affinity_score),
            change matches AffinityChange::Changed(before, after) ==> before.rank() < after.rank(),
    {
        let before = Affinity::from_score(self.affinity_score);
        self.affinity_score = self.affinity_score.saturating_add(value);
        let after = Affinity::from_score(self.affinity_score);
        proof { lemma_affinity_monotone(old(self).affinity_score, self.affinity_score); }
        if before != after {
            AffinityChange::Changed(before, after)
        } else {
            AffinityChange::Unchanged
        }
    }
}

} // verus!
