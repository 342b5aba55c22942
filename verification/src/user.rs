//! A user the bot knows.

use vstd::prelude::*;
use crate::affinity::AffinityScore;

verus! {

/// A known user and the bot's affinity towards them.
pub struct User {
    pub affinity: AffinityScore,
}

} // verus!
