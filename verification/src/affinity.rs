//! The bot's affinity towards a user: a score from 0 to 255 and the level that
//! the score falls in.

use vstd::prelude::*;

verus! {

/// How fond the bot is of a user, from worst to best.
#[derive(Debug, Clone, Copy, PartialEq, Eq, Structural)]
pub enum Affinity {
    Hate,
    Annoyed,
    Neutral,
    Friend,
    Love,
}

/// The level of a score: 0..=15 is `Hate`, 16..=50 `Annoyed`, 51..=150
/// `Neutral`, 151..=240 `Friend` and 241..=255 `Love`.
pub open spec fn affinity_of(score: u8) -> Affinity {
    if score <= 15 {
        Affinity::Hate
    } else if score <= 50 {
        Affinity::Annoyed
    } else if score <= 150 {
        Affinity::Neutral
    } else if score <= 240 {
        Affinity::Friend
    } else {
        Affinity::Love
    }
}

/// A score lowered by `value`, stopping at 0.
pub open spec fn lowered(score: u8, value: u8) -> u8 {
    if score >= value { (score - value) as u8 } else { 0 }
}

/// A score raised by `value`, stopping at 255.
pub open spec fn raised(score: u8, value: u8) -> u8 {
    if score + value <= 255 { (score + value) as u8 } else { 255 }
}

/// The pair (level before, level after) when a score moving from `before`
/// to `after` changes its level, and nothing otherwise.
pub open spec fn level_shift(before: u8, after: u8) -> Option<(Affinity, Affinity)> {
    if affinity_of(before) != affinity_of(after) {
        Some((affinity_of(before), affinity_of(after)))
    } else {
        None
    }
}

impl Affinity {
    /// Position of the level on the scale, `Hate` being 0 and `Love` 4.
    pub open spec fn rank(self) -> nat {
        match self {
            Affinity::Hate => 0,
            Affinity::Annoyed => 1,
            Affinity::Neutral => 2,
            Affinity::Friend => 3,
            Affinity::Love => 4,
        }
    }

    /// The lower-case name under which the level is written.
    pub open spec fn name(self) -> Seq<char> {
        match self {
            Affinity::Hate => seq!['h', 'a', 't', 'e'],
            Affinity::Annoyed => seq!['a', 'n', 'n', 'o', 'y', 'e', 'd'],
            Affinity::Neutral => seq!['n', 'e', 'u', 't', 'r', 'a', 'l'],
            Affinity::Friend => seq!['f', 'r', 'i', 'e', 'n', 'd'],
            Affinity::Love => seq!['l', 'o', 'v', 'e'],
        }
    }

    /// The level that `score` falls in.
    pub fn from_score(score: u8) -> (level: Affinity)
        ensures
            level == affinity_of(score),
    {
        if score <= 15 {
            Affinity::Hate
        } else if score <= 50 {
            Affinity::Annoyed
        } else if score <= 150 {
            Affinity::Neutral
        } else if score <= 240 {
            Affinity::Friend
        } else {
            Affinity::Love
        }
    }

    /// The level's name, as it is shown to users and stored in tags.
    pub fn to_string(&self) -> (text: String)
        ensures
            text@ == self.name(),
    {
        match self {
            Affinity::Hate => {
                proof { reveal_strlit("hate"); }
                String::from_str("hate")
            },
            Affinity::Annoyed => {
                proof { reveal_strlit("annoyed"); }
                String::from_str("annoyed")
            },
            Affinity::Neutral => {
                proof { reveal_strlit("neutral"); }
                String::from_str("neutral")
            },
            Affinity::Friend => {
                proof { reveal_strlit("friend"); }
                String::from_str("friend")
            },
            Affinity::Love => {
                proof { reveal_strlit("love"); }
                String::from_str("love")
            },
        }
    }
}

/// A change of affinity level: the level before and the level after.
pub enum AffinityChange {
    Changed(Affinity, Affinity),
    Unchanged,
}

impl AffinityChange {
    /// The change as an optional (before, after) pair.
    pub open spec fn as_pair(self) -> Option<(Affinity, Affinity)> {
        match self {
            AffinityChange::Changed(before, after) => Some((before, after)),
            AffinityChange::Unchanged => None,
        }
    }
}

/// The two lowest levels, by name.
pub enum AffinityLevel {
    Hate,
    Annoyed,
}

/// An affinity score together with a level tag.
pub struct AffinityScore {
    level: AffinityLevel,
    score: u8,
}

impl View for AffinityScore {
    type V = u8;

    closed spec fn view(&self) -> u8 {
        self.score
    }
}

impl AffinityScore {
    /// The level tag that the score carries.
    pub closed spec fn level_tag(&self) -> AffinityLevel {
        self.level
    }

    /// A score of `score`, tagged with `level`.
    pub fn new(level: AffinityLevel, score: u8) -> (s: AffinityScore)
        ensures
            s@ == score,
            s.level_tag() == level,
    {
        AffinityScore { level, score }
    }

    /// The current score.
    pub fn score(&self) -> (score: u8)
        ensures
            score == self@,
    {
        self.score
    }

    /// Lowers the score by `value` (stopping at 0) and returns the change of
    /// level that this caused, if any. The level never goes up.
    pub fn sub(&mut self, value: u8) -> (change: Option<(Affinity, Affinity)>)
        ensures
            final(self)@ == lowered(old(self)@, value),
            final(self).level_tag() == old(self).level_tag(),
            change == level_shift(old(self)@, final(self)@),
            change matches Some((before, after)) ==> after.rank() < before.rank(),
    {
        let before = Affinity::from_score(self.score);
        self.score = self.score.saturating_sub(value);
        let after = Affinity::from_score(self.score);
        proof { lemma_affinity_monotone(self.score, old(self).score); }
        if before != after {
            Some((before, after))
        } else {
            None
        }
    }

    /// Raises the score by `value` (stopping at 255) and returns the change
    /// of level that this caused, if any. The level never goes down.
    pub fn add(&mut self, value: u8) -> (change: Option<(Affinity, Affinity)>)
        ensures
            final(self)@ == raised(old(self)@, value),
            final(self).level_tag() == old(self).level_tag(),
            change == level_shift(old(self)@, final(self)@),
            change matches Some((before, after)) ==> before.rank() < after.rank(),
    {
        let before = Affinity::from_score(self.score);
        self.score = self.score.saturating_add(value);
        let after = Affinity::from_score(self.score);
        proof { lemma_affinity_monotone(old(self).score, self.score); }
        if before != after {
            Some((before, after))
        } else {
            None
        }
    }
}

/// A higher score never falls in a lower level.
pub proof fn lemma_affinity_monotone(low: u8, high: u8)
    requires
        low <= high,
    ensures
        affinity_of(low).rank() <= affinity_of(high).rank(),
{
}

/// Lowering a score by at most its value and raising it back by the same
/// amount gives the score back.
pub proof fn law_raise_undoes_lower(score: u8, value: u8)
    requires
        value <= score,
    ensures
        raised(lowered(score, value), value) == score,
{
}

/// Raising a score without reaching the cap and lowering it back by the same
/// amount gives the score back.
pub proof fn law_lower_undoes_raise(score: u8, value: u8)
    requires
        score + value <= 255,
    ensures
        lowered(raised(score, value), value) == score,
{
}

/// The levels cover the scores in five bands, from the lowest up: 0 to 15 is
/// hate, 16 to 50 annoyance, 51 to 150 neutrality, 151 to 240 friendship and
/// 241 to 255 love.
pub proof fn law_affinity_bands(score: u8)
    ensures
        affinity_of(score) is Hate <==> score <= 15,
        affinity_of(score) is Annoyed <==> 16 <= score <= 50,
        affinity_of(score) is Neutral <==> 51 <= score <= 150,
        affinity_of(score) is Friend <==> 151 <= score <= 240,
        affinity_of(score) is Love <==> 241 <= score,
{
}

/// Lowering takes the value off the score but never goes below 0; raising
/// adds it but never goes above 255.
pub proof fn law_lower_raise_arithmetic(score: u8, value: u8)
    ensures
        lowered(score, value) as int == (if (score as int) - (value as int) > 0 { (score as int) - (value as int) } else { 0 }),
        raised(score, value) as int == (if (score as int) + (value as int) < 255 { (score as int) + (value as int) } else { 255 }),
{
}

/// A level change is reported exactly when the two scores fall in different
/// bands, and it names the band of each score.
pub proof fn law_level_shift(before: u8, after: u8)
    ensures
        level_shift(before, after) is Some <==> affinity_of(before).rank() != affinity_of(after).rank(),
        level_shift(before, after) matches Some((b, a)) ==> b == affinity_of(before) && a == affinity_of(after),
{
}

/// The levels' names.
pub proof fn law_affinity_names()
    ensures
        Affinity::Hate.name() == seq!['h', 'a', 't', 'e'],
        Affinity::Annoyed.name() == seq!['a', 'n', 'n', 'o', 'y', 'e', 'd'],
        Affinity::Neutral.name() == seq!['n', 'e', 'u', 't', 'r', 'a', 'l'],
        Affinity::Friend.name() == seq!['f', 'r', 'i', 'e', 'n', 'd'],
        Affinity::Love.name() == seq!['l', 'o', 'v', 'e'],
{
}

} // verus!
