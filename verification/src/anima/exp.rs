//! Experience and levels.

use vstd::prelude::*;

verus! {

/// A change of level caused by gaining or losing experience.
pub enum LevelChange {
    /// The level before and the level after.
    Delta(u32, u32),
    Unchanged,
}

/// Things that hold experience and can level up or down.
pub trait Levelling {
    /// Adds experience and reports the change of level.
    fn increase_exp(&mut self, delta: i32) -> LevelChange;

    /// Removes experience and reports the change of level.
    fn decrease_exp(&mut self, delta: i32) -> LevelChange;

    /// Experience needed for the next level.
    fn experience(&self) -> i32;
}

/// A grade that groups levels, from `E` (lowest) to `SSS`.
#[derive(Debug, Clone, Copy, PartialEq, Eq, Structural)]
pub enum Rank {
    E,
    D,
    C,
    B,
    A,
    S,
    SS,
    SSS,
}

/// The grade of a level: levels 0..=5 are `E`, then every five levels one
/// grade higher up to `SS` for 31..=35, and `SSS` from 36 on.
pub open spec fn rank_of(level: u32) -> Rank {
    if level <= 5 {
        Rank::E
    } else if level <= 10 {
        Rank::D
    } else if level <= 15 {
        Rank::C
    } else if level <= 20 {
        Rank::B
    } else if level <= 25 {
        Rank::A
    } else if level <= 30 {
        Rank::S
    } else if level <= 35 {
        Rank::SS
    } else {
        Rank::SSS
    }
}

impl Rank {
    /// Position of the grade, `E` being 0 and `SSS` 7.
    pub open spec fn position(self) -> nat {
        match self {
            Rank::E => 0,
            Rank::D => 1,
            Rank::C => 2,
            Rank::B => 3,
            Rank::A => 4,
            Rank::S => 5,
            Rank::SS => 6,
            Rank::SSS => 7,
        }
    }

    /// The grade's name, as shown in messages.
    pub open spec fn name(self) -> Seq<char> {
        match self {
            Rank::E => seq!['E'],
            Rank::D => seq!['D'],
            Rank::C => seq!['C'],
            Rank::B => seq!['B'],
            Rank::A => seq!['A'],
            Rank::S => seq!['S'],
            Rank::SS => seq!['S', 'S'],
            Rank::SSS => seq!['S', 'S', 'S'],
        }
    }

    /// The grade of `level`.
    pub fn from_level(level: u32) -> (rank: Rank)
        ensures
            rank == rank_of(level),
    {
        if level <= 5 {
            Rank::E
        } else if level <= 10 {
            Rank::D
        } else if level <= 15 {
            Rank::C
        } else if level <= 20 {
            Rank::B
        } else if level <= 25 {
            Rank::A
        } else if level <= 30 {
            Rank::S
        } else if level <= 35 {
            Rank::SS
        } else {
            Rank::SSS
        }
    }

    /// The grade's name.
    pub fn to_string(&self) -> (text: String)
        ensures
            text@ == self.name(),
    {
        let lit = match self {
            Rank::E => "E",
            Rank::D => "D",
            Rank::C => "C",
            Rank::B => "B",
            Rank::A => "A",
            Rank::S => "S",
            Rank::SS => "SS",
            Rank::SSS => "SSS",
        };
        proof {
            reveal_strlit("E");
            reveal_strlit("D");
            reveal_strlit("C");
            reveal_strlit("B");
            reveal_strlit("A");
            reveal_strlit("S");
            reveal_strlit("SS");
            reveal_strlit("SSS");
        }
        String::from_str(lit)
    }
}

/// A higher level never has a lower grade.
pub proof fn law_rank_monotone(low: u32, high: u32)
    requires
        low <= high,
    ensures
        rank_of(low).position() <= rank_of(high).position(),
{
}

/// The grades cover the levels in bands of five from `E` (0 to 5) up to
/// `SS` (31 to 35); every level from 36 on is `SSS`.
pub proof fn law_rank_bands(level: u32)
    ensures
        rank_of(level) is E <==> level <= 5,
        rank_of(level) is D <==> 6 <= level <= 10,
        rank_of(level) is C <==> 11 <= level <= 15,
        rank_of(level) is B <==> 16 <= level <= 20,
        rank_of(level) is A <==> 21 <= level <= 25,
        rank_of(level) is S <==> 26 <= level <= 30,
        rank_of(level) is SS <==> 31 <= level <= 35,
        rank_of(level) is SSS <==> 36 <= level,
{
}

/// The grades' names.
pub proof fn law_rank_names()
    ensures
        Rank::E.name() == seq!['E'],
        Rank::D.name() == seq!['D'],
        Rank::C.name() == seq!['C'],
        Rank::B.name() == seq!['B'],
        Rank::A.name() == seq!['A'],
        Rank::S.name() == seq!['S'],
        Rank::SS.name() == seq!['S', 'S'],
        Rank::SSS.name() == seq!['S', 'S', 'S'],
{
}

} // verus!
