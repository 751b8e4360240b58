use vstd::prelude::*;

verus! {

/// How aware an NPC is of something, from not at all to fully alert.
#[derive(Debug, Clone, Copy, PartialEq, Eq, Structural)]
pub enum AwarenessLevel {
    Lowest,
    Low,
    Moderate,
    High,
}

/// Number of awareness levels.
pub const LEVEL_COUNT: usize = 4;

/// The position of a level in the order `Lowest < Low < Moderate < High`.
pub open spec fn rank(l: AwarenessLevel) -> int {
    match l {
        AwarenessLevel::Lowest => 0,
        AwarenessLevel::Low => 1,
        AwarenessLevel::Moderate => 2,
        AwarenessLevel::High => 3,
    }
}

/// The level of a given rank; ranks past the top map to `High`.
pub open spec fn level_of_rank(r: int) -> AwarenessLevel {
    if r <= 0 {
        AwarenessLevel::Lowest
    } else if r == 1 {
        AwarenessLevel::Low
    } else if r == 2 {
        AwarenessLevel::Moderate
    } else {
        AwarenessLevel::High
    }
}

pub open spec fn spec_max(a: AwarenessLevel, b: AwarenessLevel) -> AwarenessLevel {
    if rank(a) >= rank(b) { a } else { b }
}

pub open spec fn spec_decrease(l: AwarenessLevel) -> AwarenessLevel {
    level_of_rank(rank(l) - 1)
}

/// Rank and level determine each other.
pub proof fn lemma_rank_injective(a: AwarenessLevel, b: AwarenessLevel)
    ensures
        (rank(a) == rank(b)) <==> (a == b),
        level_of_rank(rank(a)) == a,
        0 <= rank(a) < LEVEL_COUNT,
{
}

impl AwarenessLevel {
    /// The level's index in `Lowest, Low, Moderate, High`.
    pub fn index(self) -> (r: usize)
        ensures
            r == rank(self),
            r < LEVEL_COUNT,
    {
        match self {
            AwarenessLevel::Lowest => 0,
            AwarenessLevel::Low => 1,
            AwarenessLevel::Moderate => 2,
            AwarenessLevel::High => 3,
        }
    }

    /// Whether the level means any awareness at all.
    pub fn is_aware(self) -> (r: bool)
        ensures
            r == (self != AwarenessLevel::Lowest),
    {
        !matches!(self, AwarenessLevel::Lowest)
    }

    /// One level down; `Lowest` stays `Lowest`.
    pub fn decrease(self) -> (r: AwarenessLevel)
        ensures
            r == spec_decrease(self),
            rank(r) == if rank(self) == 0 { 0 } else { rank(self) - 1 },
    {
        match self {
            AwarenessLevel::Lowest => AwarenessLevel::Lowest,
            AwarenessLevel::Low => AwarenessLevel::Lowest,
            AwarenessLevel::Moderate => AwarenessLevel::Low,
            AwarenessLevel::High => AwarenessLevel::Moderate,
        }
    }

    /// `self < other` in the level order.
    pub fn lt(self, other: AwarenessLevel) -> (r: bool)
        ensures
            r == (rank(self) < rank(other)),
    {
        self.index() < other.index()
    }

    /// `self <= other` in the level order.
    pub fn le(self, other: AwarenessLevel) -> (r: bool)
        ensures
            r == (rank(self) <= rank(other)),
    {
        self.index() <= other.index()
    }

    /// The higher of two levels.
    pub fn max(self, other: AwarenessLevel) -> (r: AwarenessLevel)
        ensures
            r == spec_max(self, other),
            rank(r) >= rank(self),
            rank(r) >= rank(other),
    {
        if self.index() >= other.index() {
            self
        } else {
            other
        }
    }

    /// The lowercase name the behavior planner compares against.
    pub fn name(self) -> (r: &'static str)
        ensures
            r@ == level_name(self),
    {
        proof {
            reveal_strlit("lowest");
            reveal_strlit("low");
            reveal_strlit("moderate");
            reveal_strlit("high");
        }
        match self {
            AwarenessLevel::Lowest => "lowest",
            AwarenessLevel::Low => "low",
            AwarenessLevel::Moderate => "moderate",
            AwarenessLevel::High => "high",
        }
    }
}

pub open spec fn level_name(l: AwarenessLevel) -> Seq<char> {
    match l {
        AwarenessLevel::Lowest => seq!['l', 'o', 'w', 'e', 's', 't'],
        AwarenessLevel::Low => seq!['l', 'o', 'w'],
        AwarenessLevel::Moderate => seq!['m', 'o', 'd', 'e', 'r', 'a', 't', 'e'],
        AwarenessLevel::High => seq!['h', 'i', 'g', 'h'],
    }
}

/// Decreasing never raises a level, and only `Lowest` is a fixed point.
pub proof fn lemma_decrease_lowers(l: AwarenessLevel)
    ensures
        rank(spec_decrease(l)) <= rank(l),
        (spec_decrease(l) == l) <==> (l == AwarenessLevel::Lowest),
{
}

} // verus!
