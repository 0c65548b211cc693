pub mod ability_scores;
pub mod actions;
pub mod attack;
pub mod combat_event;
pub mod combat_state;
pub mod conditions;
pub mod damage;
pub mod health;
pub mod movement;
pub mod participant;
pub mod resources;
pub mod skills;
pub mod spells;
pub mod strategy;
pub mod triggers;

use vstd::prelude::*;

verus! {

/// Errors raised by the combat model.
#[derive(Debug, Clone, PartialEq, Eq)]
pub enum CCError {
    ParticipantSizeErr,
    PMPushAfterCompile,
    PMNotCompiled,
    SMNotCompiled,
    SMPushAfterCompile,
    UnknownCondition,
    NoWeaponSet,
    Other(String),
}

/// How a d20 is rolled: with disadvantage, normally (possibly fixed to normal
/// by cancellation), with advantage or with "super" advantage (best of three).
#[derive(Debug, Clone, Copy, PartialEq, Eq, Structural, Hash, PartialOrd, Ord)]
pub enum D20RollType {
    Disadvantage,
    FixedNormal,
    Normal,
    Advantage,
    SuperAdvantage,
}

/// Position of a roll type in the order of the enum declaration.
pub open spec fn roll_rank(r: D20RollType) -> int {
    match r {
        D20RollType::Disadvantage => 0,
        D20RollType::FixedNormal => 1,
        D20RollType::Normal => 2,
        D20RollType::Advantage => 3,
        D20RollType::SuperAdvantage => 4,
    }
}

/// Combination of two roll modifiers.
/// Any fixed-normal wins; normal is neutral; equal modifiers stay;
/// disadvantage against any advantage cancels to fixed-normal;
/// advantage together with super advantage gives super advantage.
pub open spec fn combine_rolls(a: D20RollType, b: D20RollType) -> D20RollType {
    if a == D20RollType::FixedNormal || b == D20RollType::FixedNormal {
        D20RollType::FixedNormal
    } else if a == D20RollType::Normal {
        b
    } else if b == D20RollType::Normal {
        a
    } else if a == b {
        a
    } else if a == D20RollType::Disadvantage || b == D20RollType::Disadvantage {
        D20RollType::FixedNormal
    } else {
        D20RollType::SuperAdvantage
    }
}

impl D20RollType {
    /// Numeric position of the roll type in declaration order.
    pub fn rank(&self) -> (r: u8)
        ensures
            r == roll_rank(*self),
    {
        match self {
            D20RollType::Disadvantage => 0,
            D20RollType::FixedNormal => 1,
            D20RollType::Normal => 2,
            D20RollType::Advantage => 3,
            D20RollType::SuperAdvantage => 4,
        }
    }

    /// The better of two roll types, in declaration order.
    pub fn choose_better(&self, other: &D20RollType) -> (r: D20RollType)
        ensures
            r == (if roll_rank(*self) > roll_rank(*other) { *self } else { *other }),
    {
        if self.rank() > other.rank() {
            *self
        } else {
            *other
        }
    }

    /// Combination of two roll modifiers (see `combine_rolls`).
    pub fn combine(self, rhs: D20RollType) -> (r: D20RollType)
        ensures
            r == combine_rolls(self, rhs),
    {
        if self == D20RollType::FixedNormal || rhs == D20RollType::FixedNormal {
            return D20RollType::FixedNormal;
        }
        if self == D20RollType::Normal {
            return rhs;
        } else if rhs == D20RollType::Normal {
            return self;
        }
        if self == rhs {
            return self;
        }
        if self == D20RollType::Disadvantage || rhs == D20RollType::Disadvantage {
            D20RollType::FixedNormal
        } else {
            D20RollType::SuperAdvantage
        }
    }
}

impl core::ops::Add<D20RollType> for D20RollType {
    type Output = D20RollType;

    fn add(self, rhs: D20RollType) -> (r: D20RollType) {
        self.combine(rhs)
    }
}

impl vstd::std_specs::ops::AddSpecImpl<D20RollType> for D20RollType {
    open spec fn obeys_add_spec() -> bool {
        true
    }

    open spec fn add_req(self, rhs: D20RollType) -> bool {
        true
    }

    open spec fn add_spec(self, rhs: D20RollType) -> D20RollType {
        combine_rolls(self, rhs)
    }
}

/// Combining roll modifiers does not depend on their order.
pub proof fn lemma_combine_commutative(a: D20RollType, b: D20RollType)
    ensures
        combine_rolls(a, b) == combine_rolls(b, a),
{
}

/// Combining several roll modifiers does not depend on how they are grouped.
pub proof fn lemma_combine_associative(a: D20RollType, b: D20RollType, c: D20RollType)
    ensures
        combine_rolls(combine_rolls(a, b), c) == combine_rolls(a, combine_rolls(b, c)),
{
}

/// A normal roll leaves the other modifier unchanged; a fixed-normal roll absorbs any other.
pub proof fn lemma_combine_normal_and_fixed(a: D20RollType)
    ensures
        combine_rolls(D20RollType::Normal, a) == a,
        combine_rolls(a, D20RollType::FixedNormal) == D20RollType::FixedNormal,
        combine_rolls(a, a) == a,
{
}

/// The better of two roll types is one of them and at least as good as both,
/// and the choice does not depend on the order of the arguments.
pub proof fn lemma_choose_better_is_max(a: D20RollType, b: D20RollType)
    ensures
        ({
            let r = if roll_rank(a) > roll_rank(b) { a } else { b };
            &&& roll_rank(r) >= roll_rank(a)
            &&& roll_rank(r) >= roll_rank(b)
            &&& (r == a || r == b)
            &&& r == (if roll_rank(b) > roll_rank(a) { b } else { a })
        }),
{
}

/// The kind of d20 rolled: a plain d20, a d20 rerolling ones, or a d20 whose
/// results below ten count as ten.
#[derive(Debug, Clone, Copy, PartialEq, Eq, Structural, PartialOrd, Ord)]
pub enum D20Type {
    D20,
    D20R1,
    D20m10,
}

/// Outcome of a pass/fail roll.
#[derive(Debug, Clone, Copy, PartialEq, Eq, Structural, Hash, PartialOrd, Ord)]
pub enum BinaryOutcome {
    Pass,
    Fail,
}

} // verus!
