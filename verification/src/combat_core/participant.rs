use vstd::prelude::*;
use crate::combat_core::damage::DamageType;

verus! {

/// The side a participant fights on.
#[derive(Debug, Clone, Copy, PartialEq, Eq, Structural)]
pub enum Team {
    Players,
    Enemies,
}

/// What the combat model needs to know of a participant between turns.
#[derive(Debug, Clone)]
pub struct ParticipantData {
    pub team: Team,
    pub ac: isize,
    pub max_hp: isize,
    pub resistances: Vec<DamageType>,
}

/// The position of a participant in initiative order.
#[derive(Debug, Clone, Copy, PartialEq, Eq, Structural, Hash, PartialOrd, Ord)]
pub struct ParticipantId(pub usize);

impl ParticipantId {
    /// The placeholder id that a participant uses for itself before it is
    /// registered in an encounter.
    pub fn me() -> (r: Self)
        ensures
            r == ParticipantId(usize::MAX),
    {
        ParticipantId(usize::MAX)
    }
}

impl From<usize> for ParticipantId {
    fn from(value: usize) -> (r: Self) {
        ParticipantId(value)
    }
}

impl vstd::std_specs::convert::FromSpecImpl<usize> for ParticipantId {
    open spec fn obeys_from_spec() -> bool {
        true
    }

    open spec fn from_spec(v: usize) -> ParticipantId {
        ParticipantId(v)
    }
}

} // verus!
