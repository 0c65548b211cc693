pub mod feats;
pub mod fighting_style;

use vstd::prelude::*;
use crate::combat_core::ability_scores::Ability;

verus! {

/// An ability score increase: one point to each of two abilities (the same twice for two points).
#[derive(Debug, Clone, Copy)]
pub struct AbilityScoreIncrease(pub Ability, pub Ability);

impl From<Ability> for AbilityScoreIncrease {
    fn from(value: Ability) -> (r: Self) {
        AbilityScoreIncrease(value, value)
    }
}

impl vstd::std_specs::convert::FromSpecImpl<Ability> for AbilityScoreIncrease {
    open spec fn obeys_from_spec() -> bool {
        true
    }

    open spec fn from_spec(v: Ability) -> AbilityScoreIncrease {
        AbilityScoreIncrease(v, v)
    }
}

/// Proficiency in the saving throws of some abilities.
#[derive(Debug, Clone)]
pub struct SaveProficiencies {
    pub abilities: Vec<Ability>,
}

impl From<Vec<Ability>> for SaveProficiencies {
    /// Proficiency in the saves of `value`.
    fn from(value: Vec<Ability>) -> (r: Self)
        ensures
            r.abilities@ == value@,
    {
        SaveProficiencies { abilities: value }
    }
}

// Proficiencies hold a vector, which no spec value can build: the contracts
// are the `ensures` of each `from`, in terms of views.
impl vstd::std_specs::convert::FromSpecImpl<Vec<Ability>> for SaveProficiencies {
    open spec fn obeys_from_spec() -> bool {
        false
    }

    open spec fn from_spec(v: Vec<Ability>) -> SaveProficiencies {
        arbitrary()
    }
}

impl From<Ability> for SaveProficiencies {
    /// Proficiency in the saves of one ability.
    fn from(value: Ability) -> (r: Self)
        ensures
            r.abilities@ == seq![value],
    {
        let mut abilities = Vec::new();
        abilities.push(value);
        SaveProficiencies { abilities }
    }
}

impl vstd::std_specs::convert::FromSpecImpl<Ability> for SaveProficiencies {
    open spec fn obeys_from_spec() -> bool {
        false
    }

    open spec fn from_spec(v: Ability) -> SaveProficiencies {
        arbitrary()
    }
}

impl From<(Ability, Ability)> for SaveProficiencies {
    /// Proficiency in the saves of two abilities.
    fn from(value: (Ability, Ability)) -> (r: Self)
        ensures
            r.abilities@ == seq![value.0, value.1],
    {
        let mut abilities = Vec::new();
        abilities.push(value.0);
        abilities.push(value.1);
        SaveProficiencies { abilities }
    }
}

impl vstd::std_specs::convert::FromSpecImpl<(Ability, Ability)> for SaveProficiencies {
    open spec fn obeys_from_spec() -> bool {
        false
    }

    open spec fn from_spec(v: (Ability, Ability)) -> SaveProficiencies {
        arbitrary()
    }
}

/// The extra attack feature: the number of attacks of the attack action.
#[derive(Debug, Clone, Copy)]
pub struct ExtraAttack(pub u8);

} // verus!
