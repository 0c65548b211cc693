use vstd::prelude::*;
use crate::combat_core::ability_scores::Ability;

verus! {

/// The fireball spell, whose saving throw DC uses the given ability.
#[derive(Debug, Clone, Copy)]
pub struct FireBallSpell(pub Ability);

/// The haste spell.
#[derive(Debug, Clone, Copy)]
pub struct HasteSpell;

} // verus!
