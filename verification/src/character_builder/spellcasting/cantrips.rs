use vstd::prelude::*;
use crate::combat_core::ability_scores::Ability;

verus! {

/// The number of damage dice of a cantrip at a character level: 1, then 2
/// from level 5, 3 from level 11 and 4 from level 17.
pub open spec fn cantrip_dice(level: int) -> int {
    if level >= 17 { 4 } else if level >= 11 { 3 } else if level >= 5 { 2 } else { 1 }
}

/// The number of damage dice of a cantrip at a character level.
pub fn get_cantrip_dice(level: u8) -> (r: u8)
    ensures
        r == cantrip_dice(level as int),
{
    let mut num_dice: u8 = 1;
    if level >= 17 {
        num_dice = 4;
    } else if level >= 11 {
        num_dice = 3;
    } else if level >= 5 {
        num_dice = 2;
    }
    num_dice
}

/// The fire bolt cantrip, cast with the given ability.
#[derive(Debug, Clone, Copy)]
pub struct FireBoltCantrip(pub Ability);

} // verus!
