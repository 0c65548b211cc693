use vstd::prelude::*;

verus! {

/// The fighting styles.
#[derive(Debug, Clone, Copy, PartialEq, Eq, Structural)]
pub enum FightingStyles {
    Archery,
    Defense,
    Dueling,
    GreatWeaponFighting,
    TwoWeaponFighting,
}

/// The fighting style feature.
#[derive(Debug, Clone, Copy)]
pub struct FightingStyle(pub FightingStyles);

} // verus!
