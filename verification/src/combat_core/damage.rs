pub mod dice_expr;

use vstd::prelude::*;
use crate::combat_core::damage::dice_expr::DiceExprTerm;

verus! {

/// The dice that damage is rolled with.
#[derive(Debug, Clone, Copy, PartialEq, Eq, Structural)]
pub enum DamageDice {
    D4,
    D6,
    D8,
    D10,
    D12,
    TwoD6,
}

/// A die that is given directly, or read from the weapon in use.
#[derive(Debug, Clone, Copy, PartialEq, Eq, Structural)]
pub enum ExtendedDamageDice {
    Basic(DamageDice),
    WeaponDice,
    SingleWeaponDie,
}

/// A single die of a weapon's damage dice: two d6 become one d6.
pub open spec fn single_die(dd: DamageDice) -> DamageDice {
    match dd {
        DamageDice::TwoD6 => DamageDice::D6,
        d => d,
    }
}

impl ExtendedDamageDice {
    /// A single die of the given damage dice (two d6 give one d6).
    pub fn get_single_die(dd: DamageDice) -> (r: DamageDice)
        ensures
            r == single_die(dd),
    {
        match dd {
            DamageDice::TwoD6 => DamageDice::D6,
            d => d,
        }
    }
}

impl From<DamageDice> for ExtendedDamageDice {
    fn from(value: DamageDice) -> (r: Self) {
        ExtendedDamageDice::Basic(value)
    }
}

impl vstd::std_specs::convert::FromSpecImpl<DamageDice> for ExtendedDamageDice {
    open spec fn obeys_from_spec() -> bool {
        true
    }

    open spec fn from_spec(v: DamageDice) -> ExtendedDamageDice {
        ExtendedDamageDice::Basic(v)
    }
}

/// A feature that changes how damage is computed.
#[derive(Debug, Clone, Copy, PartialEq, Eq, Structural, Hash)]
pub enum DamageFeature {
    GWF,
    DmgTypeConversion(DamageType),
}

/// The kinds of damage.
#[derive(Debug, Clone, Copy, PartialEq, Eq, Structural, Hash)]
pub enum DamageType {
    Acid,
    Bludgeoning,
    Cold,
    Fire,
    Force,
    Lightning,
    Necrotic,
    Piercing,
    Poison,
    Psychic,
    Radiant,
    Slashing,
    Thunder,
}

/// A damage type that is given directly, or read from the weapon in use.
#[derive(Debug, Clone, Copy, PartialEq, Eq, Structural, Hash)]
pub enum ExtendedDamageType {
    Basic(DamageType),
    WeaponDamage,
}

impl From<DamageType> for ExtendedDamageType {
    fn from(value: DamageType) -> (r: Self) {
        ExtendedDamageType::Basic(value)
    }
}

impl vstd::std_specs::convert::FromSpecImpl<DamageType> for ExtendedDamageType {
    open spec fn obeys_from_spec() -> bool {
        true
    }

    open spec fn from_spec(v: DamageType) -> ExtendedDamageType {
        ExtendedDamageType::Basic(v)
    }
}

/// One term of a damage expression, with its damage type.
#[derive(Debug, Clone, Copy, PartialEq, Eq, Structural)]
pub struct DamageTerm {
    pub expr: DiceExprTerm,
    pub dmg_type: ExtendedDamageType,
}

impl DamageTerm {
    /// A damage term of the given dice and type.
    pub fn new(expr: DiceExprTerm, dmg_type: ExtendedDamageType) -> (r: Self)
        ensures
            r.expr == expr,
            r.dmg_type == dmg_type,
    {
        DamageTerm { expr, dmg_type }
    }

    /// The dice of the term.
    pub fn get_expr(&self) -> (r: &DiceExprTerm)
        ensures
            *r == self.expr,
    {
        &self.expr
    }

    /// The damage type of the term.
    pub fn get_dmg_type(&self) -> (r: &ExtendedDamageType)
        ensures
            *r == self.dmg_type,
    {
        &self.dmg_type
    }
}

} // verus!
