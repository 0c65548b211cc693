use vstd::prelude::*;

verus! {

/// The damage dice of weapons.
#[derive(Debug, Clone, Copy, PartialEq, Eq, Structural)]
pub enum DamageDice {
    D4,
    D6,
    D8,
    D10,
    D12,
    TwoD6,
}

/// Damage dice, or the dice of the weapon used.
#[derive(Debug, Clone, Copy, PartialEq, Eq, Structural)]
pub enum ExtendedDamageDice {
    Basic(DamageDice),
    WeaponDice,
    // a single die of the weapon's dice, as brutal critical uses
    SingleWeaponDie,
}

/// A single die of the given dice: one d6 for two d6, else the dice themselves.
pub open spec fn single_die(dd: DamageDice) -> DamageDice {
    match dd {
        DamageDice::TwoD6 => DamageDice::D6,
        d => d,
    }
}

impl ExtendedDamageDice {
    /// A single die of the given dice: one d6 for two d6, else the dice themselves.
    pub fn get_single_die(dd: DamageDice) -> (r: DamageDice)
        ensures
            r == single_die(dd),
    {
        match dd {
            DamageDice::TwoD6 => DamageDice::D6,
            d => d,
        }
    }
}

impl From<DamageDice> for ExtendedDamageDice {
    fn from(value: DamageDice) -> (r: Self) {
        ExtendedDamageDice::Basic(value)
    }
}

impl vstd::std_specs::convert::FromSpecImpl<DamageDice> for ExtendedDamageDice {
    open spec fn obeys_from_spec() -> bool {
        true
    }

    open spec fn from_spec(v: DamageDice) -> ExtendedDamageDice {
        ExtendedDamageDice::Basic(v)
    }
}

/// Features that change how damage is rolled.
#[derive(Debug, Clone, Copy, PartialEq, Eq, Structural, Hash)]
pub enum DamageFeature {
    GWF,
}

/// The types of damage.
#[derive(Debug, Clone, Copy, PartialEq, Eq, Structural, Hash)]
pub enum DamageType {
    Acid,
    Bludgeoning,
    Cold,
    Fire,
    Force,
    Lightning,
    Necrotic,
    Piercing,
    Poison,
    Psychic,
    Radiant,
    Slashing,
    Thunder,
}

/// A damage type, or the damage type of the weapon used.
#[derive(Debug, Clone, Copy, PartialEq, Eq, Structural, Hash)]
pub enum ExtendedDamageType {
    Basic(DamageType),
    WeaponDamage,
}

impl From<DamageType> for ExtendedDamageType {
    fn from(value: DamageType) -> (r: Self) {
        ExtendedDamageType::Basic(value)
    }
}

impl vstd::std_specs::convert::FromSpecImpl<DamageType> for ExtendedDamageType {
    open spec fn obeys_from_spec() -> bool {
        true
    }

    open spec fn from_spec(v: DamageType) -> ExtendedDamageType {
        ExtendedDamageType::Basic(v)
    }
}

/// An amount of damage: one die, a number of dice, or a constant.
#[derive(Debug, Clone, Copy, PartialEq, Eq, Structural)]
pub enum DamageInstance {
    Die(ExtendedDamageDice),
    Dice(u32, ExtendedDamageDice),
    Const(isize),
}

/// An amount of damage of a type.
#[derive(Debug, Clone, Copy, PartialEq, Eq, Structural)]
pub struct DamageTerm {
    dmg: DamageInstance,
    dmg_type: ExtendedDamageType,
}

impl DamageTerm {
    /// The amount.
    pub closed spec fn dmg_of(self) -> DamageInstance {
        self.dmg
    }

    /// The type.
    pub closed spec fn type_of(self) -> ExtendedDamageType {
        self.dmg_type
    }

    /// The damage `dmg` of type `dmg_type`.
    pub fn new(dmg: DamageInstance, dmg_type: ExtendedDamageType) -> (r: Self)
        ensures
            r.dmg_of() == dmg,
            r.type_of() == dmg_type,
    {
        DamageTerm { dmg, dmg_type }
    }

    /// The amount.
    pub fn get_dmg(&self) -> (r: &DamageInstance)
        ensures
            *r == self.dmg_of(),
    {
        &self.dmg
    }

    /// The type.
    pub fn get_dmg_type(&self) -> (r: &ExtendedDamageType)
        ensures
            *r == self.type_of(),
    {
        &self.dmg_type
    }
}

} // verus!
