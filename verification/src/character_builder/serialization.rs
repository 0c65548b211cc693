use vstd::prelude::*;
use crate::combat_core::ability_scores::Ability;
use crate::character_builder::classes::ClassName;
use crate::character_builder::equipment::{
    ACSource, Armor, ArmorName, Equipment, OffHand, Weapon, WeaponName, armor_facts, weapon_facts, weapon_props,
    weapon_title,
};
use crate::character_builder::feature::fighting_style::FightingStyles;

verus! {

/// A character as written down: name, base ability scores (strength,
/// dexterity, constitution, intelligence, wisdom, charisma), equipment and
/// the level ups in order.
#[derive(Debug, Clone)]
pub struct CharacterDescription {
    pub name: String,
    pub base_ability_scores: [u8; 6],
    pub equipment: EquipmentDescription,
    pub level_ups: Vec<LevelUp>,
}

impl CharacterDescription {
    /// A first-level description with no level ups yet.
    pub fn new(name: String, scores: [u8; 6], equipment: EquipmentDescription) -> (r: Self)
        ensures
            r.name@ == name@,
            r.base_ability_scores == scores,
            r.equipment == equipment,
            r.level_ups@.len() == 0,
    {
        CharacterDescription { name, base_ability_scores: scores, equipment, level_ups: Vec::new() }
    }

    /// Adds a level up after the others.
    pub fn lvl_up(&mut self, lvl: LevelUp)
        ensures
            final(self).level_ups@ == old(self).level_ups@.push(lvl),
            final(self).name@ == old(self).name@,
            final(self).base_ability_scores == old(self).base_ability_scores,
            final(self).equipment == old(self).equipment,
    {
        self.level_ups.push(lvl);
    }
}

/// Equipment as written down: named armor and weapon with optional magic
/// bonuses, and the off hand.
#[derive(Debug, Clone, Copy, PartialEq, Eq, Structural)]
pub struct EquipmentDescription {
    pub armor_name: ArmorName,
    pub armor_mb: Option<u8>,
    pub weapon_name: WeaponName,
    pub weapon_mb: Option<u8>,
    pub off_hand: OffHandDescription,
}

/// A named weapon with the given magic bonus is what `w` is.
pub open spec fn is_named_weapon(w: Weapon, n: WeaponName, mb: Option<u8>) -> bool {
    &&& w.name_of() == weapon_title(n)@
    &&& w.type_of() == weapon_facts(n).0
    &&& w.dice_of() == weapon_facts(n).1
    &&& w.dmg_type_of() == weapon_facts(n).2
    &&& w.props_of() == weapon_props(n)
    &&& w.bonus_of() == mb
}

/// A named armor with the given magic bonus is what `a` is.
pub open spec fn is_named_armor(a: Armor, n: ArmorName, mb: Option<u8>) -> bool {
    &&& a.type_of() == armor_facts(n).0
    &&& a.name_of() == armor_facts(n).1@
    &&& a.ac_of().base_of() == armor_facts(n).2
    &&& a.ac_of().bonus_of() == mb
}

/// The off hand `o` is what the description `d` describes.
pub open spec fn describes_off_hand(d: OffHandDescription, o: OffHand) -> bool {
    match d {
        OffHandDescription::Weapon(wn, mb) => o matches OffHand::Weapon(w) && is_named_weapon(w, wn, mb),
        OffHandDescription::Shield(acs) => o == OffHand::Shield(acs),
        OffHandDescription::Free => o is Free,
    }
}

/// A weapon of a name, with the magic bonus if there is one.
fn named_weapon(wn: WeaponName, mb: Option<u8>) -> (r: Weapon)
    ensures
        is_named_weapon(r, wn, mb),
{
    let mut weapon = Weapon::from(wn);
    if let Some(b) = mb {
        weapon.set_magic_bonus(b);
    }
    weapon
}

impl EquipmentDescription {
    /// A description of the named armor and weapon, without magic bonuses.
    pub fn new(an: ArmorName, wn: WeaponName, oh: OffHandDescription) -> (r: Self)
        ensures
            r == (EquipmentDescription { armor_name: an, armor_mb: None, weapon_name: wn, weapon_mb: None, off_hand: oh }),
    {
        EquipmentDescription { armor_name: an, armor_mb: None, weapon_name: wn, weapon_mb: None, off_hand: oh }
    }

    /// The equipment described.
    pub fn to_equipment(&self) -> (r: Equipment)
        ensures
            is_named_armor(r.armor_of(), self.armor_name, self.armor_mb),
            is_named_weapon(r.main_of(), self.weapon_name, self.weapon_mb),
            describes_off_hand(self.off_hand, r.off_of()),
    {
        let mut armor = Armor::from(self.armor_name);
        if let Some(b) = self.armor_mb {
            armor.set_magic_bonus(b);
        }
        let weapon = named_weapon(self.weapon_name, self.weapon_mb);
        Equipment::new(armor, weapon, self.off_hand.to_offhand())
    }
}

/// The off hand as written down: a named weapon with an optional magic
/// bonus, a shield, or nothing.
#[derive(Debug, Clone, Copy, PartialEq, Eq, Structural)]
pub enum OffHandDescription {
    Weapon(WeaponName, Option<u8>),
    Shield(ACSource),
    Free,
}

impl OffHandDescription {
    /// The off hand described.
    pub fn to_offhand(&self) -> (r: OffHand)
        ensures
            describes_off_hand(*self, r),
    {
        match self {
            OffHandDescription::Weapon(wn, mb) => OffHand::Weapon(named_weapon(*wn, *mb)),
            OffHandDescription::Shield(acs) => OffHand::Shield(*acs),
            OffHandDescription::Free => OffHand::Free,
        }
    }
}

/// One level up: the class that gains a level, and the features chosen.
#[derive(Debug, Clone)]
pub struct LevelUp {
    pub class: ClassName,
    pub features: Vec<FeatureName>,
}

impl LevelUp {
    /// A level up of class `cn` with one feature chosen.
    pub fn feature(cn: ClassName, feat: FeatureName) -> (r: Self)
        ensures
            r.class == cn,
            r.features@ == seq![feat],
    {
        let mut features = Vec::new();
        features.push(feat);
        LevelUp { class: cn, features }
    }

    /// A level up of class `cn` with the features chosen.
    pub fn new(cn: ClassName, fns: Vec<FeatureName>) -> (r: Self)
        ensures
            r.class == cn,
            r.features@ == fns@,
    {
        LevelUp { class: cn, features: fns }
    }
}

impl From<ClassName> for LevelUp {
    /// A level up of the class with no feature chosen.
    fn from(value: ClassName) -> (r: Self)
        ensures
            r.class == value,
            r.features@.len() == 0,
    {
        LevelUp { class: value, features: Vec::new() }
    }
}

// A level up holds a vector, which no spec value can build: the contract is
// the `ensures` of `from` itself.
impl vstd::std_specs::convert::FromSpecImpl<ClassName> for LevelUp {
    open spec fn obeys_from_spec() -> bool {
        false
    }

    open spec fn from_spec(v: ClassName) -> LevelUp {
        arbitrary()
    }
}

/// The features a level up can choose, as written down.
#[derive(Debug, Clone)]
pub enum FeatureName {
    ASI(Ability, Ability),
    SaveProfs(Vec<Ability>),
    ExtraAttack(usize),
    FightingStyle(FightingStyles),
    GreatWeaponMaster,
    PolearmMaster,
    Resilient(Ability),
    SharpShooter,
    ShieldMaster,
    Subclass(SubClassName),
    FireBolt(Ability),
    Fireball(Ability),
    Haste,
    GreaterInvisibility,
}

/// The subclasses, as written down.
#[derive(Debug, Clone, Copy, PartialEq, Eq, Structural, Hash, PartialOrd, Ord)]
pub enum SubClassName {
    ChampionFighter,
    HorizonWalkerRanger,
    ScoutRogue,
    ArcaneTricksterRogue,
    ConjurationWizard,
}

} // verus!
