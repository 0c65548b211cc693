pub mod fighter;
pub mod ranger;
pub mod rogue;
pub mod wizard;

use vstd::prelude::*;
use crate::combat_core::ability_scores::Ability;
use crate::combat_core::health::HitDice;
use crate::character_builder::feature::SaveProficiencies;
use crate::character_builder::character::CBError;

verus! {

/// The features a class grants through its subclass at a class level.
#[derive(Debug, Clone, Copy, PartialEq, Eq, Structural)]
pub struct SubclassFeatures {
    pub class_name: ClassName,
    pub class_lvl: u8,
}

/// A feature that a class or subclass grants at some level.
#[derive(Debug, Clone, Copy, PartialEq, Eq, Structural)]
pub enum ClassFeature {
    Subclass(SubclassFeatures),
    SecondWind,
    ActionSurge(usize),
    ExtraAttack(u8),
    Indomitable(usize),
    ImprovedCritical(isize),
    FavoredFoe,
    PlanarWarrior,
    SneakAttack(u8),
    SaveProficiency(Ability),
}

/// The subclass features of `class` at a class level, as a class grants them.
pub open spec fn subclass_at(class: ClassName, lvl: int) -> ClassFeature {
    ClassFeature::Subclass(SubclassFeatures { class_name: class, class_lvl: lvl as u8 })
}

/// The subclass features of `class` at a class level.
pub fn get_subclass_features(class: ClassName, class_lvl: u8) -> (r: Vec<ClassFeature>)
    ensures
        r@ == seq![subclass_at(class, class_lvl as int)],
{
    vec![ClassFeature::Subclass(SubclassFeatures { class_name: class, class_lvl })]
}

/// How much of a spellcaster a class is.
#[derive(Debug, Clone, Copy, PartialEq, Eq, Structural, Hash, PartialOrd, Ord)]
pub enum SpellCasterType {
    Martial,
    ThirdCaster,
    HalfCaster,
    FullCaster,
}

/// The character classes.
#[derive(Debug, Clone, Copy, PartialEq, Eq, Structural, Hash, PartialOrd, Ord)]
pub enum ClassName {
    Barbarian,
    Bard,
    Cleric,
    Druid,
    Fighter,
    Monk,
    Paladin,
    Ranger,
    Rogue,
    Sorcerer,
    Warlock,
    Wizard,
}

/// The hit die of a class.
pub open spec fn hit_die_of(c: ClassName) -> HitDice {
    match c {
        ClassName::Barbarian => HitDice::D12,
        ClassName::Fighter | ClassName::Paladin | ClassName::Ranger => HitDice::D10,
        ClassName::Sorcerer | ClassName::Wizard => HitDice::D6,
        _ => HitDice::D8,
    }
}

/// The two saving throws a class is proficient in.
pub open spec fn save_profs_of(c: ClassName) -> (Ability, Ability) {
    match c {
        ClassName::Barbarian => (Ability::STR, Ability::CON),
        ClassName::Bard => (Ability::DEX, Ability::CHA),
        ClassName::Cleric => (Ability::WIS, Ability::CHA),
        ClassName::Druid => (Ability::INT, Ability::WIS),
        ClassName::Fighter => (Ability::STR, Ability::CON),
        ClassName::Monk => (Ability::STR, Ability::DEX),
        ClassName::Paladin => (Ability::WIS, Ability::CHA),
        ClassName::Ranger => (Ability::STR, Ability::DEX),
        ClassName::Rogue => (Ability::DEX, Ability::INT),
        ClassName::Sorcerer => (Ability::CON, Ability::CHA),
        ClassName::Warlock => (Ability::WIS, Ability::CHA),
        ClassName::Wizard => (Ability::INT, Ability::WIS),
    }
}

/// The spellcasting a class has unless a subclass changes it.
pub open spec fn default_spellcasting_of(c: ClassName) -> SpellCasterType {
    match c {
        ClassName::Barbarian | ClassName::Fighter | ClassName::Monk | ClassName::Rogue => SpellCasterType::Martial,
        ClassName::Paladin | ClassName::Ranger => SpellCasterType::HalfCaster,
        _ => SpellCasterType::FullCaster,
    }
}

impl ClassName {
    /// The hit die of the class.
    pub fn get_hit_die(&self) -> (r: HitDice)
        ensures
            r == hit_die_of(*self),
    {
        match self {
            ClassName::Barbarian => HitDice::D12,
            ClassName::Bard => HitDice::D8,
            ClassName::Cleric => HitDice::D8,
            ClassName::Druid => HitDice::D8,
            ClassName::Fighter => HitDice::D10,
            ClassName::Monk => HitDice::D8,
            ClassName::Paladin => HitDice::D10,
            ClassName::Ranger => HitDice::D10,
            ClassName::Rogue => HitDice::D8,
            ClassName::Sorcerer => HitDice::D6,
            ClassName::Warlock => HitDice::D8,
            ClassName::Wizard => HitDice::D6,
        }
    }

    /// The saving throw proficiencies of the class.
    pub fn get_save_profs(&self) -> (r: SaveProficiencies)
        ensures
            r.abilities@ == seq![save_profs_of(*self).0, save_profs_of(*self).1],
    {
        let profs = match self {
            ClassName::Barbarian => (Ability::STR, Ability::CON),
            ClassName::Bard => (Ability::DEX, Ability::CHA),
            ClassName::Cleric => (Ability::WIS, Ability::CHA),
            ClassName::Druid => (Ability::INT, Ability::WIS),
            ClassName::Fighter => (Ability::STR, Ability::CON),
            ClassName::Monk => (Ability::STR, Ability::DEX),
            ClassName::Paladin => (Ability::WIS, Ability::CHA),
            ClassName::Ranger => (Ability::STR, Ability::DEX),
            ClassName::Rogue => (Ability::DEX, Ability::INT),
            ClassName::Sorcerer => (Ability::CON, Ability::CHA),
            ClassName::Warlock => (Ability::WIS, Ability::CHA),
            ClassName::Wizard => (Ability::INT, Ability::WIS),
        };
        SaveProficiencies::from(profs)
    }

    /// The spellcasting of the class unless a subclass changes it.
    pub fn get_default_spellcasting(&self) -> (r: SpellCasterType)
        ensures
            r == default_spellcasting_of(*self),
    {
        match self {
            ClassName::Barbarian => SpellCasterType::Martial,
            ClassName::Bard => SpellCasterType::FullCaster,
            ClassName::Cleric => SpellCasterType::FullCaster,
            ClassName::Druid => SpellCasterType::FullCaster,
            ClassName::Fighter => SpellCasterType::Martial,
            ClassName::Monk => SpellCasterType::Martial,
            ClassName::Paladin => SpellCasterType::HalfCaster,
            ClassName::Ranger => SpellCasterType::HalfCaster,
            ClassName::Rogue => SpellCasterType::Martial,
            ClassName::Sorcerer => SpellCasterType::FullCaster,
            ClassName::Warlock => SpellCasterType::FullCaster,
            ClassName::Wizard => SpellCasterType::FullCaster,
        }
    }

    /// The name of the class, such as "Fighter".
    pub fn to_string(&self) -> (r: String)
        ensures
            r@ == class_title(*self)@,
    {
        String::from_str(class_title_exec(self))
    }
}

/// The name of a class.
pub open spec fn class_title(c: ClassName) -> &'static str {
    match c {
        ClassName::Barbarian => "Barbarian",
        ClassName::Bard => "Bard",
        ClassName::Cleric => "Cleric",
        ClassName::Druid => "Druid",
        ClassName::Fighter => "Fighter",
        ClassName::Monk => "Monk",
        ClassName::Paladin => "Paladin",
        ClassName::Ranger => "Ranger",
        ClassName::Rogue => "Rogue",
        ClassName::Sorcerer => "Sorcerer",
        ClassName::Warlock => "Warlock",
        ClassName::Wizard => "Wizard",
    }
}

fn class_title_exec(c: &ClassName) -> (r: &'static str)
    ensures
        r@ == class_title(*c)@,
{
    match c {
        ClassName::Barbarian => "Barbarian",
        ClassName::Bard => "Bard",
        ClassName::Cleric => "Cleric",
        ClassName::Druid => "Druid",
        ClassName::Fighter => "Fighter",
        ClassName::Monk => "Monk",
        ClassName::Paladin => "Paladin",
        ClassName::Ranger => "Ranger",
        ClassName::Rogue => "Rogue",
        ClassName::Sorcerer => "Sorcerer",
        ClassName::Warlock => "Warlock",
        ClassName::Wizard => "Wizard",
    }
}

/// Who casts spells by default: bards, clerics, druids, sorcerers, warlocks
/// and wizards count every level, paladins and rangers half of it, and
/// barbarians, fighters, monks and rogues none.
pub proof fn lemma_spellcasting_by_class(c: ClassName)
    ensures
        (c == ClassName::Barbarian || c == ClassName::Fighter || c == ClassName::Monk || c == ClassName::Rogue)
            <==> default_spellcasting_of(c) == SpellCasterType::Martial,
        (c == ClassName::Paladin || c == ClassName::Ranger) <==> default_spellcasting_of(c) == SpellCasterType::HalfCaster,
        default_spellcasting_of(c) != SpellCasterType::ThirdCaster,
{
}

} // verus!
