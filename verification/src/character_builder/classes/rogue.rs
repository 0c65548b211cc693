use vstd::prelude::*;
use crate::character_builder::character::CBError;
use crate::character_builder::classes::{ClassFeature, ClassName, SubclassFeatures, subclass_at};
use crate::combat_core::ability_scores::Ability;

verus! {

/// The rogue class.
#[derive(Debug, Clone, Copy)]
pub struct RogueClass;

/// The number of sneak attack dice of a rogue of a level: half the level, rounded up.
pub open spec fn sneak_attack_dice(level: int) -> int {
    (level + 1) / 2
}

impl RogueClass {
    /// The sneak attack feature at a rogue level: half the level, rounded up, in dice.
    pub fn sneak_attack(&self, level: u8) -> (r: Box<SneakAttack>)
        requires
            level < u8::MAX,
        ensures
            r.0 == sneak_attack_dice(level as int),
    {
        Box::new(SneakAttack((level + 1) / 2))
    }
}

/// The scout rogue subclass.
#[derive(Debug, Clone, Copy)]
pub struct ScoutRogue;

/// The sneak attack feature of rogues, with its number of d6.
#[derive(Debug, Clone, Copy)]
pub struct SneakAttack(pub u8);

/// The features of the rogue class at each class level (none for levels outside one to twenty): sneak attack grows every odd level.
pub open spec fn rogue_features(level: int) -> Option<Seq<ClassFeature>> {
    if level == 1 {
        Some(seq![ClassFeature::SneakAttack(1)])
    } else if level == 3 {
        Some(seq![subclass_at(ClassName::Rogue, 3), ClassFeature::SneakAttack(2)])
    } else if level == 5 {
        Some(seq![ClassFeature::SneakAttack(3)])
    } else if level == 7 {
        Some(seq![ClassFeature::SneakAttack(4)])
    } else if level == 9 {
        Some(seq![subclass_at(ClassName::Rogue, 9), ClassFeature::SneakAttack(5)])
    } else if level == 11 {
        Some(seq![ClassFeature::SneakAttack(6)])
    } else if level == 13 {
        Some(seq![subclass_at(ClassName::Rogue, 13), ClassFeature::SneakAttack(7)])
    } else if level == 15 {
        Some(seq![ClassFeature::SneakAttack(8), ClassFeature::SaveProficiency(Ability::WIS)])
    } else if level == 17 {
        Some(seq![subclass_at(ClassName::Rogue, 17), ClassFeature::SneakAttack(9)])
    } else if level == 19 {
        Some(seq![ClassFeature::SneakAttack(10)])
    } else if 1 <= level <= 20 {
        Some(Seq::empty())
    } else {
        None
    }
}

impl RogueClass {
    /// The class this belongs to.
    pub fn get_class_name(&self) -> (r: ClassName)
        ensures
            r == ClassName::Rogue,
    {
        ClassName::Rogue
    }

    /// The features granted at a level, as `rogue_features` lists them; other levels are invalid.
    pub fn get_static_features(&self, level: u8) -> (r: Result<Vec<ClassFeature>, CBError>)
        ensures
            match rogue_features(level as int) {
                Some(s) => r matches Ok(v) && v@ == s,
                None => r matches Err(CBError::InvalidLevel),
            },
    {
        match level {
            1 => Ok(vec![ClassFeature::SneakAttack(1)]),
            3 => Ok(vec![ClassFeature::Subclass(SubclassFeatures { class_name: ClassName::Rogue, class_lvl: 3 }), ClassFeature::SneakAttack(2)]),
            5 => Ok(vec![ClassFeature::SneakAttack(3)]),
            7 => Ok(vec![ClassFeature::SneakAttack(4)]),
            9 => Ok(vec![ClassFeature::Subclass(SubclassFeatures { class_name: ClassName::Rogue, class_lvl: 9 }), ClassFeature::SneakAttack(5)]),
            11 => Ok(vec![ClassFeature::SneakAttack(6)]),
            13 => Ok(vec![ClassFeature::Subclass(SubclassFeatures { class_name: ClassName::Rogue, class_lvl: 13 }), ClassFeature::SneakAttack(7)]),
            15 => Ok(vec![ClassFeature::SneakAttack(8), ClassFeature::SaveProficiency(Ability::WIS)]),
            17 => Ok(vec![ClassFeature::Subclass(SubclassFeatures { class_name: ClassName::Rogue, class_lvl: 17 }), ClassFeature::SneakAttack(9)]),
            19 => Ok(vec![ClassFeature::SneakAttack(10)]),
            1..=20 => Ok(Vec::new()),
            _ => Err(CBError::InvalidLevel),
        }
    }
}

/// The features of the scout subclass at its levels.
pub open spec fn scout_features(level: int) -> Option<Seq<ClassFeature>> {
    if level == 3 {
        Some(seq![])
    } else if level == 9 {
        Some(seq![])
    } else if level == 13 {
        Some(seq![])
    } else if level == 17 {
        Some(seq![])
    } else {
        None
    }
}

impl ScoutRogue {
    /// The class this belongs to.
    pub fn get_class_name(&self) -> (r: ClassName)
        ensures
            r == ClassName::Rogue,
    {
        ClassName::Rogue
    }

    /// The features granted at a level, as `scout_features` lists them; other levels are invalid.
    pub fn get_static_features(&self, level: u8) -> (r: Result<Vec<ClassFeature>, CBError>)
        ensures
            match scout_features(level as int) {
                Some(s) => r matches Ok(v) && v@ == s,
                None => r matches Err(CBError::InvalidLevel),
            },
    {
        match level {
            3 => Ok(vec![]),
            9 => Ok(vec![]),
            13 => Ok(vec![]),
            17 => Ok(vec![]),
            _ => Err(CBError::InvalidLevel),
        }
    }
}

/// Sneak attack grows at every odd rogue level: the features of such a
/// level hold the sneak attack of that level, with half the level, rounded
/// up, in dice.
pub proof fn lemma_sneak_attack_every_odd_level(level: int)
    requires
        1 <= level <= 20,
        level % 2 == 1,
    ensures
        rogue_features(level) matches Some(s) && s.contains(ClassFeature::SneakAttack(sneak_attack_dice(level) as u8)),
{
    let s = rogue_features(level)->0;
    let f = ClassFeature::SneakAttack(sneak_attack_dice(level) as u8);
    if level == 1 || level == 5 || level == 7 || level == 11 || level == 15 || level == 19 {
        assert(s[0] == f);
    } else {
        assert(s[1] == f);
    }
}

} // verus!
