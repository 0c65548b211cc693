use vstd::prelude::*;
use crate::character_builder::character::CBError;
use crate::character_builder::classes::{ClassFeature, ClassName, SubclassFeatures, subclass_at};

verus! {

/// The fighter class.
#[derive(Debug, Clone, Copy)]
pub struct FighterClass;

/// The champion fighter subclass.
#[derive(Debug, Clone, Copy)]
pub struct ChampionFighter;

/// The second wind feature of fighters.
#[derive(Debug, Clone, Copy)]
pub struct SecondWind;

/// The action surge feature of fighters, with its number of uses.
#[derive(Debug, Clone, Copy)]
pub struct ActionSurge(pub usize);

/// The indomitable feature of fighters, with its number of uses.
#[derive(Debug, Clone, Copy)]
pub struct Indomitable(pub usize);

/// The improved critical feature of champions: the lowest roll that crits.
#[derive(Debug, Clone, Copy)]
pub struct ImprovedCritical(pub isize);

/// The features of the fighter class at each class level (none for levels outside one to twenty).
pub open spec fn fighter_features(level: int) -> Option<Seq<ClassFeature>> {
    if level == 1 {
        Some(seq![ClassFeature::SecondWind])
    } else if level == 2 {
        Some(seq![ClassFeature::ActionSurge(1)])
    } else if level == 3 {
        Some(seq![subclass_at(ClassName::Fighter, 3)])
    } else if level == 5 {
        Some(seq![ClassFeature::ExtraAttack(2)])
    } else if level == 7 {
        Some(seq![subclass_at(ClassName::Fighter, 7)])
    } else if level == 9 {
        Some(seq![ClassFeature::Indomitable(1)])
    } else if level == 10 {
        Some(seq![subclass_at(ClassName::Fighter, 10)])
    } else if level == 11 {
        Some(seq![ClassFeature::ExtraAttack(3)])
    } else if level == 13 {
        Some(seq![ClassFeature::Indomitable(2)])
    } else if level == 15 {
        Some(seq![subclass_at(ClassName::Fighter, 15)])
    } else if level == 17 {
        Some(seq![ClassFeature::Indomitable(3), ClassFeature::ActionSurge(2)])
    } else if level == 18 {
        Some(seq![subclass_at(ClassName::Fighter, 18)])
    } else if level == 20 {
        Some(seq![ClassFeature::ExtraAttack(4)])
    } else if 1 <= level <= 20 {
        Some(Seq::empty())
    } else {
        None
    }
}

impl FighterClass {
    /// The class this belongs to.
    pub fn get_class_name(&self) -> (r: ClassName)
        ensures
            r == ClassName::Fighter,
    {
        ClassName::Fighter
    }

    /// The features granted at a level, as `fighter_features` lists them; other levels are invalid.
    pub fn get_static_features(&self, level: u8) -> (r: Result<Vec<ClassFeature>, CBError>)
        ensures
            match fighter_features(level as int) {
                Some(s) => r matches Ok(v) && v@ == s,
                None => r matches Err(CBError::InvalidLevel),
            },
    {
        match level {
            1 => Ok(vec![ClassFeature::SecondWind]),
            2 => Ok(vec![ClassFeature::ActionSurge(1)]),
            3 => Ok(vec![ClassFeature::Subclass(SubclassFeatures { class_name: ClassName::Fighter, class_lvl: 3 })]),
            5 => Ok(vec![ClassFeature::ExtraAttack(2)]),
            7 => Ok(vec![ClassFeature::Subclass(SubclassFeatures { class_name: ClassName::Fighter, class_lvl: 7 })]),
            9 => Ok(vec![ClassFeature::Indomitable(1)]),
            10 => Ok(vec![ClassFeature::Subclass(SubclassFeatures { class_name: ClassName::Fighter, class_lvl: 10 })]),
            11 => Ok(vec![ClassFeature::ExtraAttack(3)]),
            13 => Ok(vec![ClassFeature::Indomitable(2)]),
            15 => Ok(vec![ClassFeature::Subclass(SubclassFeatures { class_name: ClassName::Fighter, class_lvl: 15 })]),
            17 => Ok(vec![ClassFeature::Indomitable(3), ClassFeature::ActionSurge(2)]),
            18 => Ok(vec![ClassFeature::Subclass(SubclassFeatures { class_name: ClassName::Fighter, class_lvl: 18 })]),
            20 => Ok(vec![ClassFeature::ExtraAttack(4)]),
            1..=20 => Ok(Vec::new()),
            _ => Err(CBError::InvalidLevel),
        }
    }
}

/// The features of the champion subclass at its levels.
pub open spec fn champion_features(level: int) -> Option<Seq<ClassFeature>> {
    if level == 3 {
        Some(seq![ClassFeature::ImprovedCritical(19)])
    } else if level == 7 {
        Some(seq![])
    } else if level == 10 {
        Some(seq![])
    } else if level == 15 {
        Some(seq![ClassFeature::ImprovedCritical(18)])
    } else if level == 18 {
        Some(seq![])
    } else {
        None
    }
}

impl ChampionFighter {
    /// The class this belongs to.
    pub fn get_class_name(&self) -> (r: ClassName)
        ensures
            r == ClassName::Fighter,
    {
        ClassName::Fighter
    }

    /// The features granted at a level, as `champion_features` lists them; other levels are invalid.
    pub fn get_static_features(&self, level: u8) -> (r: Result<Vec<ClassFeature>, CBError>)
        ensures
            match champion_features(level as int) {
                Some(s) => r matches Ok(v) && v@ == s,
                None => r matches Err(CBError::InvalidLevel),
            },
    {
        match level {
            3 => Ok(vec![ClassFeature::ImprovedCritical(19)]),
            7 => Ok(vec![]),
            10 => Ok(vec![]),
            15 => Ok(vec![ClassFeature::ImprovedCritical(18)]),
            18 => Ok(vec![]),
            _ => Err(CBError::InvalidLevel),
        }
    }
}

} // verus!
