use vstd::prelude::*;
use crate::character_builder::character::CBError;
use crate::character_builder::classes::{ClassFeature, ClassName, SubclassFeatures, subclass_at};

verus! {

/// The variant ranger class.
#[derive(Debug, Clone, Copy)]
pub struct VariantRangerClass;

/// The horizon walker ranger subclass.
#[derive(Debug, Clone, Copy)]
pub struct HorizonWalkerRanger;

/// The favored foe feature of rangers.
#[derive(Debug, Clone, Copy)]
pub struct FavoredFoe;

/// The planar warrior feature of horizon walkers.
#[derive(Debug, Clone, Copy)]
pub struct PlanarWarrior;

/// The features of the variant ranger class at each class level (none for levels outside one to twenty).
pub open spec fn ranger_features(level: int) -> Option<Seq<ClassFeature>> {
    if level == 1 {
        Some(seq![ClassFeature::FavoredFoe])
    } else if level == 3 {
        Some(seq![subclass_at(ClassName::Ranger, 3)])
    } else if level == 5 {
        Some(seq![ClassFeature::ExtraAttack(2)])
    } else if level == 7 {
        Some(seq![subclass_at(ClassName::Ranger, 7)])
    } else if level == 11 {
        Some(seq![subclass_at(ClassName::Ranger, 11)])
    } else if level == 15 {
        Some(seq![subclass_at(ClassName::Ranger, 15)])
    } else if 1 <= level <= 20 {
        Some(Seq::empty())
    } else {
        None
    }
}

impl VariantRangerClass {
    /// The class this belongs to.
    pub fn get_class_name(&self) -> (r: ClassName)
        ensures
            r == ClassName::Ranger,
    {
        ClassName::Ranger
    }

    /// The features granted at a level, as `ranger_features` lists them; other levels are invalid.
    pub fn get_static_features(&self, level: u8) -> (r: Result<Vec<ClassFeature>, CBError>)
        ensures
            match ranger_features(level as int) {
                Some(s) => r matches Ok(v) && v@ == s,
                None => r matches Err(CBError::InvalidLevel),
            },
    {
        match level {
            1 => Ok(vec![ClassFeature::FavoredFoe]),
            3 => Ok(vec![ClassFeature::Subclass(SubclassFeatures { class_name: ClassName::Ranger, class_lvl: 3 })]),
            5 => Ok(vec![ClassFeature::ExtraAttack(2)]),
            7 => Ok(vec![ClassFeature::Subclass(SubclassFeatures { class_name: ClassName::Ranger, class_lvl: 7 })]),
            11 => Ok(vec![ClassFeature::Subclass(SubclassFeatures { class_name: ClassName::Ranger, class_lvl: 11 })]),
            15 => Ok(vec![ClassFeature::Subclass(SubclassFeatures { class_name: ClassName::Ranger, class_lvl: 15 })]),
            1..=20 => Ok(Vec::new()),
            _ => Err(CBError::InvalidLevel),
        }
    }
}

/// The features of the horizon walker subclass at its levels.
pub open spec fn horizon_walker_features(level: int) -> Option<Seq<ClassFeature>> {
    if level == 3 {
        Some(seq![ClassFeature::PlanarWarrior])
    } else if level == 7 {
        Some(seq![])
    } else if level == 11 {
        Some(seq![])
    } else if level == 15 {
        Some(seq![])
    } else {
        None
    }
}

impl HorizonWalkerRanger {
    /// The class this belongs to.
    pub fn get_class_name(&self) -> (r: ClassName)
        ensures
            r == ClassName::Ranger,
    {
        ClassName::Ranger
    }

    /// The features granted at a level, as `horizon_walker_features` lists them; other levels are invalid.
    pub fn get_static_features(&self, level: u8) -> (r: Result<Vec<ClassFeature>, CBError>)
        ensures
            match horizon_walker_features(level as int) {
                Some(s) => r matches Ok(v) && v@ == s,
                None => r matches Err(CBError::InvalidLevel),
            },
    {
        match level {
            3 => Ok(vec![ClassFeature::PlanarWarrior]),
            7 => Ok(vec![]),
            11 => Ok(vec![]),
            15 => Ok(vec![]),
            _ => Err(CBError::InvalidLevel),
        }
    }
}

} // verus!
