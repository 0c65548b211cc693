use vstd::prelude::*;
use crate::character_builder::character::CBError;
use crate::character_builder::classes::{ClassFeature, ClassName, SubclassFeatures, subclass_at};

verus! {

/// The wizard class.
#[derive(Debug, Clone, Copy)]
pub struct WizardClass;

/// The conjuration wizard subclass.
#[derive(Debug, Clone, Copy)]
pub struct ConjurationWizard;

/// The features of the wizard class at each class level (none for levels outside one to twenty).
pub open spec fn wizard_features(level: int) -> Option<Seq<ClassFeature>> {
    if level == 2 {
        Some(seq![subclass_at(ClassName::Wizard, 2)])
    } else if level == 6 {
        Some(seq![subclass_at(ClassName::Wizard, 6)])
    } else if level == 10 {
        Some(seq![subclass_at(ClassName::Wizard, 10)])
    } else if level == 14 {
        Some(seq![subclass_at(ClassName::Wizard, 14)])
    } else if 1 <= level <= 20 {
        Some(Seq::empty())
    } else {
        None
    }
}

impl WizardClass {
    /// The class this belongs to.
    pub fn get_class_name(&self) -> (r: ClassName)
        ensures
            r == ClassName::Wizard,
    {
        ClassName::Wizard
    }

    /// The features granted at a level, as `wizard_features` lists them; other levels are invalid.
    pub fn get_static_features(&self, level: u8) -> (r: Result<Vec<ClassFeature>, CBError>)
        ensures
            match wizard_features(level as int) {
                Some(s) => r matches Ok(v) && v@ == s,
                None => r matches Err(CBError::InvalidLevel),
            },
    {
        match level {
            2 => Ok(vec![ClassFeature::Subclass(SubclassFeatures { class_name: ClassName::Wizard, class_lvl: 2 })]),
            6 => Ok(vec![ClassFeature::Subclass(SubclassFeatures { class_name: ClassName::Wizard, class_lvl: 6 })]),
            10 => Ok(vec![ClassFeature::Subclass(SubclassFeatures { class_name: ClassName::Wizard, class_lvl: 10 })]),
            14 => Ok(vec![ClassFeature::Subclass(SubclassFeatures { class_name: ClassName::Wizard, class_lvl: 14 })]),
            1..=20 => Ok(Vec::new()),
            _ => Err(CBError::InvalidLevel),
        }
    }
}

/// The features of the conjuration subclass at its levels.
pub open spec fn conjuration_features(level: int) -> Option<Seq<ClassFeature>> {
    if level == 2 {
        Some(seq![])
    } else if level == 6 {
        Some(seq![])
    } else if level == 10 {
        Some(seq![])
    } else if level == 14 {
        Some(seq![])
    } else {
        None
    }
}

impl ConjurationWizard {
    /// The class this belongs to.
    pub fn get_class_name(&self) -> (r: ClassName)
        ensures
            r == ClassName::Wizard,
    {
        ClassName::Wizard
    }

    /// The features granted at a level, as `conjuration_features` lists them; other levels are invalid.
    pub fn get_static_features(&self, level: u8) -> (r: Result<Vec<ClassFeature>, CBError>)
        ensures
            match conjuration_features(level as int) {
                Some(s) => r matches Ok(v) && v@ == s,
                None => r matches Err(CBError::InvalidLevel),
            },
    {
        match level {
            2 => Ok(vec![]),
            6 => Ok(vec![]),
            10 => Ok(vec![]),
            14 => Ok(vec![]),
            _ => Err(CBError::InvalidLevel),
        }
    }
}

} // verus!
