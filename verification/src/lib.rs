//! Rules of a tabletop role-playing game combat model: ability scores,
//! resources, conditions, combat logs and character building.
pub mod character_builder;
pub mod combat_core;
pub mod seq_facts;
