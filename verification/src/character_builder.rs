pub mod ability_scores;
pub mod attributed_bonus;
pub mod character;
pub mod classes;
pub mod feature;
pub mod spellcasting;
pub mod combat;
pub mod damage;
pub mod equipment;
pub mod resources;
pub mod weapon_attack;
pub mod serialization;
