use vstd::prelude::*;

verus! {

/// The level of a spell slot, from cantrips to ninth level.
#[derive(Debug, Clone, Copy, PartialEq, Eq, Structural, Hash, PartialOrd, Ord)]
pub enum SpellSlot {
    Cantrip,
    First,
    Second,
    Third,
    Fourth,
    Fifth,
    Sixth,
    Seventh,
    Eighth,
    Ninth,
}

/// The spells that the combat model knows.
#[derive(Debug, Clone, Copy, PartialEq, Eq, Structural, Hash, PartialOrd, Ord)]
pub enum SpellName {
    FireBolt,
    Fireball,
    GreaterInvis,
    Haste,
}

} // verus!
