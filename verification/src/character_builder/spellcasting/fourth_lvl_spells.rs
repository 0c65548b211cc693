use vstd::prelude::*;

verus! {

/// The greater invisibility spell.
#[derive(Debug, Clone, Copy)]
pub struct GreaterInvisibilitySpell;

} // verus!
