pub mod cantrips;
pub mod fourth_lvl_spells;
pub mod third_lvl_spells;

use vstd::prelude::*;
use crate::character_builder::classes::SpellCasterType;

verus! {

/// First level slots at a caster level.
pub open spec fn first_slots(l: int) -> int {
    if l == 1 { 2 } else if l == 2 { 3 } else if l >= 3 { 4 } else { 0 }
}

/// Second level slots at a caster level.
pub open spec fn second_slots(l: int) -> int {
    if l == 3 { 2 } else if l >= 4 { 3 } else { 0 }
}

/// Third level slots at a caster level.
pub open spec fn third_slots(l: int) -> int {
    if l == 5 { 2 } else if l >= 6 { 3 } else { 0 }
}

/// Fourth level slots at a caster level.
pub open spec fn fourth_slots(l: int) -> int {
    if l == 7 { 1 } else if l == 8 { 2 } else if l >= 9 { 3 } else { 0 }
}

/// Fifth level slots at a caster level.
pub open spec fn fifth_slots(l: int) -> int {
    if l == 9 { 1 } else if 9 < l < 18 { 2 } else if l >= 18 { 3 } else { 0 }
}

/// Sixth level slots at a caster level.
pub open spec fn sixth_slots(l: int) -> int {
    if 11 <= l < 19 { 1 } else if l >= 19 { 2 } else { 0 }
}

/// Seventh level slots at a caster level.
pub open spec fn seventh_slots(l: int) -> int {
    if 13 <= l < 20 { 1 } else if l >= 20 { 2 } else { 0 }
}

/// Eighth level slots at a caster level.
pub open spec fn eighth_slots(l: int) -> int {
    if l >= 15 { 1 } else { 0 }
}

/// Ninth level slots at a caster level.
pub open spec fn ninth_slots(l: int) -> int {
    if l >= 17 { 1 } else { 0 }
}

/// The slots of each level (index 0 stands for cantrips and is zero) at a caster level.
pub open spec fn slots_at(l: int) -> Seq<usize> {
    seq![
        0usize,
        first_slots(l) as usize,
        second_slots(l) as usize,
        third_slots(l) as usize,
        fourth_slots(l) as usize,
        fifth_slots(l) as usize,
        sixth_slots(l) as usize,
        seventh_slots(l) as usize,
        eighth_slots(l) as usize,
        ninth_slots(l) as usize,
    ]
}

/// The spell slots of each level at a caster level: index `k` holds the
/// slots of level `k`; index 0, for cantrips, holds zero.
pub fn spell_slots_by_caster_level(caster_level: u8) -> (r: [usize; 10])
    ensures
        r@ == slots_at(caster_level as int),
{
    let mut slots: [usize; 10] = [0; 10];
    slots[1] = first_level_slots(caster_level);
    slots[2] = second_level_slots(caster_level);
    slots[3] = third_level_slots(caster_level);
    slots[4] = fourth_level_slots(caster_level);
    slots[5] = fifth_level_slots(caster_level);
    slots[6] = sixth_level_slots(caster_level);
    slots[7] = seventh_level_slots(caster_level);
    slots[8] = eighth_level_slots(caster_level);
    slots[9] = ninth_level_slots(caster_level);
    assert(slots@ =~= slots_at(caster_level as int));
    slots
}

/// First level slots: 2 at caster level 1, 3 at level 2, 4 from level 3.
pub fn first_level_slots(caster_level: u8) -> (r: usize)
    ensures
        r == first_slots(caster_level as int),
{
    let mut slots: usize = 0;
    if caster_level == 1 {
        slots = 2;
    } else if caster_level == 2 {
        slots = 3;
    } else if caster_level >= 3 {
        slots = 4;
    }
    slots
}

/// Second level slots: 2 at caster level 3, 3 from level 4.
pub fn second_level_slots(caster_level: u8) -> (r: usize)
    ensures
        r == second_slots(caster_level as int),
{
    let mut slots: usize = 0;
    if caster_level == 3 {
        slots = 2;
    } else if caster_level >= 4 {
        slots = 3;
    }
    slots
}

/// Third level slots: 2 at caster level 5, 3 from level 6.
pub fn third_level_slots(caster_level: u8) -> (r: usize)
    ensures
        r == third_slots(caster_level as int),
{
    let mut slots: usize = 0;
    if caster_level == 5 {
        slots = 2;
    } else if caster_level >= 6 {
        slots = 3;
    }
    slots
}

/// Fourth level slots: 1 at caster level 7, 2 at level 8, 3 from level 9.
pub fn fourth_level_slots(caster_level: u8) -> (r: usize)
    ensures
        r == fourth_slots(caster_level as int),
{
    let mut slots: usize = 0;
    if caster_level == 7 {
        slots = 1;
    } else if caster_level == 8 {
        slots = 2;
    } else if caster_level >= 9 {
        slots = 3;
    }
    slots
}

/// Fifth level slots: 1 at caster level 9, 2 from level 10 to 17, 3 from level 18.
pub fn fifth_level_slots(caster_level: u8) -> (r: usize)
    ensures
        r == fifth_slots(caster_level as int),
{
    let mut slots: usize = 0;
    if caster_level == 9 {
        slots = 1;
    } else if caster_level > 9 && caster_level < 18 {
        slots = 2;
    } else if caster_level >= 18 {
        slots = 3;
    }
    slots
}

/// Sixth level slots: 1 from caster level 11 to 18, 2 from level 19.
pub fn sixth_level_slots(caster_level: u8) -> (r: usize)
    ensures
        r == sixth_slots(caster_level as int),
{
    let mut slots: usize = 0;
    if caster_level >= 11 && caster_level < 19 {
        slots = 1;
    } else if caster_level >= 19 {
        slots = 2;
    }
    slots
}

/// Seventh level slots: 1 from caster level 13 to 19, 2 from level 20.
pub fn seventh_level_slots(caster_level: u8) -> (r: usize)
    ensures
        r == seventh_slots(caster_level as int),
{
    let mut slots: usize = 0;
    if caster_level >= 13 && caster_level < 20 {
        slots = 1;
    } else if caster_level >= 20 {
        slots = 2;
    }
    slots
}

/// Eighth level slots: 1 from caster level 15.
pub fn eighth_level_slots(caster_level: u8) -> (r: usize)
    ensures
        r == eighth_slots(caster_level as int),
{
    let mut slots: usize = 0;
    if caster_level >= 15 {
        slots = 1;
    }
    slots
}

/// Ninth level slots: 1 from caster level 17.
pub fn ninth_level_slots(caster_level: u8) -> (r: usize)
    ensures
        r == ninth_slots(caster_level as int),
{
    let mut slots: usize = 0;
    if caster_level >= 17 {
        slots = 1;
    }
    slots
}

/// What a class level of a caster type adds to the caster level, in sixths.
pub open spec fn caster_sixths(t: SpellCasterType) -> int {
    match t {
        SpellCasterType::Martial => 0,
        SpellCasterType::ThirdCaster => 2,
        SpellCasterType::HalfCaster => 3,
        SpellCasterType::FullCaster => 6,
    }
}

/// The sum, in sixths, of what the first `k` class levels add.
pub open spec fn sixths_sum(ts: Seq<SpellCasterType>, k: int) -> int
    decreases k,
{
    if k <= 0 { 0 } else { sixths_sum(ts, k - 1) + caster_sixths(ts[k - 1]) }
}

/// The sum of sixths never shrinks as class levels are added.
proof fn lemma_sixths_sum_grows(ts: Seq<SpellCasterType>, i: int, j: int)
    requires
        0 <= i <= j,
    ensures
        sixths_sum(ts, i) <= sixths_sum(ts, j),
    decreases j - i,
{
    if i < j {
        lemma_sixths_sum_grows(ts, i, j - 1);
    }
}

/// The caster level of class levels of the given caster types: the sum of
/// their sixths, divided by six, rounded up once it is at least one.
pub open spec fn caster_level_of(ts: Seq<SpellCasterType>) -> int {
    let total = sixths_sum(ts, ts.len() as int);
    if total % 6 != 0 && total / 6 > 0 { total / 6 + 1 } else { total / 6 }
}

/// The caster level of a character whose class levels have the given caster
/// types (one per class level, after any subclass override): full casters
/// count whole levels, half casters halves, third casters thirds; partial
/// casters only count once they reach a whole level, then round up.
pub fn character_caster_level(caster_types: &Vec<SpellCasterType>) -> (r: u8)
    requires
        sixths_sum(caster_types@, caster_types@.len() as int) <= u8::MAX,
    ensures
        r == caster_level_of(caster_types@),
{
    let mut eff_caster_level: u8 = 0;
    let n = caster_types.len();
    let mut i: usize = 0;
    while i < n
        invariant
            n == caster_types@.len(),
            sixths_sum(caster_types@, n as int) <= u8::MAX,
            i <= n,
            eff_caster_level == sixths_sum(caster_types@, i as int),
        decreases n - i,
    {
        proof {
            lemma_sixths_sum_grows(caster_types@, i as int + 1, n as int);
        }
        match caster_types[i] {
            SpellCasterType::Martial => {},
            SpellCasterType::ThirdCaster => eff_caster_level = eff_caster_level + 2,
            SpellCasterType::HalfCaster => eff_caster_level = eff_caster_level + 3,
            SpellCasterType::FullCaster => eff_caster_level = eff_caster_level + 6,
        }
        i = i + 1;
    }
    let remainder = eff_caster_level % 6;
    eff_caster_level = eff_caster_level / 6;
    if remainder != 0 && eff_caster_level > 0 {
        eff_caster_level = eff_caster_level + 1;
    }
    eff_caster_level
}

/// A higher caster level never has fewer slots of any level.
pub proof fn lemma_slots_monotone(a: int, b: int, k: int)
    requires
        a <= b,
        0 <= k < 10,
    ensures
        slots_at(a)[k] <= slots_at(b)[k],
{
}

/// Past caster level twenty nothing changes.
pub proof fn lemma_slots_capped_at_twenty(l: int)
    requires
        l >= 20,
    ensures
        slots_at(l) == slots_at(20),
{
    assert(slots_at(l) =~= slots_at(20));
}

} // verus!
