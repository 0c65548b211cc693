use vstd::prelude::*;

verus! {

/// How hurt a participant is.
#[derive(Debug, Clone, Copy, PartialEq, Eq, Structural, PartialOrd, Ord)]
pub enum Health {
    Healthy,
    Bloodied,
    ZeroHP,
    Dead,
}

/// The damage at which a creature of `max_hp` hit points is bloodied: half
/// its hit points, the half taken toward zero, plus one when `max_hp` is odd
/// (for nonnegative hit points: half, rounded up).
pub open spec fn bloodied_at(max_hp: int) -> int {
    if max_hp >= 0 {
        (max_hp + 1) / 2
    } else if max_hp % 2 == 0 {
        max_hp / 2
    } else {
        (max_hp + 1) / 2 + 1
    }
}

/// The health after taking `dmg` damage.
pub open spec fn classify(dmg: int, bloody_hp: int, max_hp: int, dead_at_zero: bool) -> Health {
    if dmg < bloody_hp {
        Health::Healthy
    } else if dmg < max_hp {
        Health::Bloodied
    } else if dead_at_zero {
        Health::Dead
    } else {
        Health::ZeroHP
    }
}

impl Health {
    /// The damage at which a creature is bloodied: half its maximum hit
    /// points, rounded up.
    pub fn calc_bloodied(max_hp: isize) -> (r: isize)
        ensures
            r == bloodied_at(max_hp as int),
            max_hp >= 0 ==> (r * 2 == max_hp || r * 2 == max_hp + 1),
    {
        if max_hp % 2 == 0 {
            max_hp / 2
        } else {
            (max_hp / 2) + 1
        }
    }

    /// The health of a creature that took `dmg` damage.
    pub fn classify_hp(dmg: &isize, bloody_hp: isize, max_hp: isize, dead_at_zero: bool) -> (r: Health)
        ensures
            r == classify(*dmg as int, bloody_hp as int, max_hp as int, dead_at_zero),
    {
        if *dmg < bloody_hp {
            Health::Healthy
        } else if *dmg < max_hp {
            Health::Bloodied
        } else {
            if dead_at_zero {
                Health::Dead
            } else {
                Health::ZeroHP
            }
        }
    }

    /// The health at the lowest and at the highest damage that a damage roll
    /// can give, for a creature of `max_hp` hit points.
    pub fn classify_bounds(lb: isize, ub: isize, max_hp: isize, dead_at_zero: bool) -> (r: (Health, Health))
        ensures
            r.0 == classify(lb as int, bloodied_at(max_hp as int), max_hp as int, dead_at_zero),
            r.1 == classify(ub as int, bloodied_at(max_hp as int), max_hp as int, dead_at_zero),
    {
        let bloodied = Health::calc_bloodied(max_hp);
        let lb_h = Health::classify_hp(&lb, bloodied, max_hp, dead_at_zero);
        let ub_h = Health::classify_hp(&ub, bloodied, max_hp, dead_at_zero);
        (lb_h, ub_h)
    }
}

/// More damage never leaves a creature healthier (for a bloodied threshold
/// no higher than its hit points).
pub proof fn lemma_classify_monotone(d1: int, d2: int, bloody_hp: int, max_hp: int, dead_at_zero: bool)
    requires
        d1 <= d2,
        bloody_hp <= max_hp,
    ensures
        health_rank(classify(d1, bloody_hp, max_hp, dead_at_zero)) <= health_rank(classify(d2, bloody_hp, max_hp, dead_at_zero)),
{
}

/// Position of a health state in declaration order.
pub open spec fn health_rank(h: Health) -> int {
    match h {
        Health::Healthy => 0,
        Health::Bloodied => 1,
        Health::ZeroHP => 2,
        Health::Dead => 3,
    }
}

/// The hit dice of a class.
#[derive(Debug, Clone, Copy, PartialEq, Eq, Structural)]
pub enum HitDice {
    D6,
    D8,
    D10,
    D12,
}

impl HitDice {
    /// The largest roll of the die (the hit points at first level).
    pub fn get_max(&self) -> (r: isize)
        ensures
            r == (match *self { HitDice::D6 => 6int, HitDice::D8 => 8, HitDice::D10 => 10, HitDice::D12 => 12 }),
    {
        match self {
            HitDice::D6 => 6,
            HitDice::D8 => 8,
            HitDice::D10 => 10,
            HitDice::D12 => 12,
        }
    }

    /// The fixed hit points gained per level after the first: half the die plus one.
    pub fn get_per_lvl(&self) -> (r: isize)
        ensures
            r == (match *self { HitDice::D6 => 4int, HitDice::D8 => 5, HitDice::D10 => 6, HitDice::D12 => 7 }),
    {
        match self {
            HitDice::D6 => 4,
            HitDice::D8 => 5,
            HitDice::D10 => 6,
            HitDice::D12 => 7,
        }
    }
}

} // verus!
