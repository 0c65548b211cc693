use vstd::prelude::*;

verus! {

/// How an attack roll is made.
#[derive(Debug, Clone, Copy, PartialEq, Eq, Structural)]
pub enum AttackHitType {
    Disadvantage,
    Normal,
    Advantage,
    SuperAdvantage,
}

/// The die of an attack roll: a plain d20, or a d20 that rerolls ones.
#[derive(Debug, Clone, Copy, PartialEq, Eq, Structural, PartialOrd, Ord)]
pub enum D20Type {
    D20,
    D20R1,
}

/// The result of an attack roll.
#[derive(Debug, Clone, Copy, PartialEq, Eq, Structural, PartialOrd, Ord)]
pub enum AttackResult {
    Miss,
    Hit,
    Crit,
}

/// The result of an attack whose d20 showed `roll` and whose total is
/// `total`, against armor class `ac`, with crits from `crit_lb` up: a natural
/// 20 crits, a natural 1 misses, otherwise a total below the AC misses and a
/// hit crits when the roll reaches `crit_lb`.
pub open spec fn attack_outcome(roll: int, total: int, ac: int, crit_lb: int) -> AttackResult {
    if roll == 20 {
        AttackResult::Crit
    } else if roll == 1 {
        AttackResult::Miss
    } else if total >= ac {
        if roll >= crit_lb { AttackResult::Crit } else { AttackResult::Hit }
    } else {
        AttackResult::Miss
    }
}

/// The name of an attack result.
pub open spec fn result_name(r: AttackResult) -> &'static str {
    match r {
        AttackResult::Crit => "Crit",
        AttackResult::Hit => "Hit",
        AttackResult::Miss => "Miss",
    }
}

impl AttackResult {
    /// The result of the roll pair `(roll, total)` against armor class `ac`,
    /// with crits from `crit_lb` up.
    pub fn from(roll_pair: (isize, isize), ac: isize, crit_lb: isize) -> (r: Self)
        ensures
            r == attack_outcome(roll_pair.0 as int, roll_pair.1 as int, ac as int, crit_lb as int),
    {
        let roll = roll_pair.0;
        let total = roll_pair.1;
        if roll == 20 {
            AttackResult::Crit
        } else if roll == 1 {
            AttackResult::Miss
        } else {
            if total >= ac {
                if roll >= crit_lb {
                    AttackResult::Crit
                } else {
                    AttackResult::Hit
                }
            } else {
                AttackResult::Miss
            }
        }
    }

    /// The name of the result: "Crit", "Hit" or "Miss".
    pub fn to_string(&self) -> (r: String)
        ensures
            r@ == result_name(*self)@,
    {
        let s = match self {
            AttackResult::Crit => "Crit",
            AttackResult::Hit => "Hit",
            AttackResult::Miss => "Miss",
        };
        String::from_str(s)
    }
}

/// The rules of an attack roll: a natural 20 always crits and a natural 1
/// always misses; any other roll connects exactly when the total reaches the
/// armor class, and only a roll within the crit range turns a hit into a crit.
pub proof fn lemma_attack_roll_rules(roll: int, total: int, ac: int, crit_lb: int)
    ensures
        roll == 20 ==> attack_outcome(roll, total, ac, crit_lb) == AttackResult::Crit,
        roll == 1 ==> attack_outcome(roll, total, ac, crit_lb) == AttackResult::Miss,
        roll != 1 && roll != 20 ==> (attack_outcome(roll, total, ac, crit_lb) != AttackResult::Miss <==> total >= ac),
        attack_outcome(roll, total, ac, crit_lb) == AttackResult::Crit ==> roll == 20 || roll >= crit_lb,
        roll != 1 && roll != 20 && total >= ac && roll < crit_lb ==> attack_outcome(roll, total, ac, crit_lb) == AttackResult::Hit,
{
}

} // verus!
