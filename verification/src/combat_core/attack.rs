use vstd::prelude::*;

verus! {

/// The result of an attack roll.
#[derive(Debug, Clone, Copy, PartialEq, Eq, Structural, Hash, PartialOrd, Ord)]
pub enum AttackResult {
    Miss,
    Hit,
    Crit,
}

/// The result of an attack whose d20 showed `roll` and whose total with
/// bonuses is `total`, against armor class `ac`, with crits from `crit_lb` up:
/// a natural 20 crits, a natural 1 misses, otherwise a total below the AC
/// misses and a hit crits when the roll reaches `crit_lb`.
pub open spec fn attack_result(roll: int, total: int, ac: int, crit_lb: int) -> AttackResult {
    if roll == 20 {
        AttackResult::Crit
    } else if roll == 1 {
        AttackResult::Miss
    } else if total >= ac {
        if roll >= crit_lb {
            AttackResult::Crit
        } else {
            AttackResult::Hit
        }
    } else {
        AttackResult::Miss
    }
}

impl AttackResult {
    /// The result of an attack; `roll_pair` holds the d20 roll and the total
    /// with bonuses.
    pub fn from(roll_pair: (isize, isize), ac: isize, crit_lb: isize) -> (r: Self)
        ensures
            r == attack_result(roll_pair.0 as int, roll_pair.1 as int, ac as int, crit_lb as int),
    {
        let roll = roll_pair.0;
        let total = roll_pair.1;
        if roll == 20 {
            AttackResult::Crit
        } else if roll == 1 {
            AttackResult::Miss
        } else {
            if total >= ac {
                if roll >= crit_lb {
                    AttackResult::Crit
                } else {
                    AttackResult::Hit
                }
            } else {
                AttackResult::Miss
            }
        }
    }

    /// The result's name: "Miss", "Hit" or "Crit".
    pub fn to_string(&self) -> (r: String)
        ensures
            r@ == (match *self {
                AttackResult::Miss => seq!['M', 'i', 's', 's'],
                AttackResult::Hit => seq!['H', 'i', 't'],
                AttackResult::Crit => seq!['C', 'r', 'i', 't'],
            }),
    {
        let s = match self {
            AttackResult::Crit => "Crit",
            AttackResult::Hit => "Hit",
            AttackResult::Miss => "Miss",
        };
        proof {
            reveal_strlit("Crit");
            reveal_strlit("Hit");
            reveal_strlit("Miss");
        }
        String::from_str(s)
    }
}

/// The rules of an attack roll: a natural 20 always crits and a natural 1
/// always misses; any other roll connects exactly when the total reaches the
/// armor class, and only a roll within the crit range turns a hit into a crit.
pub proof fn lemma_attack_roll_rules(roll: int, total: int, ac: int, crit_lb: int)
    ensures
        roll == 20 ==> attack_result(roll, total, ac, crit_lb) == AttackResult::Crit,
        roll == 1 ==> attack_result(roll, total, ac, crit_lb) == AttackResult::Miss,
        roll != 1 && roll != 20 ==> (attack_result(roll, total, ac, crit_lb) != AttackResult::Miss <==> total >= ac),
        attack_result(roll, total, ac, crit_lb) == AttackResult::Crit ==> roll == 20 || roll >= crit_lb,
        roll != 1 && roll != 20 && total >= ac && roll < crit_lb ==> attack_result(roll, total, ac, crit_lb) == AttackResult::Hit,
{
}

/// With a higher total, an attack never gets a worse result (for a fixed
/// roll, armor class and crit range).
pub proof fn lemma_attack_result_monotone(roll: int, t1: int, t2: int, ac: int, crit_lb: int)
    requires
        t1 <= t2,
    ensures
        ({
            let r1 = attack_result(roll, t1, ac, crit_lb);
            let r2 = attack_result(roll, t2, ac, crit_lb);
            r1 == AttackResult::Miss || r1 == r2
        }),
{
}

} // verus!
