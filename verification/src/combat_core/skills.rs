use vstd::prelude::*;
use crate::combat_core::{D20RollType, D20Type};
use crate::combat_core::ability_scores::{Ability, AbilityScores, modifier, score_for};

verus! {

/// The skills with concrete combat rules.
#[derive(Debug, Clone, Copy, PartialEq, Eq, Structural, Hash, PartialOrd, Ord)]
pub enum SkillName {
    Acrobatics,
    Athletics,
    Perception,
    Stealth,
}

/// The ability a skill uses by default.
pub open spec fn skill_ability(s: SkillName) -> Ability {
    match s {
        SkillName::Acrobatics => Ability::DEX,
        SkillName::Athletics => Ability::STR,
        SkillName::Perception => Ability::WIS,
        SkillName::Stealth => Ability::DEX,
    }
}

impl SkillName {
    /// The ability the skill uses by default.
    pub fn get_ability(&self) -> (r: Ability)
        ensures
            r == skill_ability(*self),
    {
        match self {
            SkillName::Acrobatics => Ability::DEX,
            SkillName::Athletics => Ability::STR,
            SkillName::Perception => Ability::WIS,
            SkillName::Stealth => Ability::DEX,
        }
    }
}

/// How much of the proficiency bonus a check adds.
#[derive(Debug, Clone, Copy, PartialEq, Eq, Structural, Hash, PartialOrd, Ord)]
pub enum ProfType {
    Normal,
    HalfProf,
    Proficient,
    Expert,
}

/// The bonus a proficiency kind adds, given the proficiency bonus:
/// nothing, half (rounded toward zero), all of it, or twice it.
pub open spec fn prof_bonus(p: ProfType, prof: int) -> int {
    match p {
        ProfType::Normal => 0,
        ProfType::HalfProf => if prof >= 0 { prof / 2 } else { -((-prof) / 2) },
        ProfType::Proficient => prof,
        ProfType::Expert => prof * 2,
    }
}

impl ProfType {
    /// The bonus this proficiency kind adds, given the proficiency bonus.
    pub fn get_bonus(&self, prof: isize) -> (r: isize)
        requires
            *self == ProfType::Expert ==> isize::MIN <= prof * 2 <= isize::MAX,
        ensures
            r == prof_bonus(*self, prof as int),
    {
        match self {
            ProfType::Normal => 0,
            ProfType::HalfProf => prof / 2,
            ProfType::Proficient => prof,
            ProfType::Expert => prof * 2,
        }
    }
}

/// How checks with one skill are made.
#[derive(Debug, Clone, Copy, PartialEq, Eq, Structural)]
pub struct SkillCheck {
    pub override_ability: Option<Ability>,
    pub prof_type: ProfType,
    pub default_roll_type: D20RollType,
    pub d20_type: D20Type,
    pub passive_bonus: isize,
}

impl SkillCheck {
    /// A check with the skill's own ability, no proficiency, and a normal d20.
    pub fn new() -> (r: Self)
        ensures
            r.override_ability is None,
            r.prof_type == ProfType::Normal,
            r.default_roll_type == D20RollType::Normal,
            r.d20_type == D20Type::D20,
            r.passive_bonus == 0,
    {
        SkillCheck {
            override_ability: None,
            prof_type: ProfType::Normal,
            default_roll_type: D20RollType::Normal,
            d20_type: D20Type::D20,
            passive_bonus: 0,
        }
    }
}

/// The checks of the four combat skills.
#[derive(Debug, Clone, Copy, PartialEq, Eq, Structural)]
pub struct SkillManager {
    pub acrobatics: SkillCheck,
    pub athletics: SkillCheck,
    pub perception: SkillCheck,
    pub stealth: SkillCheck,
}

/// The check of the given skill.
pub open spec fn check_for(m: SkillManager, s: SkillName) -> SkillCheck {
    match s {
        SkillName::Acrobatics => m.acrobatics,
        SkillName::Athletics => m.athletics,
        SkillName::Perception => m.perception,
        SkillName::Stealth => m.stealth,
    }
}

/// The constant added to a check: the modifier of the ability the check uses
/// (its override, else the skill's own) plus the proficiency part.
pub open spec fn check_bonus(m: SkillManager, s: SkillName, scores: AbilityScores, prof: int) -> int {
    let c = check_for(m, s);
    let a = match c.override_ability { Some(a) => a, None => skill_ability(s) };
    modifier(score_for(scores, a).score_of() as int) + prof_bonus(c.prof_type, prof)
}

impl SkillManager {
    /// Four checks made with `SkillCheck::new`.
    pub fn new() -> (r: Self)
        ensures
            r.acrobatics == SkillCheck::new_spec(),
            r.athletics == SkillCheck::new_spec(),
            r.perception == SkillCheck::new_spec(),
            r.stealth == SkillCheck::new_spec(),
    {
        SkillManager {
            acrobatics: SkillCheck::new(),
            athletics: SkillCheck::new(),
            perception: SkillCheck::new(),
            stealth: SkillCheck::new(),
        }
    }

    /// The check of the given skill.
    pub fn get_skill_check(&self, skill: SkillName) -> (r: &SkillCheck)
        ensures
            *r == check_for(*self, skill),
    {
        match skill {
            SkillName::Acrobatics => &self.acrobatics,
            SkillName::Athletics => &self.athletics,
            SkillName::Perception => &self.perception,
            SkillName::Stealth => &self.stealth,
        }
    }

    /// A mutable reference to the check of the given skill.
    pub fn get_skill_check_mut(&mut self, skill: SkillName) -> (r: &mut SkillCheck)
        ensures
            *r == check_for(*old(self), skill),
            *final(self) == (match skill {
                SkillName::Acrobatics => SkillManager { acrobatics: *final(r), ..*old(self) },
                SkillName::Athletics => SkillManager { athletics: *final(r), ..*old(self) },
                SkillName::Perception => SkillManager { perception: *final(r), ..*old(self) },
                SkillName::Stealth => SkillManager { stealth: *final(r), ..*old(self) },
            }),
    {
        match skill {
            SkillName::Acrobatics => &mut self.acrobatics,
            SkillName::Athletics => &mut self.athletics,
            SkillName::Perception => &mut self.perception,
            SkillName::Stealth => &mut self.stealth,
        }
    }

    /// The constant added to a check with the skill: the ability modifier and
    /// the proficiency part.
    pub fn get_check_bonus(&self, skill: SkillName, ability_scores: &AbilityScores, prof: isize) -> (r: isize)
        requires
            check_for(*self, skill).prof_type == ProfType::Expert ==> isize::MIN <= prof * 2 <= isize::MAX,
            isize::MIN <= check_bonus(*self, skill, *ability_scores, prof as int) <= isize::MAX,
        ensures
            r == check_bonus(*self, skill, *ability_scores, prof as int),
    {
        let skill_check = self.get_skill_check(skill);
        let ability = match skill_check.override_ability {
            Some(a) => a,
            None => skill.get_ability(),
        };
        let mut bonus = ability_scores.get_score(&ability).get_mod() as isize;
        bonus = bonus + skill_check.prof_type.get_bonus(prof);
        bonus
    }
}

impl SkillCheck {
    /// The check that `new` makes.
    pub open spec fn new_spec() -> SkillCheck {
        SkillCheck {
            override_ability: None,
            prof_type: ProfType::Normal,
            default_roll_type: D20RollType::Normal,
            d20_type: D20Type::D20,
            passive_bonus: 0,
        }
    }
}

/// Who wins a contest of skills.
#[derive(Debug, Clone, Copy, PartialEq, Eq, Structural, Hash, PartialOrd, Ord)]
pub enum ContestResult {
    InitiatorWins,
    DefenderWins,
}

/// The winner of a contest where the initiator's total minus the defender's
/// total is `diff`: ties go to the initiator.
pub open spec fn contest_winner(diff: int) -> ContestResult {
    if diff >= 0 { ContestResult::InitiatorWins } else { ContestResult::DefenderWins }
}

/// The winner of a contest, given both totals; ties go to the initiator.
pub fn contest_result(initiator_total: isize, defender_total: isize) -> (r: ContestResult)
    ensures
        r == contest_winner(initiator_total - defender_total),
{
    if initiator_total >= defender_total {
        ContestResult::InitiatorWins
    } else {
        ContestResult::DefenderWins
    }
}

} // verus!
