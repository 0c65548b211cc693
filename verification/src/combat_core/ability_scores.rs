use vstd::prelude::*;
use crate::combat_core::{D20RollType, D20Type};

verus! {

/// The six abilities.
#[derive(Debug, Clone, Copy, PartialEq, Eq, Structural, Hash, PartialOrd, Ord)]
pub enum Ability {
    STR,
    DEX,
    CON,
    INT,
    WIS,
    CHA,
}

impl Ability {
    /// The ability's short name, such as "STR".
    pub fn to_string(&self) -> (r: String)
        ensures
            r@ == ability_name(*self),
    {
        let s = match self {
            Ability::STR => "STR",
            Ability::DEX => "DEX",
            Ability::CON => "CON",
            Ability::INT => "INT",
            Ability::WIS => "WIS",
            Ability::CHA => "CHA",
        };
        let r = String::from_str(s);
        proof {
            reveal_strlit("STR");
            reveal_strlit("DEX");
            reveal_strlit("CON");
            reveal_strlit("INT");
            reveal_strlit("WIS");
            reveal_strlit("CHA");
        }
        r
    }
}

/// The short name of an ability.
pub open spec fn ability_name(a: Ability) -> Seq<char> {
    match a {
        Ability::STR => seq!['S', 'T', 'R'],
        Ability::DEX => seq!['D', 'E', 'X'],
        Ability::CON => seq!['C', 'O', 'N'],
        Ability::INT => seq!['I', 'N', 'T'],
        Ability::WIS => seq!['W', 'I', 'S'],
        Ability::CHA => seq!['C', 'H', 'A'],
    }
}

/// The modifier of an ability score: half the score, rounded down, minus five.
pub open spec fn modifier(score: int) -> int {
    score / 2 - 5
}

/// One ability score, with its cap, its saving throw proficiency and bonus,
/// and how its d20 rolls are made.
#[derive(Debug, Clone, Copy, PartialEq, Eq, Structural)]
pub struct AbilityScore {
    score: u8,
    cap: u8,
    prof_save: bool,
    save_bonus: i8,
    default_roll_type: D20RollType,
    d20_type: D20Type,
}

impl AbilityScore {
    /// The score's value.
    pub closed spec fn score_of(&self) -> u8 {
        self.score
    }

    /// The score's cap.
    pub closed spec fn cap_of(&self) -> u8 {
        self.cap
    }

    /// Whether saves with this ability add proficiency.
    pub closed spec fn prof_save_of(&self) -> bool {
        self.prof_save
    }

    /// The bonus added to saves with this ability.
    pub closed spec fn save_bonus_of(&self) -> i8 {
        self.save_bonus
    }

    /// How saves with this ability are rolled.
    pub closed spec fn roll_type_of(&self) -> D20RollType {
        self.default_roll_type
    }

    /// The kind of d20 used for saves with this ability.
    pub closed spec fn d20_type_of(&self) -> D20Type {
        self.d20_type
    }

    /// A score with cap 20, no save proficiency or bonus, and normal d20 rolls.
    pub fn new(score: u8) -> (r: Self)
        ensures
            r.score_of() == score,
            r.cap_of() == 20,
            !r.prof_save_of(),
            r.save_bonus_of() == 0,
            r.roll_type_of() == D20RollType::Normal,
            r.d20_type_of() == D20Type::D20,
    {
        AbilityScore {
            score,
            cap: 20,
            prof_save: false,
            save_bonus: 0,
            default_roll_type: D20RollType::Normal,
            d20_type: D20Type::D20,
        }
    }

    /// The score.
    pub fn get_score(&self) -> (r: u8)
        ensures
            r == self.score_of(),
    {
        self.score
    }

    /// Sets the score, but never above the cap (a higher score is set to the cap).
    pub fn set_score(&mut self, new_score: u8)
        ensures
            final(self).score_of() == (if new_score <= old(self).cap_of() { new_score } else { old(self).cap_of() }),
            final(self).cap_of() == old(self).cap_of(),
            final(self).prof_save_of() == old(self).prof_save_of(),
            final(self).save_bonus_of() == old(self).save_bonus_of(),
            final(self).roll_type_of() == old(self).roll_type_of(),
            final(self).d20_type_of() == old(self).d20_type_of(),
    {
        if new_score <= self.cap {
            self.score = new_score;
        } else {
            self.score = self.cap;
        }
    }

    /// The cap.
    pub fn get_cap(&self) -> (r: u8)
        ensures
            r == self.cap_of(),
    {
        self.cap
    }

    /// The modifier of the score: half of it, rounded down, minus five.
    pub fn get_mod(&self) -> (r: i8)
        ensures
            r == modifier(self.score_of() as int),
    {
        ((self.score / 2) as i8) - 5
    }

    /// Raises the score by one unless it is already at the cap.
    pub fn increase(&mut self)
        ensures
            final(self).score_of() == (if old(self).score_of() < old(self).cap_of() { (old(self).score_of() + 1) as u8 } else { old(self).score_of() }),
            final(self).cap_of() == old(self).cap_of(),
            final(self).prof_save_of() == old(self).prof_save_of(),
            final(self).save_bonus_of() == old(self).save_bonus_of(),
            final(self).roll_type_of() == old(self).roll_type_of(),
            final(self).d20_type_of() == old(self).d20_type_of(),
            *final(self) == old(self).increased(),
    {
        if self.score < self.cap {
            self.score = self.score + 1;
        }
    }

    /// Raises the cap by one.
    pub fn increase_cap(&mut self)
        requires
            old(self).cap_of() < u8::MAX,
        ensures
            final(self).cap_of() == old(self).cap_of() + 1,
            final(self).score_of() == old(self).score_of(),
            final(self).prof_save_of() == old(self).prof_save_of(),
            final(self).save_bonus_of() == old(self).save_bonus_of(),
            final(self).roll_type_of() == old(self).roll_type_of(),
            final(self).d20_type_of() == old(self).d20_type_of(),
    {
        self.cap = self.cap + 1;
    }

    /// Whether saves with this ability add proficiency.
    pub fn is_prof_save(&self) -> (r: bool)
        ensures
            r == self.prof_save_of(),
    {
        self.prof_save
    }

    /// Sets whether saves with this ability add proficiency.
    pub fn set_prof_save(&mut self, prof: bool)
        ensures
            final(self).prof_save_of() == prof,
            final(self).score_of() == old(self).score_of(),
            final(self).cap_of() == old(self).cap_of(),
            final(self).save_bonus_of() == old(self).save_bonus_of(),
            final(self).roll_type_of() == old(self).roll_type_of(),
            final(self).d20_type_of() == old(self).d20_type_of(),
            *final(self) == old(self).with_prof_save(prof),
    {
        self.prof_save = prof;
    }

    /// The bonus added to saves with this ability.
    pub fn get_save_bonus(&self) -> (r: i8)
        ensures
            r == self.save_bonus_of(),
    {
        self.save_bonus
    }

    /// Sets the bonus added to saves with this ability.
    pub fn set_save_bonus(&mut self, bonus: i8)
        ensures
            final(self).save_bonus_of() == bonus,
            final(self).score_of() == old(self).score_of(),
            final(self).cap_of() == old(self).cap_of(),
            final(self).prof_save_of() == old(self).prof_save_of(),
            final(self).roll_type_of() == old(self).roll_type_of(),
            final(self).d20_type_of() == old(self).d20_type_of(),
    {
        self.save_bonus = bonus;
    }

    /// Adds to the bonus added to saves with this ability.
    pub fn add_save_bonus(&mut self, bonus: i8)
        requires
            i8::MIN <= old(self).save_bonus_of() + bonus <= i8::MAX,
        ensures
            final(self).save_bonus_of() == old(self).save_bonus_of() + bonus,
            final(self).score_of() == old(self).score_of(),
            final(self).cap_of() == old(self).cap_of(),
            final(self).prof_save_of() == old(self).prof_save_of(),
            final(self).roll_type_of() == old(self).roll_type_of(),
            final(self).d20_type_of() == old(self).d20_type_of(),
    {
        self.save_bonus = self.save_bonus + bonus;
    }

    /// The kind of d20 used for saves with this ability.
    pub fn get_d20_type(&self) -> (r: &D20Type)
        ensures
            *r == self.d20_type_of(),
    {
        &self.d20_type
    }

    /// How saves with this ability are rolled.
    pub fn get_d20_roll_type(&self) -> (r: &D20RollType)
        ensures
            *r == self.roll_type_of(),
    {
        &self.default_roll_type
    }

    /// The constant added to a save with this ability: the modifier and the
    /// save bonus, plus `prof` when the save is proficient.
    pub fn get_save_bonus_total(&self, prof: isize) -> (r: isize)
        requires
            isize::MIN <= modifier(self.score_of() as int) + self.save_bonus_of() + (if self.prof_save_of() { prof as int } else { 0 }) <= isize::MAX,
        ensures
            r == modifier(self.score_of() as int) + self.save_bonus_of() + (if self.prof_save_of() { prof as int } else { 0 }),
    {
        let mut bonus = (self.get_mod() as isize) + (self.save_bonus as isize);
        if self.prof_save {
            bonus = bonus + prof;
        }
        bonus
    }
}

/// The six ability scores of a creature.
#[derive(Debug, Clone, Copy, PartialEq, Eq, Structural)]
pub struct AbilityScores {
    pub strength: AbilityScore,
    pub dexterity: AbilityScore,
    pub constitution: AbilityScore,
    pub intelligence: AbilityScore,
    pub wisdom: AbilityScore,
    pub charisma: AbilityScore,
}

/// The score of the given ability.
pub open spec fn score_for(s: AbilityScores, a: Ability) -> AbilityScore {
    match a {
        Ability::STR => s.strength,
        Ability::DEX => s.dexterity,
        Ability::CON => s.constitution,
        Ability::INT => s.intelligence,
        Ability::WIS => s.wisdom,
        Ability::CHA => s.charisma,
    }
}

/// The scores with the score of ability `a` replaced by `v`.
pub open spec fn with_score(s: AbilityScores, a: Ability, v: AbilityScore) -> AbilityScores {
    match a {
        Ability::STR => AbilityScores { strength: v, ..s },
        Ability::DEX => AbilityScores { dexterity: v, ..s },
        Ability::CON => AbilityScores { constitution: v, ..s },
        Ability::INT => AbilityScores { intelligence: v, ..s },
        Ability::WIS => AbilityScores { wisdom: v, ..s },
        Ability::CHA => AbilityScores { charisma: v, ..s },
    }
}

impl AbilityScores {
    /// Six scores, each made with `AbilityScore::new`.
    pub fn new(str: u8, dex: u8, con: u8, intl: u8, wis: u8, cha: u8) -> (r: AbilityScores)
        ensures
            r.strength == AbilityScore::new_spec(str),
            r.dexterity == AbilityScore::new_spec(dex),
            r.constitution == AbilityScore::new_spec(con),
            r.intelligence == AbilityScore::new_spec(intl),
            r.wisdom == AbilityScore::new_spec(wis),
            r.charisma == AbilityScore::new_spec(cha),
            r.strength.score_of() == str,
            r.dexterity.score_of() == dex,
            r.constitution.score_of() == con,
            r.intelligence.score_of() == intl,
            r.wisdom.score_of() == wis,
            r.charisma.score_of() == cha,
    {
        AbilityScores {
            strength: AbilityScore::new(str),
            dexterity: AbilityScore::new(dex),
            constitution: AbilityScore::new(con),
            intelligence: AbilityScore::new(intl),
            wisdom: AbilityScore::new(wis),
            charisma: AbilityScore::new(cha),
        }
    }

    /// Six scores taken in the order STR, DEX, CON, INT, WIS, CHA.
    pub fn from_array(scores: [u8; 6]) -> (r: AbilityScores)
        ensures
            r.strength == AbilityScore::new_spec(scores[0]),
            r.dexterity == AbilityScore::new_spec(scores[1]),
            r.constitution == AbilityScore::new_spec(scores[2]),
            r.intelligence == AbilityScore::new_spec(scores[3]),
            r.wisdom == AbilityScore::new_spec(scores[4]),
            r.charisma == AbilityScore::new_spec(scores[5]),
            r.strength.score_of() == scores[0],
            r.dexterity.score_of() == scores[1],
            r.constitution.score_of() == scores[2],
            r.intelligence.score_of() == scores[3],
            r.wisdom.score_of() == scores[4],
            r.charisma.score_of() == scores[5],
    {
        AbilityScores::new(scores[0], scores[1], scores[2], scores[3], scores[4], scores[5])
    }

    /// The score of the given ability.
    pub fn get_score(&self, ability: &Ability) -> (r: &AbilityScore)
        ensures
            *r == score_for(*self, *ability),
    {
        match ability {
            Ability::STR => &self.strength,
            Ability::DEX => &self.dexterity,
            Ability::CON => &self.constitution,
            Ability::INT => &self.intelligence,
            Ability::WIS => &self.wisdom,
            Ability::CHA => &self.charisma,
        }
    }

    /// A mutable reference to the score of the given ability; the other
    /// scores are left as they are.
    pub fn get_score_mut(&mut self, ability: &Ability) -> (r: &mut AbilityScore)
        ensures
            *r == score_for(*old(self), *ability),
            *final(self) == with_score(*old(self), *ability, *final(r)),
    {
        match ability {
            Ability::STR => &mut self.strength,
            Ability::DEX => &mut self.dexterity,
            Ability::CON => &mut self.constitution,
            Ability::INT => &mut self.intelligence,
            Ability::WIS => &mut self.wisdom,
            Ability::CHA => &mut self.charisma,
        }
    }
}

impl AbilityScore {
    /// The score that `new(score)` makes.
    pub closed spec fn new_spec(score: u8) -> AbilityScore {
        AbilityScore {
            score,
            cap: 20,
            prof_save: false,
            save_bonus: 0,
            default_roll_type: D20RollType::Normal,
            d20_type: D20Type::D20,
        }
    }

    /// The score raised by one unless it is at the cap.
    pub closed spec fn increased(self) -> AbilityScore {
        AbilityScore { score: if self.score < self.cap { (self.score + 1) as u8 } else { self.score }, ..self }
    }

    /// The score with save proficiency set to `prof`.
    pub closed spec fn with_prof_save(self, prof: bool) -> AbilityScore {
        AbilityScore { prof_save: prof, ..self }
    }

    /// What `increased` and `with_prof_save` change: the score (up to the
    /// cap) and the save proficiency respectively, nothing else.
    pub proof fn lemma_score_changes(s: AbilityScore, prof: bool)
        ensures
            s.increased().score_of() == (if s.score_of() < s.cap_of() { (s.score_of() + 1) as u8 } else { s.score_of() }),
            s.increased().cap_of() == s.cap_of(),
            s.increased().prof_save_of() == s.prof_save_of(),
            s.increased().save_bonus_of() == s.save_bonus_of(),
            s.increased().roll_type_of() == s.roll_type_of(),
            s.increased().d20_type_of() == s.d20_type_of(),
            s.with_prof_save(prof).prof_save_of() == prof,
            s.with_prof_save(prof).score_of() == s.score_of(),
            s.with_prof_save(prof).cap_of() == s.cap_of(),
            s.with_prof_save(prof).save_bonus_of() == s.save_bonus_of(),
            s.with_prof_save(prof).roll_type_of() == s.roll_type_of(),
            s.with_prof_save(prof).d20_type_of() == s.d20_type_of(),
    {
    }

    /// What `new(score)` makes: the score, a cap of 20, no save proficiency
    /// or bonus, and normal d20 rolls.
    pub proof fn lemma_new_spec(score: u8)
        ensures
            Self::new_spec(score).score_of() == score,
            Self::new_spec(score).cap_of() == 20,
            !Self::new_spec(score).prof_save_of(),
            Self::new_spec(score).save_bonus_of() == 0,
            Self::new_spec(score).roll_type_of() == D20RollType::Normal,
            Self::new_spec(score).d20_type_of() == D20Type::D20,
    {
    }
}

/// A saving throw that a creature is forced to make, against a DC.
#[derive(Debug, Clone, Copy, PartialEq, Eq, Structural)]
pub struct ForceSave {
    pub ability: Ability,
    pub save_dc: isize,
}

impl ForceSave {
    /// A save with the given ability against the given DC.
    pub fn new(ability: Ability, save_dc: isize) -> (r: Self)
        ensures
            r.ability == ability,
            r.save_dc == save_dc,
    {
        ForceSave { ability, save_dc }
    }
}

} // verus!
