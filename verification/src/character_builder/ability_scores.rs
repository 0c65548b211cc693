use vstd::prelude::*;

verus! {

/// The six abilities.
#[derive(Debug, Clone, Copy, PartialEq, Eq, Structural)]
pub enum Ability {
    STR,
    DEX,
    CON,
    INT,
    WIS,
    CHA,
}

/// The short name of an ability.
pub open spec fn ability_name(a: Ability) -> Seq<char> {
    match a {
        Ability::STR => seq!['S', 'T', 'R'],
        Ability::DEX => seq!['D', 'E', 'X'],
        Ability::CON => seq!['C', 'O', 'N'],
        Ability::INT => seq!['I', 'N', 'T'],
        Ability::WIS => seq!['W', 'I', 'S'],
        Ability::CHA => seq!['C', 'H', 'A'],
    }
}

impl Ability {
    /// The ability's short name, such as "STR".
    pub fn to_string(&self) -> (r: String)
        ensures
            r@ == ability_name(*self),
    {
        let s = match self {
            Ability::STR => "STR",
            Ability::DEX => "DEX",
            Ability::CON => "CON",
            Ability::INT => "INT",
            Ability::WIS => "WIS",
            Ability::CHA => "CHA",
        };
        let r = String::from_str(s);
        proof {
            reveal_strlit("STR");
            reveal_strlit("DEX");
            reveal_strlit("CON");
            reveal_strlit("INT");
            reveal_strlit("WIS");
            reveal_strlit("CHA");
        }
        r
    }
}

/// The modifier of a score: half the score, rounded down, minus five.
pub open spec fn score_mod(score: int) -> int {
    score / 2 - 5
}

/// An ability score, whether its saves are proficient, and a bonus to its saves.
#[derive(Debug, Clone, Copy, PartialEq, Eq, Structural)]
pub struct AbilityScore {
    score: u8,
    prof_save: bool,
    save_bonus: i8,
}

impl AbilityScore {
    /// The score.
    pub closed spec fn score_of(self) -> u8 {
        self.score
    }

    /// Whether saves are proficient.
    pub closed spec fn prof_of(self) -> bool {
        self.prof_save
    }

    /// The bonus to saves.
    pub closed spec fn bonus_of(self) -> i8 {
        self.save_bonus
    }

    /// A score with no save proficiency and no save bonus.
    pub fn new(score: u8) -> (r: Self)
        ensures
            r.score_of() == score,
            !r.prof_of(),
            r.bonus_of() == 0,
    {
        AbilityScore { score, prof_save: false, save_bonus: 0 }
    }

    /// The score.
    pub fn get_score(&self) -> (r: u8)
        ensures
            r == self.score_of(),
    {
        self.score
    }

    /// The modifier: half the score, rounded down, minus five.
    pub fn get_mod(&self) -> (r: i8)
        ensures
            r == score_mod(self.score_of() as int),
    {
        ((self.score / 2) as i8) - 5
    }

    /// Raises the score by one (the score must be below the largest `u8`).
    pub fn increase(&mut self)
        requires
            old(self).score_of() < u8::MAX,
        ensures
            final(self).score_of() == old(self).score_of() + 1,
            final(self).prof_of() == old(self).prof_of(),
            final(self).bonus_of() == old(self).bonus_of(),
    {
        self.score = self.score + 1;
    }

    /// Whether saves are proficient.
    pub fn is_prof_save(&self) -> (r: bool)
        ensures
            r == self.prof_of(),
    {
        self.prof_save
    }

    /// Sets whether saves are proficient.
    pub fn set_prof_save(&mut self, prof: bool)
        ensures
            final(self).prof_of() == prof,
            final(self).score_of() == old(self).score_of(),
            final(self).bonus_of() == old(self).bonus_of(),
    {
        self.prof_save = prof;
    }

    /// The bonus to saves.
    pub fn get_save_bonus(&self) -> (r: i8)
        ensures
            r == self.bonus_of(),
    {
        self.save_bonus
    }

    /// Sets the bonus to saves.
    pub fn set_save_bonus(&mut self, bonus: i8)
        ensures
            final(self).bonus_of() == bonus,
            final(self).score_of() == old(self).score_of(),
            final(self).prof_of() == old(self).prof_of(),
    {
        self.save_bonus = bonus;
    }
}

/// The six ability scores of a character.
#[derive(Debug, Clone, Copy, PartialEq, Eq, Structural)]
pub struct AbilityScores {
    pub strength: AbilityScore,
    pub dexterity: AbilityScore,
    pub constitution: AbilityScore,
    pub intelligence: AbilityScore,
    pub wisdom: AbilityScore,
    pub charisma: AbilityScore,
}

/// The score of an ability among the six.
pub open spec fn score_for(s: AbilityScores, a: Ability) -> AbilityScore {
    match a {
        Ability::STR => s.strength,
        Ability::DEX => s.dexterity,
        Ability::CON => s.constitution,
        Ability::INT => s.intelligence,
        Ability::WIS => s.wisdom,
        Ability::CHA => s.charisma,
    }
}

/// The six scores with the score of `a` replaced.
pub open spec fn with_score(s: AbilityScores, a: Ability, v: AbilityScore) -> AbilityScores {
    match a {
        Ability::STR => AbilityScores { strength: v, ..s },
        Ability::DEX => AbilityScores { dexterity: v, ..s },
        Ability::CON => AbilityScores { constitution: v, ..s },
        Ability::INT => AbilityScores { intelligence: v, ..s },
        Ability::WIS => AbilityScores { wisdom: v, ..s },
        Ability::CHA => AbilityScores { charisma: v, ..s },
    }
}

impl AbilityScores {
    /// Six scores with no save proficiencies and no save bonuses.
    pub fn new(str: u8, dex: u8, con: u8, intl: u8, wis: u8, cha: u8) -> (r: AbilityScores)
        ensures
            r.strength == AbilityScore::new_spec(str),
            r.dexterity == AbilityScore::new_spec(dex),
            r.constitution == AbilityScore::new_spec(con),
            r.intelligence == AbilityScore::new_spec(intl),
            r.wisdom == AbilityScore::new_spec(wis),
            r.charisma == AbilityScore::new_spec(cha),
            r.strength.score_of() == str,
            r.dexterity.score_of() == dex,
            r.constitution.score_of() == con,
            r.intelligence.score_of() == intl,
            r.wisdom.score_of() == wis,
            r.charisma.score_of() == cha,
    {
        AbilityScores {
            strength: AbilityScore::new(str),
            dexterity: AbilityScore::new(dex),
            constitution: AbilityScore::new(con),
            intelligence: AbilityScore::new(intl),
            wisdom: AbilityScore::new(wis),
            charisma: AbilityScore::new(cha),
        }
    }

    /// The score of an ability.
    pub fn get_score(&self, ability: &Ability) -> (r: &AbilityScore)
        ensures
            *r == score_for(*self, *ability),
    {
        match ability {
            Ability::STR => &self.strength,
            Ability::DEX => &self.dexterity,
            Ability::CON => &self.constitution,
            Ability::INT => &self.intelligence,
            Ability::WIS => &self.wisdom,
            Ability::CHA => &self.charisma,
        }
    }

    /// The score of an ability, to change.
    pub fn get_score_mut(&mut self, ability: &Ability) -> (r: &mut AbilityScore)
        ensures
            *r == score_for(*old(self), *ability),
            *final(self) == with_score(*old(self), *ability, *final(r)),
    {
        match ability {
            Ability::STR => &mut self.strength,
            Ability::DEX => &mut self.dexterity,
            Ability::CON => &mut self.constitution,
            Ability::INT => &mut self.intelligence,
            Ability::WIS => &mut self.wisdom,
            Ability::CHA => &mut self.charisma,
        }
    }
}

impl AbilityScore {
    /// A score with no save proficiency and no save bonus.
    pub closed spec fn new_spec(score: u8) -> AbilityScore {
        AbilityScore { score, prof_save: false, save_bonus: 0 }
    }

    /// What a new score is.
    pub proof fn lemma_new_spec(score: u8)
        ensures
            Self::new_spec(score).score_of() == score,
            !Self::new_spec(score).prof_of(),
            Self::new_spec(score).bonus_of() == 0,
    {
    }
}

/// The modifier never decreases as the score grows, and raising a score by
/// two raises the modifier by one.
pub proof fn lemma_mod_monotone(a: int, b: int)
    requires
        0 <= a <= b,
    ensures
        score_mod(a) <= score_mod(b),
        score_mod(a + 2) == score_mod(a) + 1,
{
}

} // verus!
