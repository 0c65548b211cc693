use vstd::prelude::*;
use crate::combat_core::ability_scores::{Ability, AbilityScores, ability_name, modifier, score_for};

verus! {

/// What a bonus term adds: a constant, the modifier of an ability, or the
/// proficiency bonus.
#[derive(Debug, Clone, Copy, PartialEq, Eq, Structural)]
pub enum BonusType {
    Constant(i32),
    Modifier(Ability),
    Proficiency,
}

/// The value of a bonus for a creature of the given scores and proficiency bonus.
pub open spec fn bonus_value(b: BonusType, scores: AbilityScores, prof: int) -> int {
    match b {
        BonusType::Constant(c) => c as int,
        BonusType::Modifier(a) => modifier(score_for(scores, a).score_of() as int),
        BonusType::Proficiency => prof,
    }
}

/// The decimal digit character of `d` (below ten).
pub open spec fn digit_char(d: int) -> char {
    if d == 0 { '0' } else if d == 1 { '1' } else if d == 2 { '2' } else if d == 3 { '3' }
    else if d == 4 { '4' } else if d == 5 { '5' } else if d == 6 { '6' } else if d == 7 { '7' }
    else if d == 8 { '8' } else { '9' }
}

/// The decimal digits of a natural number, without leading zeros.
pub open spec fn digits_of(n: nat) -> Seq<char>
    decreases n,
{
    if n < 10 {
        seq![digit_char(n as int)]
    } else {
        digits_of(n / 10).push(digit_char((n % 10) as int))
    }
}

/// The decimal text of an integer, with a minus sign when negative.
pub open spec fn decimal_text(n: int) -> Seq<char> {
    if n < 0 { seq!['-'] + digits_of((-n) as nat) } else { digits_of(n as nat) }
}

/// Appends the digit `d` (below ten).
fn append_digit(s: &mut String, d: u64)
    requires
        d < 10,
    ensures
        final(s)@ == old(s)@.push(digit_char(d as int)),
{
    let t = if d == 0 { "0" } else if d == 1 { "1" } else if d == 2 { "2" } else if d == 3 { "3" }
        else if d == 4 { "4" } else if d == 5 { "5" } else if d == 6 { "6" } else if d == 7 { "7" }
        else if d == 8 { "8" } else { "9" };
    proof {
        reveal_strlit("0");
        reveal_strlit("1");
        reveal_strlit("2");
        reveal_strlit("3");
        reveal_strlit("4");
        reveal_strlit("5");
        reveal_strlit("6");
        reveal_strlit("7");
        reveal_strlit("8");
        reveal_strlit("9");
    }
    s.append(t);
    assert(s@ =~= old(s)@.push(digit_char(d as int)));
}

/// Appends the decimal digits of `n`.
fn append_digits(s: &mut String, n: u64)
    ensures
        final(s)@ == old(s)@ + digits_of(n as nat),
    decreases n,
{
    if n >= 10 {
        append_digits(s, n / 10);
    }
    append_digit(s, n % 10);
    assert(s@ =~= old(s)@ + digits_of(n as nat));
}

/// Appends the decimal text of `n`.
fn append_decimal(s: &mut String, n: i32)
    ensures
        final(s)@ == old(s)@ + decimal_text(n as int),
{
    if n < 0 {
        s.append("-");
        proof {
            reveal_strlit("-");
        }
        let m: i64 = n as i64;
        append_digits(s, (-m) as u64);
        assert(s@ =~= old(s)@ + decimal_text(n as int));
    } else {
        append_digits(s, n as u64);
    }
}

/// The text of what a bonus adds: the constant, the ability with "mod"
/// after it, or "prof".
pub open spec fn bonus_text(b: BonusType) -> Seq<char> {
    match b {
        BonusType::Constant(c) => decimal_text(c as int),
        BonusType::Modifier(a) => ability_name(a) + "mod"@,
        BonusType::Proficiency => "prof"@,
    }
}

/// The text of a term: what it adds, then " (From: ...)" when it has an
/// attribution.
pub open spec fn term_text(t: BonusTermView) -> Seq<char> {
    bonus_text(t.bonus) + match t.attribution {
        Some(a) => " (From: "@ + a + ")"@,
        None => Seq::empty(),
    }
}

/// A term of an attributed bonus: what it adds, with an optional name and an
/// optional note of where it comes from.
#[derive(Debug, Clone)]
pub struct BonusTerm {
    bonus: BonusType,
    name: Option<String>,
    attribution: Option<String>,
}

/// The content of a bonus term.
pub struct BonusTermView {
    pub bonus: BonusType,
    pub name: Option<Seq<char>>,
    pub attribution: Option<Seq<char>>,
}

/// The characters of an optional string.
pub open spec fn opt_chars(s: Option<String>) -> Option<Seq<char>> {
    match s {
        Some(x) => Some(x@),
        None => None,
    }
}

impl View for BonusTerm {
    type V = BonusTermView;

    closed spec fn view(&self) -> BonusTermView {
        BonusTermView { bonus: self.bonus, name: opt_chars(self.name), attribution: opt_chars(self.attribution) }
    }
}

/// A copy of an optional string, character for character.
fn copy_opt(s: &Option<String>) -> (r: Option<String>)
    ensures
        opt_chars(r) == opt_chars(*s),
{
    match s {
        Some(x) => Some(x.clone()),
        None => None,
    }
}

impl BonusTerm {
    /// A term with neither name nor attribution.
    pub fn new(value: BonusType) -> (r: Self)
        ensures
            r@ == (BonusTermView { bonus: value, name: None, attribution: None }),
    {
        BonusTerm { bonus: value, name: None, attribution: None }
    }

    /// A named term.
    pub fn new_name(value: BonusType, name: String) -> (r: Self)
        ensures
            r@ == (BonusTermView { bonus: value, name: Some(name@), attribution: None }),
    {
        BonusTerm { bonus: value, name: Some(name), attribution: None }
    }

    /// A term with an attribution.
    pub fn new_attr(value: BonusType, attr: String) -> (r: Self)
        ensures
            r@ == (BonusTermView { bonus: value, name: None, attribution: Some(attr@) }),
    {
        BonusTerm { bonus: value, name: None, attribution: Some(attr) }
    }

    /// A named term with an attribution.
    pub fn new_name_attr(value: BonusType, name: String, attr: String) -> (r: Self)
        ensures
            r@ == (BonusTermView { bonus: value, name: Some(name@), attribution: Some(attr@) }),
    {
        BonusTerm { bonus: value, name: Some(name), attribution: Some(attr) }
    }

    /// The name, if any.
    pub fn get_name(&self) -> (r: Option<&str>)
        ensures
            match r {
                Some(s) => self@.name == Some(s@),
                None => self@.name is None,
            },
    {
        match &self.name {
            Some(s) => Some(s.as_str()),
            None => None,
        }
    }

    /// The attribution, if any.
    pub fn get_attr(&self) -> (r: Option<&str>)
        ensures
            match r {
                Some(s) => self@.attribution == Some(s@),
                None => self@.attribution is None,
            },
    {
        match &self.attribution {
            Some(s) => Some(s.as_str()),
            None => None,
        }
    }

    /// What the term adds.
    pub fn get_bonus(&self) -> (r: &BonusType)
        ensures
            *r == self@.bonus,
    {
        &self.bonus
    }

    /// The value of the term for a creature of the given scores and
    /// proficiency bonus.
    pub fn get_value(&self, scores: &AbilityScores, prof: u8) -> (r: i32)
        ensures
            r == bonus_value(self@.bonus, *scores, prof as int),
    {
        match self.bonus {
            BonusType::Constant(c) => c,
            BonusType::Modifier(a) => scores.get_score(&a).get_mod() as i32,
            BonusType::Proficiency => prof as i32,
        }
    }

    /// The text of the term, such as "STRmod" or "2 (From: magic bonus)".
    pub fn to_string(&self) -> (r: String)
        ensures
            r@ == term_text(self@),
    {
        let mut s = String::new();
        match self.bonus {
            BonusType::Constant(c) => append_decimal(&mut s, c),
            BonusType::Modifier(a) => {
                let name = a.to_string();
                s.append(name.as_str());
                s.append("mod");
            },
            BonusType::Proficiency => s.append("prof"),
        }
        if let Some(attr) = &self.attribution {
            s.append(" (From: ");
            s.append(attr.as_str());
            s.append(")");
        }
        assert(s@ =~= term_text(self@));
        s
    }

    /// A copy of the term.
    pub fn duplicate(&self) -> (r: Self)
        ensures
            r@ == self@,
    {
        BonusTerm { bonus: self.bonus, name: copy_opt(&self.name), attribution: copy_opt(&self.attribution) }
    }
}

/// The sum of the values of the first `k` terms.
pub open spec fn terms_sum(ts: Seq<BonusTermView>, scores: AbilityScores, prof: int, k: int) -> int
    decreases k,
{
    if k <= 0 {
        0
    } else {
        terms_sum(ts, scores, prof, k - 1) + bonus_value(ts[k - 1].bonus, scores, prof)
    }
}

/// Every partial sum of the terms, started at `start`, fits an `i32`.
pub open spec fn sums_fit(ts: Seq<BonusTermView>, scores: AbilityScores, prof: int, start: int) -> bool {
    forall|k: int| 0 <= k <= ts.len() ==> i32::MIN <= #[trigger] terms_sum(ts, scores, prof, k) + start <= i32::MAX
}

/// A named bonus made of terms, and of temporary terms that can be cleared.
#[derive(Debug, Clone)]
pub struct AttributedBonus {
    name: String,
    terms: Vec<BonusTerm>,
    temp_terms: Vec<BonusTerm>,
}

/// The content of an attributed bonus.
pub struct AttributedBonusView {
    pub name: Seq<char>,
    pub terms: Seq<BonusTermView>,
    pub temp_terms: Seq<BonusTermView>,
}

/// The views of a list of terms.
pub open spec fn term_views(ts: Seq<BonusTerm>) -> Seq<BonusTermView> {
    ts.map_values(|t: BonusTerm| t@)
}

impl View for AttributedBonus {
    type V = AttributedBonusView;

    closed spec fn view(&self) -> AttributedBonusView {
        AttributedBonusView { name: self.name@, terms: term_views(self.terms@), temp_terms: term_views(self.temp_terms@) }
    }
}

/// The text of the terms from the `k`-th on, each after " + ".
pub open spec fn joined_rest(ts: Seq<BonusTermView>, k: int) -> Seq<char>
    decreases ts.len() - k,
{
    if k >= ts.len() {
        Seq::empty()
    } else {
        " + "@ + term_text(ts[k]) + joined_rest(ts, k + 1)
    }
}

/// The text of an attributed bonus: its name, " = ", its terms separated by
/// " + ", then " + " and each temporary term.
pub open spec fn bonus_view_text(b: AttributedBonusView) -> Seq<char> {
    b.name + " = "@ + (if b.terms.len() > 0 { term_text(b.terms[0]) + joined_rest(b.terms, 1) } else { Seq::empty() })
        + joined_rest(b.temp_terms, 0)
}

/// Appends the text of the terms from the `k`-th on, each after " + ".
fn append_rest(s: &mut String, ts: &Vec<BonusTerm>, k: usize)
    requires
        k <= ts@.len(),
    ensures
        final(s)@ == old(s)@ + joined_rest(term_views(ts@), k as int),
    decreases ts@.len() - k,
{
    if k < ts.len() {
        s.append(" + ");
        let t = ts[k].to_string();
        s.append(t.as_str());
        append_rest(s, ts, k + 1);
        assert(s@ =~= old(s)@ + joined_rest(term_views(ts@), k as int));
    } else {
        assert(s@ =~= old(s)@ + joined_rest(term_views(ts@), k as int));
    }
}

/// The value of an attributed bonus: the sum of its terms and temporary terms.
pub open spec fn bonus_total(b: AttributedBonusView, scores: AbilityScores, prof: int) -> int {
    terms_sum(b.terms, scores, prof, b.terms.len() as int) + terms_sum(b.temp_terms, scores, prof, b.temp_terms.len() as int)
}

/// The sum of the values of a list of terms, added to `start`.
fn sum_terms(ts: &Vec<BonusTerm>, scores: &AbilityScores, prof: u8, start: i32) -> (r: i32)
    requires
        sums_fit(term_views(ts@), *scores, prof as int, start as int),
    ensures
        r == start + terms_sum(term_views(ts@), *scores, prof as int, ts@.len() as int),
{
    let ghost tv = term_views(ts@);
    let mut total = start;
    let mut i: usize = 0;
    while i < ts.len()
        invariant
            i <= ts@.len(),
            tv == term_views(ts@),
            sums_fit(tv, *scores, prof as int, start as int),
            total == start + terms_sum(tv, *scores, prof as int, i as int),
        decreases ts@.len() - i,
    {
        let v = ts[i].get_value(scores, prof);
        assert(i32::MIN <= terms_sum(tv, *scores, prof as int, i + 1) + start <= i32::MAX);
        total = total + v;
        i = i + 1;
    }
    total
}

/// A copy of a list of terms, term for term.
pub(crate) fn copy_terms(ts: &Vec<BonusTerm>) -> (r: Vec<BonusTerm>)
    ensures
        term_views(r@) == term_views(ts@),
{
    let mut r: Vec<BonusTerm> = Vec::new();
    let mut i: usize = 0;
    while i < ts.len()
        invariant
            i <= ts@.len(),
            r@.len() == i,
            forall|k: int| 0 <= k < i ==> (#[trigger] r@[k])@ == ts@[k]@,
        decreases ts@.len() - i,
    {
        r.push(ts[i].duplicate());
        i = i + 1;
    }
    assert(term_views(r@) =~= term_views(ts@));
    r
}

impl AttributedBonus {
    /// A copy of the bonus, term for term.
    pub(crate) fn duplicate(&self) -> (r: Self)
        ensures
            r@ == self@,
    {
        AttributedBonus { name: self.name.clone(), terms: copy_terms(&self.terms), temp_terms: copy_terms(&self.temp_terms) }
    }

    /// A bonus of the given name with no terms.
    pub fn new(name: String) -> (r: Self)
        ensures
            r@ == (AttributedBonusView { name: name@, terms: Seq::empty(), temp_terms: Seq::empty() }),
    {
        let r = AttributedBonus { name, terms: Vec::new(), temp_terms: Vec::new() };
        assert(r@.terms =~= Seq::<BonusTermView>::empty());
        assert(r@.temp_terms =~= Seq::<BonusTermView>::empty());
        r
    }

    /// Removes every term and temporary term; the name stays.
    pub fn reset(&mut self)
        ensures
            final(self)@ == (AttributedBonusView { name: old(self)@.name, terms: Seq::empty(), temp_terms: Seq::empty() }),
    {
        self.terms.clear();
        self.temp_terms.clear();
        assert(self@.terms =~= Seq::<BonusTermView>::empty());
        assert(self@.temp_terms =~= Seq::<BonusTermView>::empty());
    }

    /// Adds a term.
    pub fn add_term(&mut self, term: BonusTerm)
        ensures
            final(self)@ == (AttributedBonusView { terms: old(self)@.terms.push(term@), ..old(self)@ }),
    {
        self.terms.push(term);
        assert(self@.terms =~= old(self)@.terms.push(term@));
    }

    /// Adds a temporary term.
    pub fn add_temp_term(&mut self, term: BonusTerm)
        ensures
            final(self)@ == (AttributedBonusView { temp_terms: old(self)@.temp_terms.push(term@), ..old(self)@ }),
    {
        self.temp_terms.push(term);
        assert(self@.temp_terms =~= old(self)@.temp_terms.push(term@));
    }

    /// Removes the temporary terms.
    pub fn clear_temp_terms(&mut self)
        ensures
            final(self)@ == (AttributedBonusView { temp_terms: Seq::empty(), ..old(self)@ }),
    {
        self.temp_terms.clear();
        assert(self@.temp_terms =~= Seq::<BonusTermView>::empty());
    }

    /// The text of the bonus, such as "To Hit Bonus = STRmod + prof".
    pub fn to_string(&self) -> (r: String)
        ensures
            r@ == bonus_view_text(self@),
    {
        let mut s = self.name.clone();
        s.append(" = ");
        if self.terms.len() > 0 {
            let t = self.terms[0].to_string();
            s.append(t.as_str());
            append_rest(&mut s, &self.terms, 1);
        }
        append_rest(&mut s, &self.temp_terms, 0);
        assert(s@ =~= bonus_view_text(self@));
        s
    }

    /// The value of the bonus for a creature of the given scores and
    /// proficiency bonus: its terms, then its temporary terms, summed.
    pub fn get_value(&self, scores: &AbilityScores, prof: u8) -> (r: i32)
        requires
            sums_fit(self@.terms, *scores, prof as int, 0),
            sums_fit(self@.temp_terms, *scores, prof as int, terms_sum(self@.terms, *scores, prof as int, self@.terms.len() as int)),
        ensures
            r == bonus_total(self@, *scores, prof as int),
    {
        let base = sum_terms(&self.terms, scores, prof, 0);
        sum_terms(&self.temp_terms, scores, prof, base)
    }
}

} // verus!
