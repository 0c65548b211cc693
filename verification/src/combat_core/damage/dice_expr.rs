use vstd::prelude::*;
use crate::combat_core::CCError;
use crate::combat_core::damage::{DamageDice, ExtendedDamageDice, single_die};

verus! {

/// A term of a dice expression: one die, several dice of a kind, or a constant.
#[derive(Debug, Clone, Copy, PartialEq, Eq, Structural)]
pub enum DiceExprTerm {
    Die(ExtendedDamageDice),
    Dice(u8, ExtendedDamageDice),
    Const(isize),
}

/// A sum of dice and a constant.
#[derive(Debug, Clone)]
pub struct DiceExpression {
    dice_terms: Vec<ExtendedDamageDice>,
    const_term: isize,
}

/// The mathematical content of a dice expression: the dice, in the order
/// they were added, and the constant.
pub struct DiceExpressionModel {
    pub dice: Seq<ExtendedDamageDice>,
    pub constant: int,
}

impl View for DiceExpression {
    type V = DiceExpressionModel;

    closed spec fn view(&self) -> DiceExpressionModel {
        DiceExpressionModel { dice: self.dice_terms@, constant: self.const_term as int }
    }
}

/// The expression after adding a term: dice are appended (a number of dice
/// appends that many copies), constants are summed.
pub open spec fn add_term_spec(m: DiceExpressionModel, term: DiceExprTerm) -> DiceExpressionModel {
    match term {
        DiceExprTerm::Die(d) => DiceExpressionModel { dice: m.dice.push(d), constant: m.constant },
        DiceExprTerm::Dice(n, d) => DiceExpressionModel {
            dice: m.dice + Seq::new(n as nat, |i: int| d),
            constant: m.constant,
        },
        DiceExprTerm::Const(c) => DiceExpressionModel { dice: m.dice, constant: m.constant + c },
    }
}

/// The term can be added without the constant leaving `isize`.
pub open spec fn add_term_fits(m: DiceExpressionModel, term: DiceExprTerm) -> bool {
    match term {
        DiceExprTerm::Const(c) => isize::MIN <= m.constant + c <= isize::MAX,
        _ => true,
    }
}

/// The die that an extended die stands for, given the weapon's dice.
pub open spec fn resolve_die(ext: ExtendedDamageDice, weapon_die: Option<DamageDice>) -> Result<DamageDice, CCError> {
    match ext {
        ExtendedDamageDice::Basic(d) => Ok(d),
        ExtendedDamageDice::WeaponDice => match weapon_die {
            Some(d) => Ok(d),
            None => Err(CCError::NoWeaponSet),
        },
        ExtendedDamageDice::SingleWeaponDie => match weapon_die {
            Some(d) => Ok(single_die(d)),
            None => Err(CCError::NoWeaponSet),
        },
    }
}

impl DiceExpression {
    /// The empty expression: no dice and a zero constant.
    pub fn new() -> (r: Self)
        ensures
            r@.dice == Seq::<ExtendedDamageDice>::empty(),
            r@.constant == 0,
    {
        DiceExpression { dice_terms: Vec::new(), const_term: 0 }
    }

    /// The constant of the expression.
    pub fn get_const_term(&self) -> (r: isize)
        ensures
            r == self@.constant,
    {
        self.const_term
    }

    /// The constant of the expression.
    pub fn get_const(&self) -> (r: isize)
        ensures
            r == self@.constant,
    {
        self.const_term
    }

    /// The dice of the expression, in the order they were added.
    pub fn get_dice(&self) -> (r: &Vec<ExtendedDamageDice>)
        ensures
            r@ == self@.dice,
    {
        &self.dice_terms
    }

    /// Adds a term to the expression.
    pub fn add_term(&mut self, term: DiceExprTerm)
        requires
            add_term_fits(old(self)@, term),
        ensures
            final(self)@ == add_term_spec(old(self)@, term),
    {
        match term {
            DiceExprTerm::Die(d) => self.dice_terms.push(d),
            DiceExprTerm::Dice(num, d) => {
                let ghost start = self.dice_terms@;
                let mut k: u8 = 0;
                while k < num
                    invariant
                        k <= num,
                        self.dice_terms@ == start + Seq::new(k as nat, |i: int| d),
                        self.const_term == old(self).const_term,
                    decreases num - k,
                {
                    self.dice_terms.push(d);
                    k = k + 1;
                    assert(self.dice_terms@ =~= start + Seq::new(k as nat, |i: int| d));
                }
            },
            DiceExprTerm::Const(c) => self.const_term = self.const_term + c,
        }
    }

    /// The die that an extended die stands for, given the weapon's dice;
    /// an error when it needs a weapon and none is set.
    pub fn get_die(ext_dice: &ExtendedDamageDice, weapon_die: Option<DamageDice>) -> (r: Result<DamageDice, CCError>)
        ensures
            r == resolve_die(*ext_dice, weapon_die),
    {
        match ext_dice {
            ExtendedDamageDice::Basic(d) => Ok(*d),
            ExtendedDamageDice::WeaponDice => {
                if let Some(d) = weapon_die {
                    Ok(d)
                } else {
                    Err(CCError::NoWeaponSet)
                }
            },
            ExtendedDamageDice::SingleWeaponDie => {
                if let Some(d) = weapon_die {
                    Ok(ExtendedDamageDice::get_single_die(d))
                } else {
                    Err(CCError::NoWeaponSet)
                }
            },
        }
    }
}

impl From<DiceExprTerm> for DiceExpression {
    /// An expression holding just the given term.
    fn from(value: DiceExprTerm) -> (r: Self)
        ensures
            r@ == add_term_spec(DiceExpressionModel { dice: Seq::empty(), constant: 0 }, value),
    {
        let mut de = DiceExpression::new();
        de.add_term(value);
        de
    }
}

// An expression holds a vector, which no spec value can build: the contract
// is the `ensures` of `from` itself, in terms of views.
impl vstd::std_specs::convert::FromSpecImpl<DiceExprTerm> for DiceExpression {
    open spec fn obeys_from_spec() -> bool {
        false
    }

    open spec fn from_spec(v: DiceExprTerm) -> DiceExpression {
        arbitrary()
    }
}

impl From<(Vec<ExtendedDamageDice>, isize)> for DiceExpression {
    /// An expression with the given dice and constant.
    fn from(value: (Vec<ExtendedDamageDice>, isize)) -> (r: Self)
        ensures
            r@.dice == value.0@,
            r@.constant == value.1,
    {
        DiceExpression { dice_terms: value.0, const_term: value.1 }
    }
}

impl vstd::std_specs::convert::FromSpecImpl<(Vec<ExtendedDamageDice>, isize)> for DiceExpression {
    open spec fn obeys_from_spec() -> bool {
        false
    }

    open spec fn from_spec(v: (Vec<ExtendedDamageDice>, isize)) -> DiceExpression {
        arbitrary()
    }
}

} // verus!
