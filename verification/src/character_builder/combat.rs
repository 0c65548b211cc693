pub mod attack;

use vstd::prelude::*;
use crate::combat_core::damage::DamageTerm;
use crate::combat_core::damage::dice_expr::DiceExpression;
use crate::character_builder::weapon_attack::WeaponAttack;

verus! {

/// The kind of action economy that an option consumes.
#[derive(Debug, Clone, Copy, PartialEq, Eq, Structural, Hash, PartialOrd, Ord)]
pub enum ActionType {
    Action,
    SingleAttack,
    BonusAction,
    Reaction,
    Movement,
    FreeAction,
    OnHit,
}

/// The variants of an attack.
#[derive(Debug, Clone, Copy, PartialEq, Eq, Structural, Hash, PartialOrd, Ord)]
pub enum AttackType {
    Normal,
    GWMAttack,
    SSAttack,
}

/// The named actions of a character.
#[derive(Debug, Clone, Copy, PartialEq, Eq, Structural, Hash, PartialOrd, Ord)]
pub enum ActionName {
    PrimaryAttack(AttackType),
    OffhandAttack(AttackType),
    BonusPAMAttack(AttackType),
    AttackAction,
    BonusGWMAttack,
    SecondWind,
    ActionSurge,
    Indomitable,
    SneakAttack,
}

/// The number of action names.
pub const NUM_ACTION_NAMES: usize = 15;

/// Position of an attack type.
pub open spec fn attack_pos(t: AttackType) -> int {
    match t {
        AttackType::Normal => 0,
        AttackType::GWMAttack => 1,
        AttackType::SSAttack => 2,
    }
}

/// Position of an action name.
pub open spec fn action_pos(a: ActionName) -> int {
    match a {
        ActionName::PrimaryAttack(t) => attack_pos(t),
        ActionName::OffhandAttack(t) => 3 + attack_pos(t),
        ActionName::BonusPAMAttack(t) => 6 + attack_pos(t),
        ActionName::AttackAction => 9,
        ActionName::BonusGWMAttack => 10,
        ActionName::SecondWind => 11,
        ActionName::ActionSurge => 12,
        ActionName::Indomitable => 13,
        ActionName::SneakAttack => 14,
    }
}

/// Distinct action names have distinct positions, all below their number.
pub proof fn lemma_action_pos(a: ActionName, b: ActionName)
    ensures
        0 <= action_pos(a) < NUM_ACTION_NAMES,
        action_pos(a) == action_pos(b) ==> a == b,
{
    match a {
        ActionName::PrimaryAttack(t) => match t { _ => {} },
        ActionName::OffhandAttack(t) => match t { _ => {} },
        ActionName::BonusPAMAttack(t) => match t { _ => {} },
        _ => {},
    }
    match b {
        ActionName::PrimaryAttack(t) => match t { _ => {} },
        ActionName::OffhandAttack(t) => match t { _ => {} },
        ActionName::BonusPAMAttack(t) => match t { _ => {} },
        _ => {},
    }
}

impl ActionName {
    /// Position of the action name in declaration order.
    pub fn index(&self) -> (r: usize)
        ensures
            r == action_pos(*self),
    {
        let at = |t: AttackType| -> (r: usize)
            ensures
                r == attack_pos(t),
        {
            match t {
                AttackType::Normal => 0,
                AttackType::GWMAttack => 1,
                AttackType::SSAttack => 2,
            }
        };
        match self {
            ActionName::PrimaryAttack(t) => at(*t),
            ActionName::OffhandAttack(t) => 3 + at(*t),
            ActionName::BonusPAMAttack(t) => 6 + at(*t),
            ActionName::AttackAction => 9,
            ActionName::BonusGWMAttack => 10,
            ActionName::SecondWind => 11,
            ActionName::ActionSurge => 12,
            ActionName::Indomitable => 13,
            ActionName::SneakAttack => 14,
        }
    }
}

/// What a combat option of a character does.
#[derive(Debug, Clone)]
pub enum CombatAction {
    WeaponAttack(WeaponAttack),
    SelfHeal(DiceExpression),
    BonusDamage(DamageTerm),
    AdditionalAttacks(u8),
    ByName,
}

/// An option of a character in combat: what it costs, what it does, and
/// whether it needs a target.
#[derive(Debug, Clone)]
pub struct CombatOption {
    pub action_type: ActionType,
    pub action: CombatAction,
    pub req_target: bool,
}

impl CombatOption {
    /// The option that `new` makes.
    pub open spec fn new_spec(at: ActionType, ca: CombatAction) -> CombatOption {
        CombatOption { action_type: at, action: ca, req_target: false }
    }

    /// An option that needs no target.
    pub fn new(at: ActionType, ca: CombatAction) -> (r: Self)
        ensures
            r == (CombatOption { action_type: at, action: ca, req_target: false }),
    {
        CombatOption { action_type: at, action: ca, req_target: false }
    }

    /// An option that needs a target when `rt` holds.
    pub fn new_target(at: ActionType, ca: CombatAction, rt: bool) -> (r: Self)
        ensures
            r == (CombatOption { action_type: at, action: ca, req_target: rt }),
    {
        CombatOption { action_type: at, action: ca, req_target: rt }
    }
}

impl From<(ActionType, CombatAction)> for CombatOption {
    /// An option of the given cost and action, needing no target.
    fn from(value: (ActionType, CombatAction)) -> (r: Self) {
        CombatOption { action_type: value.0, action: value.1, req_target: false }
    }
}

impl vstd::std_specs::convert::FromSpecImpl<(ActionType, CombatAction)> for CombatOption {
    open spec fn obeys_from_spec() -> bool {
        true
    }

    open spec fn from_spec(v: (ActionType, CombatAction)) -> CombatOption {
        CombatOption { action_type: v.0, action: v.1, req_target: false }
    }
}

} // verus!
