use vstd::prelude::*;
use crate::combat_core::conditions::{Condition, ConditionName};
use crate::combat_core::resources::ResourceName;

verus! {

/// The kind of action economy that an option consumes.
#[derive(Debug, Clone, Copy, PartialEq, Eq, Structural, Hash, PartialOrd, Ord)]
pub enum ActionType {
    Action,
    SingleAttack,
    BonusAction,
    Reaction,
    Movement,
    HalfMove,
    FreeAction,
}

/// All action types, in declaration order.
pub open spec fn all_action_types() -> Seq<ActionType> {
    seq![
        ActionType::Action,
        ActionType::SingleAttack,
        ActionType::BonusAction,
        ActionType::Reaction,
        ActionType::Movement,
        ActionType::HalfMove,
        ActionType::FreeAction,
    ]
}

impl ActionType {
    /// Every action type, in declaration order.
    pub fn iterator() -> (r: Vec<ActionType>)
        ensures
            r@ == all_action_types(),
    {
        let r = vec![
            ActionType::Action,
            ActionType::SingleAttack,
            ActionType::BonusAction,
            ActionType::Reaction,
            ActionType::Movement,
            ActionType::HalfMove,
            ActionType::FreeAction,
        ];
        assert(r@ =~= all_action_types());
        r
    }
}

/// What a combat option does.
#[derive(Debug, Clone)]
pub enum CombatAction<A, DE> {
    Attack(A),
    SelfHeal(DE),
    GainResource(ResourceName, usize),
    ApplyBasicCondition(ConditionName),
    ApplyComplexCondition(ConditionName, Condition),
    ByName,
}

/// An option available in combat: what it costs, what it does, and whether
/// it needs a target.
#[derive(Debug, Clone)]
pub struct CombatOption<A, DE> {
    pub action_type: ActionType,
    pub action: CombatAction<A, DE>,
    pub req_target: bool,
}

impl<A, DE> CombatOption<A, DE> {
    /// An option that needs no target.
    pub fn new(at: ActionType, ca: CombatAction<A, DE>) -> (r: Self)
        ensures
            r.action_type == at,
            r.action == ca,
            !r.req_target,
    {
        CombatOption { action_type: at, action: ca, req_target: false }
    }

    /// An option that needs a target when `rt` holds.
    pub fn new_target(at: ActionType, ca: CombatAction<A, DE>, rt: bool) -> (r: Self)
        ensures
            r.action_type == at,
            r.action == ca,
            r.req_target == rt,
    {
        CombatOption { action_type: at, action: ca, req_target: rt }
    }
}

/// The kind of a single attack.
#[derive(Debug, Clone, Copy, PartialEq, Eq, Structural, Hash, PartialOrd, Ord)]
pub enum AttackType {
    Normal,
    GWMAttack,
    SSAttack,
}

/// The named actions of the combat model.
#[derive(Debug, Clone, Copy, PartialEq, Eq, Structural, Hash, PartialOrd, Ord)]
pub enum ActionName {
    PrimaryAttack(AttackType),
    OffhandAttack(AttackType),
    BonusPAMAttack(AttackType),
    AttackAction,
    BonusGWMAttack,
    SecondWind,
    ActionSurge,
    Indomitable,
    ShoveProne,
    PlanarWarrior,
    FavoredFoeApply,
    FavoredFoeUse,
}

} // verus!
