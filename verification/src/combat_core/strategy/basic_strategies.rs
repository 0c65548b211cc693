use vstd::prelude::*;
use crate::combat_core::actions::{ActionType, all_action_types};
use crate::combat_core::combat_state::CombatState;
use crate::combat_core::conditions::{ConditionLifetime, ConditionManagerModel, has_lifetime_spec, names_for, names_in_order};
use crate::combat_core::participant::ParticipantId;
use crate::combat_core::strategy::StrategyDecision;
use crate::combat_core::triggers::{TriggerInfo, TriggerResponse};

verus! {

/// Builds the strategy that never does anything.
pub struct DoNothingBuilder;

impl DoNothingBuilder {
    /// The strategy that never does anything.
    pub fn build_strategy(&self) -> (r: DoNothing) {
        DoNothing
    }
}

/// The strategy that never does anything.
#[derive(Debug)]
pub struct DoNothing;

impl DoNothing {
    /// Always nothing.
    pub fn choose_action(&self, state: &CombatState) -> (r: StrategyDecision)
        ensures
            r == StrategyDecision::DoNothing,
    {
        StrategyDecision::DoNothing
    }

    /// Never any trigger.
    pub fn choose_triggers(&self, ti: TriggerInfo, state: &CombatState) -> (r: Vec<TriggerResponse>)
        ensures
            r@.len() == 0,
    {
        Vec::new()
    }
}

/// Builds the strategy that removes conditions ended by spending an action type.
pub struct RemoveCondBuilder;

impl RemoveCondBuilder {
    /// The strategy for participant `me`.
    pub fn build_strategy(&self, me: ParticipantId) -> (r: RemoveConditions)
        ensures
            r.my_pid == me,
    {
        RemoveConditions { my_pid: me }
    }
}

/// The strategy that spends an action type to end a condition that lasts
/// until that action type is spent.
#[derive(Debug)]
pub struct RemoveConditions {
    pub my_pid: ParticipantId,
}

/// The decision of `RemoveConditions` for the conditions `m`, trying the
/// action types from position `i` on: the first action type that ends some
/// condition, with the first such condition in declaration order.
pub open spec fn removal_from(m: ConditionManagerModel, i: int) -> StrategyDecision
    decreases 7 - i,
{
    if i < 0 || i >= 7 {
        StrategyDecision::DoNothing
    } else {
        let lt = ConditionLifetime::UntilSpendAT(all_action_types()[i]);
        if has_lifetime_spec(m, lt) {
            StrategyDecision::RemoveCondition(names_in_order(names_for(m, lt), 4)[0], all_action_types()[i])
        } else {
            removal_from(m, i + 1)
        }
    }
}

impl RemoveConditions {
    /// The participant this strategy plays.
    pub fn get_my_pid(&self) -> (r: ParticipantId)
        ensures
            r == self.my_pid,
    {
        self.my_pid
    }

    /// Removes the first condition that spending some action type ends
    /// (action types in declaration order), by spending that action type.
    pub fn choose_action(&self, state: &CombatState) -> (r: StrategyDecision)
        requires
            state.wf(),
            self.my_pid.0 < state.cms().len(),
        ensures
            r == removal_from(state.cms()[self.my_pid.0 as int]@, 0),
    {
        let my_cm = state.get_cm(self.get_my_pid());
        let ats = ActionType::iterator();
        let n = ats.len();
        let mut i: usize = 0;
        while i < n
            invariant
                n == ats@.len(),
                ats@ == all_action_types(),
                i <= n,
                my_cm.wf(),
                removal_from(state.cms()[self.my_pid.0 as int]@, 0) == removal_from(my_cm@, i as int),
            decreases n - i,
        {
            let at = ats[i];
            let lifetime = ConditionLifetime::UntilSpendAT(at);
            if my_cm.has_lifetime(&lifetime) {
                let cns = my_cm.get_cns_for_lifetime(&lifetime);
                return StrategyDecision::RemoveCondition(cns[0], at);
            }
            i = i + 1;
        }
        StrategyDecision::DoNothing
    }

    /// Never any trigger.
    pub fn choose_triggers(&self, ti: TriggerInfo, state: &CombatState) -> (r: Vec<TriggerResponse>)
        ensures
            r@.len() == 0,
    {
        Vec::new()
    }
}

} // verus!
