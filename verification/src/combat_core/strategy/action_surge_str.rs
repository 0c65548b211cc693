use vstd::prelude::*;
use crate::combat_core::actions::ActionName;
use crate::combat_core::combat_state::CombatState;
use crate::combat_core::participant::ParticipantId;
use crate::combat_core::resources::ResourceName;
use crate::combat_core::strategy::{StrategyDecision, has_left, has_left_exec, readable_for, untargeted};
use crate::combat_core::triggers::{TriggerInfo, TriggerResponse};

verus! {

/// Builds the strategy that uses action surge whenever it can.
pub struct ActionSurgeStrBuilder;

impl ActionSurgeStrBuilder {
    /// The strategy for participant `me`.
    pub fn build_strategy(&self, me: ParticipantId) -> (r: ActionSurgeStr)
        ensures
            r.my_pid == me,
    {
        ActionSurgeStr { my_pid: me }
    }
}

/// The strategy that uses action surge whenever a use is left.
#[derive(Debug)]
pub struct ActionSurgeStr {
    pub my_pid: ParticipantId,
}

impl ActionSurgeStr {
    /// What the strategy decides in `state`.
    pub open spec fn decides(&self, state: CombatState) -> StrategyDecision {
        if has_left(state, self.my_pid, ResourceName::AN(ActionName::ActionSurge)) {
            untargeted(ActionName::ActionSurge)
        } else {
            StrategyDecision::DoNothing
        }
    }

    /// The participant this strategy plays.
    pub fn get_my_pid(&self) -> (r: ParticipantId)
        ensures
            r == self.my_pid,
    {
        self.my_pid
    }

    /// Action surge if a use is left, else nothing.
    pub fn choose_action(&self, state: &CombatState) -> (r: StrategyDecision)
        requires
            readable_for(*state, self.my_pid),
        ensures
            r == self.decides(*state),
    {
        let me = self.get_my_pid();
        if has_left_exec(state, me, ResourceName::AN(ActionName::ActionSurge)) {
            return StrategyDecision::from(ActionName::ActionSurge);
        }
        StrategyDecision::DoNothing
    }

    /// Never any trigger.
    pub fn choose_triggers(&self, ti: TriggerInfo, state: &CombatState) -> (r: Vec<TriggerResponse>)
        ensures
            r@.len() == 0,
    {
        Vec::new()
    }
}

} // verus!
