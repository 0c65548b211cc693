use vstd::prelude::*;
use crate::combat_core::actions::ActionName;
use crate::combat_core::combat_state::CombatState;
use crate::combat_core::health::Health;
use crate::combat_core::participant::ParticipantId;
use crate::combat_core::resources::{ResourceActionType, ResourceName};
use crate::combat_core::strategy::{StrategyDecision, has_left, has_left_exec, readable_for, untargeted};
use crate::combat_core::triggers::{TriggerInfo, TriggerResponse};

verus! {

/// Builds the strategy that uses second wind when bloodied.
pub struct SecondWindStrBuilder;

impl SecondWindStrBuilder {
    /// The strategy for participant `me`.
    pub fn build_strategy(&self, me: ParticipantId) -> (r: SecondWindStr)
        ensures
            r.my_pid == me,
    {
        SecondWindStr { my_pid: me }
    }
}

/// The strategy that uses second wind when bloodied and a bonus action and a
/// use of second wind are left.
#[derive(Debug)]
pub struct SecondWindStr {
    pub my_pid: ParticipantId,
}

impl SecondWindStr {
    /// What the strategy decides in `state`.
    pub open spec fn decides(&self, state: CombatState) -> StrategyDecision {
        if has_left(state, self.my_pid, ResourceName::RAT(ResourceActionType::BonusAction))
            && has_left(state, self.my_pid, ResourceName::AN(ActionName::SecondWind))
            && state.healths()[self.my_pid.0 as int] == Health::Bloodied {
            untargeted(ActionName::SecondWind)
        } else {
            StrategyDecision::DoNothing
        }
    }

    /// Second wind is only ever used when bloodied: whatever the state, the
    /// strategy does nothing unless its participant is bloodied, and anything
    /// it decides is the second wind action.
    pub proof fn lemma_only_when_bloodied(&self, state: CombatState)
        ensures
            self.decides(state) != StrategyDecision::DoNothing ==> state.healths()[self.my_pid.0 as int] == Health::Bloodied,
            state.healths()[self.my_pid.0 as int] != Health::Bloodied ==> self.decides(state) == StrategyDecision::DoNothing,
            self.decides(state) != StrategyDecision::DoNothing ==> self.decides(state) == untargeted(ActionName::SecondWind),
    {
    }

    /// The participant this strategy plays.
    pub fn get_my_pid(&self) -> (r: ParticipantId)
        ensures
            r == self.my_pid,
    {
        self.my_pid
    }

    /// Second wind when bloodied, with a bonus action and a use left.
    pub fn choose_action(&self, state: &CombatState) -> (r: StrategyDecision)
        requires
            readable_for(*state, self.my_pid),
        ensures
            r == self.decides(*state),
    {
        let me = self.get_my_pid();
        proof {
            state.lemma_wf_parts();
        }
        let has_ba = has_left_exec(state, me, ResourceName::RAT(ResourceActionType::BonusAction));
        let has_sw = has_left_exec(state, me, ResourceName::AN(ActionName::SecondWind));
        if has_ba && has_sw && state.get_health(me) == Health::Bloodied {
            return StrategyDecision::from(ActionName::SecondWind);
        }
        StrategyDecision::DoNothing
    }

    /// Never any trigger.
    pub fn choose_triggers(&self, ti: TriggerInfo, state: &CombatState) -> (r: Vec<TriggerResponse>)
        ensures
            r@.len() == 0,
    {
        Vec::new()
    }
}

} // verus!
