use vstd::prelude::*;
use crate::combat_core::actions::{ActionName, AttackType};
use crate::combat_core::combat_state::CombatState;
use crate::combat_core::participant::{ParticipantId, Team};
use crate::combat_core::resources::{ResourceActionType, ResourceName};
use crate::combat_core::strategy::{
    StrategicAction, StrategyDecision, first_target, get_first_target, has_left, has_left_exec, readable_for, untargeted,
};
use crate::combat_core::triggers::{TriggerInfo, TriggerResponse};

verus! {

/// Builds the strategy of a horizon walker.
pub struct PlanarWarriorStrBldr;

impl PlanarWarriorStrBldr {
    /// The strategy for participant `me`; `teams` gives the team of each participant.
    pub fn build_strategy(&self, teams: Vec<Team>, me: ParticipantId) -> (r: PlanarWarriorStr)
        ensures
            r.my_pid == me,
            r.teams@ == teams@,
    {
        PlanarWarriorStr { teams, my_pid: me }
    }
}

/// The strategy of a horizon walker: the attack action, then planar warrior with the bonus action on the first foe, then single attacks at the first foe.
#[derive(Debug)]
pub struct PlanarWarriorStr {
    pub teams: Vec<Team>,
    pub my_pid: ParticipantId,
}

impl PlanarWarriorStr {
    /// What the strategy decides in `state`.
    pub open spec fn decides(&self, state: CombatState) -> StrategyDecision {
        if has_left(state, self.my_pid, ResourceName::RAT(ResourceActionType::Action)) {
            untargeted(ActionName::AttackAction)
        } else if has_left(state, self.my_pid, ResourceName::RAT(ResourceActionType::BonusAction)) {
            StrategyDecision::MyAction(StrategicAction { action_name: ActionName::PlanarWarrior, target: first_target(self.teams@, self.my_pid, state) })
        } else if has_left(state, self.my_pid, ResourceName::RAT(ResourceActionType::SingleAttack)) {
            StrategyDecision::MyAction(StrategicAction { action_name: ActionName::PrimaryAttack(AttackType::Normal), target: first_target(self.teams@, self.my_pid, state) })
        } else {
            StrategyDecision::DoNothing
        }
    }

    /// The participant this strategy plays.
    pub fn get_my_pid(&self) -> (r: ParticipantId)
        ensures
            r == self.my_pid,
    {
        self.my_pid
    }

    /// The attack action if left; else planar warrior on the first foe if a bonus action is left; else a single attack at the first foe if one is left.
    pub fn choose_action(&self, state: &CombatState) -> (r: StrategyDecision)
        requires
            readable_for(*state, self.my_pid),
            self.my_pid.0 < self.teams@.len(),
        ensures
            r == self.decides(*state),
    {
        let me = self.get_my_pid();
        if has_left_exec(state, me, ResourceName::RAT(ResourceActionType::Action)) {
            return StrategyDecision::from(ActionName::AttackAction);
        }
        if has_left_exec(state, me, ResourceName::RAT(ResourceActionType::BonusAction)) {
            let target = get_first_target(&self.teams, me, state);
            return StrategyDecision::from(StrategicAction { action_name: ActionName::PlanarWarrior, target });
        }
        if has_left_exec(state, me, ResourceName::RAT(ResourceActionType::SingleAttack)) {
            let target = get_first_target(&self.teams, me, state);
            return StrategyDecision::from(StrategicAction { action_name: ActionName::PrimaryAttack(AttackType::Normal), target });
        }
        StrategyDecision::DoNothing
    }

    /// Never any trigger.
    pub fn choose_triggers(&self, ti: TriggerInfo, state: &CombatState) -> (r: Vec<TriggerResponse>)
        ensures
            r@.len() == 0,
    {
        Vec::new()
    }
}


} // verus!
