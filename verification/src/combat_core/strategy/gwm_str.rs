use vstd::prelude::*;
use crate::combat_core::actions::{ActionName, AttackType};
use crate::combat_core::combat_state::CombatState;
use crate::combat_core::participant::{ParticipantId, Team};
use crate::combat_core::resources::{ResourceActionType, ResourceName};
use crate::combat_core::strategy::{
    StrategicAction, StrategyDecision, first_target, get_first_target, has_left, has_left_exec, readable_for, untargeted,
};
use crate::combat_core::triggers::{TriggerInfo, TriggerResponse};

verus! {

/// Builds the strategy of a great weapon master.
pub struct GWMStrBldr {
    pub use_gwm: bool,
}

impl GWMStrBldr {
    /// A builder whose strategy uses the great weapon master attack when `use_gwm`.
    pub fn new(use_gwm: bool) -> (r: Self)
        ensures
            r.use_gwm == use_gwm,
    {
        GWMStrBldr { use_gwm }
    }

    /// The strategy for participant `me`; `teams` gives the team of each participant.
    pub fn build_strategy(&self, teams: Vec<Team>, me: ParticipantId) -> (r: GWMStr)
        ensures
            r.my_pid == me,
            r.teams@ == teams@,
            r.use_gwm == self.use_gwm,
    {
        GWMStr { teams, my_pid: me, use_gwm: self.use_gwm }
    }
}

/// The strategy of a great weapon master: the attack action, then the bonus great weapon master attack, then single attacks at the first foe (with the great weapon master penalty and bonus when `use_gwm`).
#[derive(Debug)]
pub struct GWMStr {
    pub teams: Vec<Team>,
    pub my_pid: ParticipantId,
    pub use_gwm: bool,
}

impl GWMStr {
    /// What the strategy decides in `state`.
    pub open spec fn decides(&self, state: CombatState) -> StrategyDecision {
        if has_left(state, self.my_pid, ResourceName::RAT(ResourceActionType::Action)) {
            untargeted(ActionName::AttackAction)
        } else if has_left(state, self.my_pid, ResourceName::AN(ActionName::BonusGWMAttack)) && has_left(state, self.my_pid, ResourceName::RAT(ResourceActionType::BonusAction)) {
            untargeted(ActionName::BonusGWMAttack)
        } else if has_left(state, self.my_pid, ResourceName::RAT(ResourceActionType::SingleAttack)) {
            StrategyDecision::MyAction(StrategicAction {
                action_name: ActionName::PrimaryAttack(if self.use_gwm { AttackType::GWMAttack } else { AttackType::Normal }),
                target: first_target(self.teams@, self.my_pid, state),
            })
        } else {
            StrategyDecision::DoNothing
        }
    }

    /// The participant this strategy plays.
    pub fn get_my_pid(&self) -> (r: ParticipantId)
        ensures
            r == self.my_pid,
    {
        self.my_pid
    }

    /// The attack action if left; else the bonus attack of a great weapon master if it and a bonus action are left; else a single attack at the first foe if one is left.
    pub fn choose_action(&self, state: &CombatState) -> (r: StrategyDecision)
        requires
            readable_for(*state, self.my_pid),
            self.my_pid.0 < self.teams@.len(),
        ensures
            r == self.decides(*state),
    {
        let me = self.get_my_pid();
        if has_left_exec(state, me, ResourceName::RAT(ResourceActionType::Action)) {
            return StrategyDecision::from(ActionName::AttackAction);
        }
        if has_left_exec(state, me, ResourceName::AN(ActionName::BonusGWMAttack)) && has_left_exec(state, me, ResourceName::RAT(ResourceActionType::BonusAction)) {
            return StrategyDecision::from(ActionName::BonusGWMAttack);
        }
        if has_left_exec(state, me, ResourceName::RAT(ResourceActionType::SingleAttack)) {
            let target = get_first_target(&self.teams, me, state);
            let mut at = AttackType::Normal;
            if self.use_gwm {
                at = AttackType::GWMAttack;
            }
            return StrategyDecision::from(StrategicAction::targeted(ActionName::PrimaryAttack(at), target));
        }
        StrategyDecision::DoNothing
    }

    /// Never any trigger.
    pub fn choose_triggers(&self, ti: TriggerInfo, state: &CombatState) -> (r: Vec<TriggerResponse>)
        ensures
            r@.len() == 0,
    {
        Vec::new()
    }
}


} // verus!
