use vstd::prelude::*;
use crate::combat_core::attack::AttackResult;
use crate::combat_core::combat_state::CombatState;
use crate::combat_core::participant::ParticipantId;
use crate::combat_core::resources::{ResourceActionType, ResourceName};
use crate::combat_core::strategy::{StrategyDecision, has_left, has_left_exec, readable_for};
use crate::combat_core::triggers::{
    TriggerContext, TriggerInfo, TriggerName, TriggerResponse, TriggerResponseView, TriggerType,
};

verus! {

/// Builds the strategy that decides when to use sneak attack.
pub struct SneakAttackStrBuilder {
    pub greedy: bool,
}

impl SneakAttackStrBuilder {
    /// A builder whose strategy, when `greedy`, keeps sneak attack for a
    /// critical hit while attacks are left.
    pub fn new(greedy: bool) -> (r: Self)
        ensures
            r.greedy == greedy,
    {
        SneakAttackStrBuilder { greedy }
    }

    /// The strategy for participant `me`, who has an off-hand attack when
    /// `has_offhand_attack`, and whose sneak attack responds with `response`.
    pub fn build_strategy(&self, me: ParticipantId, has_offhand_attack: bool, response: TriggerResponse) -> (r: SneakAttackStr)
        ensures
            r.my_pid == me,
            r.greedy == self.greedy,
            r.has_offhand_attack == has_offhand_attack,
            r.response@ == response@,
    {
        SneakAttackStr { my_pid: me, greedy: self.greedy, has_offhand_attack, response }
    }
}

/// The strategy that decides when to use sneak attack on a successful attack.
#[derive(Debug)]
pub struct SneakAttackStr {
    pub my_pid: ParticipantId,
    pub greedy: bool,
    pub has_offhand_attack: bool,
    pub response: TriggerResponse,
}

impl SneakAttackStr {
    /// The triggers the strategy fires on event `ti` in `state`: after a
    /// successful attack, with sneak attack left, sneak attack; but a greedy
    /// strategy with attacks still left keeps it for a critical hit.
    pub open spec fn fires(&self, ti: TriggerInfo, state: CombatState) -> Seq<TriggerResponseView> {
        let me = self.my_pid;
        if ti.tt == TriggerType::SuccessfulAttack && has_left(state, me, ResourceName::TN(TriggerName::SneakAttack)) {
            let any_atk_remaining = has_left(state, me, ResourceName::RAT(ResourceActionType::Action))
                || has_left(state, me, ResourceName::RAT(ResourceActionType::SingleAttack))
                || (has_left(state, me, ResourceName::RAT(ResourceActionType::BonusAction)) && self.has_offhand_attack);
            if self.greedy && any_atk_remaining {
                if ti.tc == TriggerContext::AR(AttackResult::Crit) {
                    seq![self.response@]
                } else {
                    Seq::empty()
                }
            } else {
                seq![self.response@]
            }
        } else {
            Seq::empty()
        }
    }

    /// The participant this strategy plays.
    pub fn get_my_pid(&self) -> (r: ParticipantId)
        ensures
            r == self.my_pid,
    {
        self.my_pid
    }

    /// Never an action of its own.
    pub fn choose_action(&self, state: &CombatState) -> (r: StrategyDecision)
        ensures
            r == StrategyDecision::DoNothing,
    {
        StrategyDecision::DoNothing
    }

    /// Sneak attack after a successful attack, as `fires` says.
    pub fn choose_triggers(&self, ti: TriggerInfo, state: &CombatState) -> (r: Vec<TriggerResponse>)
        requires
            readable_for(*state, self.my_pid),
        ensures
            r@.map_values(|x: TriggerResponse| x@) == self.fires(ti, *state),
    {
        let mut v: Vec<TriggerResponse> = Vec::new();
        let me = self.my_pid;
        if ti.tt == TriggerType::SuccessfulAttack {
            let has_sa = has_left_exec(state, me, ResourceName::TN(TriggerName::SneakAttack));
            if has_sa {
                let has_action = has_left_exec(state, me, ResourceName::RAT(ResourceActionType::Action));
                let has_attacks = has_left_exec(state, me, ResourceName::RAT(ResourceActionType::SingleAttack));
                let has_ba = has_left_exec(state, me, ResourceName::RAT(ResourceActionType::BonusAction));
                let any_atk_remaining = has_action || has_attacks || (has_ba && self.has_offhand_attack);
                if self.greedy && any_atk_remaining {
                    if let TriggerContext::AR(AttackResult::Crit) = ti.tc {
                        v.push(self.response.duplicate());
                    }
                } else {
                    v.push(self.response.duplicate());
                }
            }
        }
        assert(v@.map_values(|x: TriggerResponse| x@) =~= self.fires(ti, *state));
        v
    }
}

} // verus!
