use vstd::prelude::*;
use crate::combat_core::combat_state::CombatState;
use crate::combat_core::participant::ParticipantId;
use crate::combat_core::strategy::{StrategyDecision, readable_for};
use crate::combat_core::strategy::action_surge_str::ActionSurgeStr;
use crate::combat_core::strategy::basic_strategies::{DoNothing, RemoveConditions, removal_from};
use crate::combat_core::strategy::gwm_str::GWMStr;
use crate::combat_core::strategy::planar_warrior_str::PlanarWarriorStr;
use crate::combat_core::strategy::second_wind_str::SecondWindStr;
use crate::combat_core::strategy::sharp_shooter_str::SharpShooterStr;
use crate::combat_core::strategy::sneak_atk_str::SneakAttackStr;
use crate::combat_core::strategy::strategy_impls::{BasicAttackStr, DualWieldStr};
use crate::combat_core::triggers::{TriggerInfo, TriggerResponse, TriggerResponseView};

verus! {

/// One of the strategies of the library.
#[derive(Debug)]
pub enum NamedStrategy {
    ActionSurge(ActionSurgeStr),
    BasicAtk(BasicAttackStr),
    DoNothing(DoNothing),
    RemoveCond(RemoveConditions),
    DualWield(DualWieldStr),
    GreatWeaponMaster(GWMStr),
    SharpShooter(SharpShooterStr),
    PlanarWarrior(PlanarWarriorStr),
    SecondWind(SecondWindStr),
    SneakAttack(SneakAttackStr),
}

impl NamedStrategy {
    /// The strategy can decide in `state`: the state can be read for its
    /// participant, who has a team.
    pub open spec fn ready(&self, state: CombatState) -> bool {
        match self {
            NamedStrategy::ActionSurge(s) => readable_for(state, s.my_pid),
            NamedStrategy::BasicAtk(s) => readable_for(state, s.my_pid) && s.my_pid.0 < s.teams@.len(),
            NamedStrategy::DoNothing(_) => true,
            NamedStrategy::RemoveCond(s) => state.wf() && s.my_pid.0 < state.cms().len(),
            NamedStrategy::DualWield(s) => readable_for(state, s.my_pid) && s.my_pid.0 < s.teams@.len(),
            NamedStrategy::GreatWeaponMaster(s) => readable_for(state, s.my_pid) && s.my_pid.0 < s.teams@.len(),
            NamedStrategy::SharpShooter(s) => readable_for(state, s.my_pid) && s.my_pid.0 < s.teams@.len(),
            NamedStrategy::PlanarWarrior(s) => readable_for(state, s.my_pid) && s.my_pid.0 < s.teams@.len(),
            NamedStrategy::SecondWind(s) => readable_for(state, s.my_pid),
            NamedStrategy::SneakAttack(s) => readable_for(state, s.my_pid),
        }
    }

    /// What the strategy decides in `state`.
    pub open spec fn decides(&self, state: CombatState) -> StrategyDecision {
        match self {
            NamedStrategy::ActionSurge(s) => s.decides(state),
            NamedStrategy::BasicAtk(s) => s.decides(state),
            NamedStrategy::DoNothing(_) => StrategyDecision::DoNothing,
            NamedStrategy::RemoveCond(s) => removal_from(state.cms()[s.my_pid.0 as int]@, 0),
            NamedStrategy::DualWield(s) => s.decides(state),
            NamedStrategy::GreatWeaponMaster(s) => s.decides(state),
            NamedStrategy::SharpShooter(s) => s.decides(state),
            NamedStrategy::PlanarWarrior(s) => s.decides(state),
            NamedStrategy::SecondWind(s) => s.decides(state),
            NamedStrategy::SneakAttack(_) => StrategyDecision::DoNothing,
        }
    }

    /// The triggers the strategy fires on `ti` in `state`.
    pub open spec fn fires(&self, ti: TriggerInfo, state: CombatState) -> Seq<TriggerResponseView> {
        match self {
            NamedStrategy::SneakAttack(s) => s.fires(ti, state),
            _ => Seq::empty(),
        }
    }

    /// The decision of the strategy.
    pub fn choose_action(&self, state: &CombatState) -> (r: StrategyDecision)
        requires
            self.ready(*state),
        ensures
            r == self.decides(*state),
    {
        match self {
            NamedStrategy::ActionSurge(s) => s.choose_action(state),
            NamedStrategy::BasicAtk(s) => s.choose_action(state),
            NamedStrategy::DoNothing(s) => s.choose_action(state),
            NamedStrategy::RemoveCond(s) => s.choose_action(state),
            NamedStrategy::DualWield(s) => s.choose_action(state),
            NamedStrategy::GreatWeaponMaster(s) => s.choose_action(state),
            NamedStrategy::SharpShooter(s) => s.choose_action(state),
            NamedStrategy::PlanarWarrior(s) => s.choose_action(state),
            NamedStrategy::SecondWind(s) => s.choose_action(state),
            NamedStrategy::SneakAttack(s) => s.choose_action(state),
        }
    }

    /// The triggers the strategy fires.
    pub fn choose_triggers(&self, ti: TriggerInfo, state: &CombatState) -> (r: Vec<TriggerResponse>)
        requires
            self.ready(*state),
        ensures
            r@.map_values(|x: TriggerResponse| x@) == self.fires(ti, *state),
    {
        let r = match self {
            NamedStrategy::SneakAttack(s) => s.choose_triggers(ti, state),
            NamedStrategy::ActionSurge(s) => s.choose_triggers(ti, state),
            NamedStrategy::BasicAtk(s) => s.choose_triggers(ti, state),
            NamedStrategy::DoNothing(s) => s.choose_triggers(ti, state),
            NamedStrategy::RemoveCond(s) => s.choose_triggers(ti, state),
            NamedStrategy::DualWield(s) => s.choose_triggers(ti, state),
            NamedStrategy::GreatWeaponMaster(s) => s.choose_triggers(ti, state),
            NamedStrategy::SharpShooter(s) => s.choose_triggers(ti, state),
            NamedStrategy::PlanarWarrior(s) => s.choose_triggers(ti, state),
            NamedStrategy::SecondWind(s) => s.choose_triggers(ti, state),
        };
        assert(r@.map_values(|x: TriggerResponse| x@) =~= self.fires(ti, *state));
        r
    }
}

/// The first decision, from position `i` on, that is to do something.
pub open spec fn first_decision(ss: Seq<NamedStrategy>, state: CombatState, i: int) -> StrategyDecision
    decreases ss.len() - i,
{
    if i < 0 || i >= ss.len() {
        StrategyDecision::DoNothing
    } else if !(ss[i].decides(state) is DoNothing) {
        ss[i].decides(state)
    } else {
        first_decision(ss, state, i + 1)
    }
}

/// The triggers fired by the first `k` strategies, one after the other.
pub open spec fn fired_upto(ss: Seq<NamedStrategy>, ti: TriggerInfo, state: CombatState, k: int) -> Seq<TriggerResponseView>
    decreases k,
{
    if k <= 0 {
        Seq::empty()
    } else {
        fired_upto(ss, ti, state, k - 1) + ss[k - 1].fires(ti, state)
    }
}

/// Strategies tried in order: the first that decides to do something wins;
/// every one of them may fire triggers.
#[derive(Debug)]
pub struct LinearStrategy {
    pub strategies: Vec<NamedStrategy>,
}

impl LinearStrategy {
    /// The strategies, in order.
    pub fn new(strategies: Vec<NamedStrategy>) -> (r: Self)
        ensures
            r.strategies@ == strategies@,
    {
        LinearStrategy { strategies }
    }

    /// The first decision, in order, that is to do something; else nothing.
    pub fn choose_action(&self, state: &CombatState) -> (r: StrategyDecision)
        requires
            forall|i: int| 0 <= i < self.strategies@.len() ==> (#[trigger] self.strategies@[i]).ready(*state),
        ensures
            r == first_decision(self.strategies@, *state, 0),
    {
        let n = self.strategies.len();
        let mut i: usize = 0;
        while i < n
            invariant
                n == self.strategies@.len(),
                i <= n,
                forall|k: int| 0 <= k < self.strategies@.len() ==> (#[trigger] self.strategies@[k]).ready(*state),
                first_decision(self.strategies@, *state, 0) == first_decision(self.strategies@, *state, i as int),
            decreases n - i,
        {
            let sd = self.strategies[i].choose_action(state);
            if sd.is_some() {
                return sd;
            }
            i = i + 1;
        }
        StrategyDecision::DoNothing
    }

    /// The triggers of every strategy, in order.
    pub fn choose_triggers(&self, ti: TriggerInfo, state: &CombatState) -> (r: Vec<TriggerResponse>)
        requires
            forall|i: int| 0 <= i < self.strategies@.len() ==> (#[trigger] self.strategies@[i]).ready(*state),
        ensures
            r@.map_values(|x: TriggerResponse| x@) == fired_upto(self.strategies@, ti, *state, self.strategies@.len() as int),
    {
        let mut v: Vec<TriggerResponse> = Vec::new();
        let n = self.strategies.len();
        let mut i: usize = 0;
        while i < n
            invariant
                n == self.strategies@.len(),
                i <= n,
                forall|k: int| 0 <= k < self.strategies@.len() ==> (#[trigger] self.strategies@[k]).ready(*state),
                v@.map_values(|x: TriggerResponse| x@) == fired_upto(self.strategies@, ti, *state, i as int),
            decreases n - i,
        {
            let mut sub_v = self.strategies[i].choose_triggers(ti, state);
            let ghost before = v@;
            let ghost sub = sub_v@;
            v.append(&mut sub_v);
            assert(v@ == before + sub);
            assert(v@.map_values(|x: TriggerResponse| x@) =~= before.map_values(|x: TriggerResponse| x@) + sub.map_values(|x: TriggerResponse| x@));
            i = i + 1;
        }
        v
    }
}

/// A list of strategies decides what its first strategy that does something
/// decides: nothing exactly when every strategy does nothing, else the
/// decision of some strategy all of whose predecessors do nothing.
pub proof fn lemma_linear_picks_first(ss: Seq<NamedStrategy>, state: CombatState)
    ensures
        (first_decision(ss, state, 0) is DoNothing)
            <==> (forall|i: int| 0 <= i < ss.len() ==> (#[trigger] ss[i].decides(state)) is DoNothing),
        !(first_decision(ss, state, 0) is DoNothing) ==> exists|i: int| {
            &&& 0 <= i < ss.len()
            &&& first_decision(ss, state, 0) == #[trigger] ss[i].decides(state)
            &&& forall|j: int| 0 <= j < i ==> (#[trigger] ss[j].decides(state)) is DoNothing
        },
{
    lemma_picks_first_from(ss, state, 0);
}

proof fn lemma_picks_first_from(ss: Seq<NamedStrategy>, state: CombatState, k: int)
    requires
        0 <= k <= ss.len(),
    ensures
        (first_decision(ss, state, k) is DoNothing)
            <==> (forall|i: int| k <= i < ss.len() ==> (#[trigger] ss[i].decides(state)) is DoNothing),
        !(first_decision(ss, state, k) is DoNothing) ==> exists|i: int| {
            &&& k <= i < ss.len()
            &&& first_decision(ss, state, k) == #[trigger] ss[i].decides(state)
            &&& forall|j: int| k <= j < i ==> (#[trigger] ss[j].decides(state)) is DoNothing
        },
    decreases ss.len() - k,
{
    if k < ss.len() {
        lemma_picks_first_from(ss, state, k + 1);
        if !(ss[k].decides(state) is DoNothing) {
            assert(first_decision(ss, state, k) == ss[k].decides(state));
        } else {
            if !(first_decision(ss, state, k) is DoNothing) {
                let i = choose|i: int| {
                    &&& k + 1 <= i < ss.len()
                    &&& first_decision(ss, state, k + 1) == #[trigger] ss[i].decides(state)
                    &&& forall|j: int| k + 1 <= j < i ==> (#[trigger] ss[j].decides(state)) is DoNothing
                };
                assert(forall|j: int| k <= j < i ==> (#[trigger] ss[j].decides(state)) is DoNothing);
            }
        }
    }
}

} // verus!
