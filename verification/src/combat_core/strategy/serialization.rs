use vstd::prelude::*;
use crate::combat_core::participant::{ParticipantId, Team};
use crate::combat_core::strategy::action_surge_str::ActionSurgeStr;
use crate::combat_core::strategy::basic_strategies::{DoNothing, RemoveConditions};
use crate::combat_core::strategy::gwm_str::GWMStr;
use crate::combat_core::strategy::linear_str::{LinearStrategy, NamedStrategy};
use crate::combat_core::strategy::planar_warrior_str::PlanarWarriorStr;
use crate::combat_core::strategy::second_wind_str::SecondWindStr;
use crate::combat_core::strategy::sharp_shooter_str::SharpShooterStr;
use crate::combat_core::strategy::sneak_atk_str::SneakAttackStr;
use crate::combat_core::strategy::strategy_impls::{BasicAttackStr, DualWieldStr};
use crate::combat_core::triggers::TriggerResponse;
use crate::seq_facts::copy_vec;

verus! {

/// The name of a strategy builder, as written in a description.
#[derive(Debug, Clone, Copy, PartialEq, Eq, Structural)]
pub enum StrategyBuilderName {
    ActionSurgeSB,
    BasicAtkSB,
    DoNothingSB,
    RemoveCondSB,
    DualWieldSB,
    FavoredFoeSB,
    FireBallSB,
    FireBoltSB,
    GreaterInvisSB,
    GreatWeaponMasterSB(bool),
    SharpShooterSB(bool),
    HasteSB,
    PlanarWarriorSB,
    SecondWindSB,
    ShieldMasterSB,
    SneakAttackSB(bool),
}

/// A description of a strategy: one builder, or a list of builders tried in order.
#[derive(Debug, Clone)]
pub enum StrategyBuilderDescription {
    Basic(StrategyBuilderName),
    List(Vec<StrategyBuilderName>),
}

/// Whether this library has the strategy that the name describes (a sneak
/// attack strategy also needs the participant's sneak attack response).
pub open spec fn buildable(n: StrategyBuilderName, has_response: bool) -> bool {
    match n {
        StrategyBuilderName::FavoredFoeSB => false,
        StrategyBuilderName::FireBallSB => false,
        StrategyBuilderName::FireBoltSB => false,
        StrategyBuilderName::GreaterInvisSB => false,
        StrategyBuilderName::HasteSB => false,
        StrategyBuilderName::ShieldMasterSB => false,
        StrategyBuilderName::SneakAttackSB(_) => has_response,
        _ => true,
    }
}

/// The strategy that a name builds, described by its kind and its settings.
pub open spec fn builds(n: StrategyBuilderName, s: NamedStrategy, teams: Seq<Team>, me: ParticipantId, has_offhand_attack: bool) -> bool {
    match n {
        StrategyBuilderName::ActionSurgeSB => s matches NamedStrategy::ActionSurge(x) && x.my_pid == me,
        StrategyBuilderName::BasicAtkSB => s matches NamedStrategy::BasicAtk(x) && x.my_pid == me && x.teams@ == teams,
        StrategyBuilderName::DoNothingSB => s is DoNothing,
        StrategyBuilderName::RemoveCondSB => s matches NamedStrategy::RemoveCond(x) && x.my_pid == me,
        StrategyBuilderName::DualWieldSB => s matches NamedStrategy::DualWield(x) && x.my_pid == me && x.teams@ == teams,
        StrategyBuilderName::GreatWeaponMasterSB(g) => s matches NamedStrategy::GreatWeaponMaster(x) && x.my_pid == me
            && x.teams@ == teams && x.use_gwm == g,
        StrategyBuilderName::SharpShooterSB(g) => s matches NamedStrategy::SharpShooter(x) && x.my_pid == me
            && x.teams@ == teams && x.use_ss == g,
        StrategyBuilderName::PlanarWarriorSB => s matches NamedStrategy::PlanarWarrior(x) && x.my_pid == me && x.teams@ == teams,
        StrategyBuilderName::SecondWindSB => s matches NamedStrategy::SecondWind(x) && x.my_pid == me,
        StrategyBuilderName::SneakAttackSB(g) => s matches NamedStrategy::SneakAttack(x) && x.my_pid == me
            && x.greedy == g && x.has_offhand_attack == has_offhand_attack,
        _ => false,
    }
}

impl StrategyBuilderName {
    /// The strategy of participant `me` that the name describes, if this
    /// library has it; `teams` gives each participant's team, and the sneak
    /// attack strategy uses `sneak_attack`, the participant's response.
    pub fn build_strategy(
        &self,
        teams: &Vec<Team>,
        me: ParticipantId,
        has_offhand_attack: bool,
        sneak_attack: &Option<TriggerResponse>,
    ) -> (r: Option<NamedStrategy>)
        ensures
            r is Some == buildable(*self, sneak_attack is Some),
            r matches Some(s) ==> builds(*self, s, teams@, me, has_offhand_attack),
            r matches Some(NamedStrategy::SneakAttack(x)) ==> x.response@ == sneak_attack->0@,
    {
        match self {
            StrategyBuilderName::ActionSurgeSB => Some(NamedStrategy::ActionSurge(ActionSurgeStr { my_pid: me })),
            StrategyBuilderName::BasicAtkSB => Some(NamedStrategy::BasicAtk(BasicAttackStr { teams: copy_vec(teams), my_pid: me })),
            StrategyBuilderName::DoNothingSB => Some(NamedStrategy::DoNothing(DoNothing)),
            StrategyBuilderName::RemoveCondSB => Some(NamedStrategy::RemoveCond(RemoveConditions { my_pid: me })),
            StrategyBuilderName::DualWieldSB => Some(NamedStrategy::DualWield(DualWieldStr { teams: copy_vec(teams), my_pid: me })),
            StrategyBuilderName::GreatWeaponMasterSB(g) => Some(
                NamedStrategy::GreatWeaponMaster(GWMStr { teams: copy_vec(teams), my_pid: me, use_gwm: *g }),
            ),
            StrategyBuilderName::SharpShooterSB(g) => Some(
                NamedStrategy::SharpShooter(SharpShooterStr { teams: copy_vec(teams), my_pid: me, use_ss: *g }),
            ),
            StrategyBuilderName::PlanarWarriorSB => Some(
                NamedStrategy::PlanarWarrior(PlanarWarriorStr { teams: copy_vec(teams), my_pid: me }),
            ),
            StrategyBuilderName::SecondWindSB => Some(NamedStrategy::SecondWind(SecondWindStr { my_pid: me })),
            StrategyBuilderName::SneakAttackSB(g) => match sneak_attack {
                Some(resp) => Some(
                    NamedStrategy::SneakAttack(
                        SneakAttackStr { my_pid: me, greedy: *g, has_offhand_attack, response: resp.duplicate() },
                    ),
                ),
                None => None,
            },
            _ => None,
        }
    }
}

impl StrategyBuilderDescription {
    /// The strategies of participant `me` that the description lists, in
    /// order (a single builder gives a list of one), if this library has
    /// every one of them.
    pub fn build_strategy(
        &self,
        teams: &Vec<Team>,
        me: ParticipantId,
        has_offhand_attack: bool,
        sneak_attack: &Option<TriggerResponse>,
    ) -> (r: Option<LinearStrategy>)
        ensures
            r is Some == match self {
                StrategyBuilderDescription::Basic(n) => buildable(*n, sneak_attack is Some),
                StrategyBuilderDescription::List(ns) => forall|i: int| 0 <= i < ns@.len() ==> buildable(#[trigger] ns@[i], sneak_attack is Some),
            },
            r matches Some(ls) ==> match self {
                StrategyBuilderDescription::Basic(n) => ls.strategies@.len() == 1
                    && builds(*n, ls.strategies@[0], teams@, me, has_offhand_attack),
                StrategyBuilderDescription::List(ns) => ls.strategies@.len() == ns@.len()
                    && forall|i: int| 0 <= i < ns@.len() ==> builds(#[trigger] ns@[i], ls.strategies@[i], teams@, me, has_offhand_attack),
            },
    {
        match self {
            StrategyBuilderDescription::Basic(sbn) => {
                match sbn.build_strategy(teams, me, has_offhand_attack, sneak_attack) {
                    Some(s) => {
                        let mut v: Vec<NamedStrategy> = Vec::new();
                        v.push(s);
                        Some(LinearStrategy::new(v))
                    },
                    None => None,
                }
            },
            StrategyBuilderDescription::List(sbns) => {
                let mut strategies: Vec<NamedStrategy> = Vec::with_capacity(sbns.len());
                let n = sbns.len();
                let mut i: usize = 0;
                while i < n
                    invariant
                        n == sbns@.len(),
                        i <= n,
                        *self matches StrategyBuilderDescription::List(ns) && ns@ == sbns@,
                        strategies@.len() == i,
                        forall|k: int| 0 <= k < i ==> buildable(#[trigger] sbns@[k], sneak_attack is Some),
                        forall|k: int| 0 <= k < i ==> builds(#[trigger] sbns@[k], strategies@[k], teams@, me, has_offhand_attack),
                    decreases n - i,
                {
                    match sbns[i].build_strategy(teams, me, has_offhand_attack, sneak_attack) {
                        Some(s) => strategies.push(s),
                        None => {
                            assert(!buildable(sbns@[i as int], sneak_attack is Some));
                            assert(!(forall|k: int| 0 <= k < sbns@.len() ==> buildable(#[trigger] sbns@[k], sneak_attack is Some)));
                            return None;
                        },
                    }
                    i = i + 1;
                }
                Some(LinearStrategy::new(strategies))
            },
        }
    }
}

} // verus!
