pub mod action_surge_str;
pub mod basic_strategies;
pub mod gwm_str;
pub mod linear_str;
pub mod planar_warrior_str;
pub mod second_wind_str;
pub mod serialization;
pub mod sharp_shooter_str;
pub mod sneak_atk_str;
pub mod strategy_impls;

use vstd::prelude::*;
use crate::combat_core::actions::{ActionName, ActionType};
use crate::combat_core::combat_state::CombatState;
use crate::combat_core::conditions::ConditionName;
use crate::combat_core::movement::Square;
use crate::combat_core::participant::{ParticipantId, Team};
use crate::combat_core::resources::{ResourceManager, ResourceName, has_use, totals_fit};

verus! {

/// What an action is aimed at.
#[derive(Debug, Clone, Copy, PartialEq, Eq, Structural, PartialOrd, Ord)]
pub enum Target {
    Participant(ParticipantId),
    Tile(Square, Square),
}

/// An action that a strategy chooses, and its target if it has one.
#[derive(Debug, Clone, Copy, PartialEq, Eq, Structural, PartialOrd, Ord)]
pub struct StrategicAction {
    pub action_name: ActionName,
    pub target: Option<Target>,
}

impl StrategicAction {
    /// The action `action_name` aimed at `target`.
    pub fn targeted(action_name: ActionName, target: Option<Target>) -> (r: Self)
        ensures
            r == (StrategicAction { action_name, target }),
    {
        StrategicAction { action_name, target }
    }
}

impl From<ActionName> for StrategicAction {
    fn from(value: ActionName) -> (r: Self) {
        StrategicAction { action_name: value, target: None }
    }
}

impl vstd::std_specs::convert::FromSpecImpl<ActionName> for StrategicAction {
    open spec fn obeys_from_spec() -> bool {
        true
    }

    open spec fn from_spec(v: ActionName) -> StrategicAction {
        StrategicAction { action_name: v, target: None }
    }
}

/// What a strategy decides to do on its turn.
#[derive(Debug, Clone, Copy, PartialEq, Eq, Structural, PartialOrd, Ord)]
pub enum StrategyDecision {
    DoNothing,
    MyAction(StrategicAction),
    // a condition that ends when an action type is spent: the strategy
    // spends it to remove the condition.
    RemoveCondition(ConditionName, ActionType),
}

/// The decision to take the named action, with no target.
pub open spec fn untargeted(an: ActionName) -> StrategyDecision {
    StrategyDecision::MyAction(StrategicAction { action_name: an, target: None })
}

impl StrategyDecision {
    /// Whether the decision is to do something.
    pub fn is_some(&self) -> (r: bool)
        ensures
            r == !(*self is DoNothing),
    {
        !self.is_none()
    }

    /// Whether the decision is to do nothing.
    pub fn is_none(&self) -> (r: bool)
        ensures
            r == (*self is DoNothing),
    {
        *self == StrategyDecision::DoNothing
    }
}

impl From<StrategicAction> for StrategyDecision {
    fn from(value: StrategicAction) -> (r: Self) {
        StrategyDecision::MyAction(value)
    }
}

impl vstd::std_specs::convert::FromSpecImpl<StrategicAction> for StrategyDecision {
    open spec fn obeys_from_spec() -> bool {
        true
    }

    open spec fn from_spec(v: StrategicAction) -> StrategyDecision {
        StrategyDecision::MyAction(v)
    }
}

impl From<Option<StrategicAction>> for StrategyDecision {
    fn from(value: Option<StrategicAction>) -> (r: Self) {
        match value {
            Some(sa) => StrategyDecision::MyAction(sa),
            None => StrategyDecision::DoNothing,
        }
    }
}

impl vstd::std_specs::convert::FromSpecImpl<Option<StrategicAction>> for StrategyDecision {
    open spec fn obeys_from_spec() -> bool {
        true
    }

    open spec fn from_spec(v: Option<StrategicAction>) -> StrategyDecision {
        match v {
            Some(sa) => StrategyDecision::MyAction(sa),
            None => StrategyDecision::DoNothing,
        }
    }
}

impl From<ActionName> for StrategyDecision {
    fn from(value: ActionName) -> (r: Self) {
        StrategyDecision::MyAction(StrategicAction::from(value))
    }
}

impl vstd::std_specs::convert::FromSpecImpl<ActionName> for StrategyDecision {
    open spec fn obeys_from_spec() -> bool {
        true
    }

    open spec fn from_spec(v: ActionName) -> StrategyDecision {
        untargeted(v)
    }
}

/// The state can be read for participant `me`: it is well formed, `me` is
/// one of its participants and every total amount of their resources fits.
pub open spec fn readable_for(state: CombatState, me: ParticipantId) -> bool {
    &&& state.wf()
    &&& me.0 < state.rms().len()
    &&& totals_fit(state.rms()[me.0 as int]@)
}

/// Participant `me` holds at least one use of the resource.
pub open spec fn has_left(state: CombatState, me: ParticipantId, rn: ResourceName) -> bool {
    has_use(state.rms()[me.0 as int]@, rn)
}

/// Whether participant `me` holds at least one use of the resource.
pub fn has_left_exec(state: &CombatState, me: ParticipantId, rn: ResourceName) -> (r: bool)
    requires
        readable_for(*state, me),
    ensures
        r == has_left(*state, me, rn),
{
    let rm: &ResourceManager = state.get_rm(me);
    proof {
        assert(crate::combat_core::resources::current_defined(rm@, rn));
    }
    rm.get_current(rn).gt_num(0)
}

/// The first participant, from `i` on, who is on another team than `my_team`
/// and not dead.
pub open spec fn first_foe_from(teams: Seq<Team>, my_team: Team, dead: Set<ParticipantId>, i: int) -> Option<int>
    decreases teams.len() - i,
{
    if i < 0 || i >= teams.len() {
        None
    } else if teams[i] != my_team && !dead.contains(ParticipantId(i as usize)) {
        Some(i)
    } else {
        first_foe_from(teams, my_team, dead, i + 1)
    }
}

/// The first living participant of another team than `me`'s, as a target.
pub open spec fn first_target(teams: Seq<Team>, me: ParticipantId, state: CombatState) -> Option<Target> {
    match first_foe_from(teams, teams[me.0 as int], state.dead(), 0) {
        Some(i) => Some(Target::Participant(ParticipantId(i as usize))),
        None => None,
    }
}

/// The first living participant, in initiative order, of another team than
/// `me`'s (`teams` gives each participant's team), as a target.
pub fn get_first_target(teams: &Vec<Team>, me: ParticipantId, state: &CombatState) -> (r: Option<Target>)
    requires
        me.0 < teams@.len(),
    ensures
        r == first_target(teams@, me, *state),
{
    let my_team = teams[me.0];
    let n = teams.len();
    let mut i: usize = 0;
    while i < n
        invariant
            n == teams@.len(),
            i <= n,
            my_team == teams@[me.0 as int],
            first_foe_from(teams@, my_team, state.dead(), 0) == first_foe_from(teams@, my_team, state.dead(), i as int),
        decreases n - i,
    {
        let pid = ParticipantId(i);
        if teams[i] != my_team && state.is_alive(pid) {
            return Some(Target::Participant(pid));
        }
        i = i + 1;
    }
    None
}

} // verus!
