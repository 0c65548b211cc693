use vstd::prelude::*;
use crate::combat_core::BinaryOutcome;
use crate::combat_core::ability_scores::Ability;
use crate::combat_core::actions::ActionName;
use crate::combat_core::attack::AttackResult;
use crate::combat_core::conditions::ConditionName;
use crate::combat_core::health::Health;
use crate::combat_core::participant::ParticipantId;
use crate::combat_core::resources::RefreshTiming;
use crate::combat_core::skills::{ContestResult, SkillName};

verus! {

/// The number of a combat round.
#[derive(Debug, Clone, Copy, PartialEq, Eq, Structural, Hash, PartialOrd, Ord)]
pub struct RoundId(pub u8);

impl From<u8> for RoundId {
    fn from(value: u8) -> (r: Self) {
        RoundId(value)
    }
}

impl vstd::std_specs::convert::FromSpecImpl<u8> for RoundId {
    open spec fn obeys_from_spec() -> bool {
        true
    }

    open spec fn from_spec(v: u8) -> RoundId {
        RoundId(v)
    }
}

/// A point in the course of an encounter.
#[derive(Debug, Clone, Copy, PartialEq, Eq, Structural, Hash, PartialOrd, Ord)]
pub enum CombatTiming {
    EncounterBegin,
    EncounterEnd,
    BeginRound(RoundId),
    EndRound(RoundId),
    BeginTurn(ParticipantId),
    EndTurn(ParticipantId),
}

/// The refresh timing that a point of the encounter means for participant `pid`.
pub open spec fn refresh_timing_for(t: CombatTiming, pid: ParticipantId) -> Option<RefreshTiming> {
    match t {
        CombatTiming::EncounterBegin => None,
        CombatTiming::EncounterEnd => None,
        CombatTiming::BeginRound(_) => Some(RefreshTiming::StartRound),
        CombatTiming::EndRound(_) => Some(RefreshTiming::EndRound),
        CombatTiming::BeginTurn(t_pid) => if pid == t_pid { Some(RefreshTiming::StartMyTurn) } else { Some(RefreshTiming::StartOtherTurn) },
        CombatTiming::EndTurn(t_pid) => if pid == t_pid { Some(RefreshTiming::EndMyTurn) } else { Some(RefreshTiming::EndOtherTurn) },
    }
}

/// An id with the placeholder `ParticipantId::me()` replaced by `pid`.
pub open spec fn register_id(old_pid: ParticipantId, pid: ParticipantId) -> ParticipantId {
    if old_pid == ParticipantId(usize::MAX) { pid } else { old_pid }
}

/// A timing whose turn of the placeholder participant becomes a turn of `pid`.
pub open spec fn register_timing(t: CombatTiming, pid: ParticipantId) -> CombatTiming {
    match t {
        CombatTiming::BeginTurn(p) => CombatTiming::BeginTurn(register_id(p, pid)),
        CombatTiming::EndTurn(p) => CombatTiming::EndTurn(register_id(p, pid)),
        other => other,
    }
}

impl CombatTiming {
    /// The refresh timing that this point of the encounter means for
    /// participant `pid`: none at the encounter's start and end, the round's
    /// start or end, and the start or end of their own or another's turn.
    pub fn get_refresh_timing(&self, pid: ParticipantId) -> (r: Option<RefreshTiming>)
        ensures
            r == refresh_timing_for(*self, pid),
    {
        match self {
            CombatTiming::EncounterBegin => None,
            CombatTiming::EncounterEnd => None,
            CombatTiming::BeginRound(_) => Some(RefreshTiming::StartRound),
            CombatTiming::EndRound(_) => Some(RefreshTiming::EndRound),
            CombatTiming::BeginTurn(t_pid) => {
                if pid == *t_pid {
                    Some(RefreshTiming::StartMyTurn)
                } else {
                    Some(RefreshTiming::StartOtherTurn)
                }
            },
            CombatTiming::EndTurn(t_pid) => {
                if pid == *t_pid {
                    Some(RefreshTiming::EndMyTurn)
                } else {
                    Some(RefreshTiming::EndOtherTurn)
                }
            },
        }
    }

    /// Replaces the placeholder participant of a turn timing by `pid`.
    pub fn register_pid(&mut self, pid: ParticipantId)
        ensures
            *final(self) == register_timing(*old(self), pid),
    {
        let me = ParticipantId::me();
        match *self {
            CombatTiming::BeginTurn(old_pid) => {
                if old_pid == me {
                    *self = CombatTiming::BeginTurn(ParticipantId(pid.0));
                }
            },
            CombatTiming::EndTurn(old_pid) => {
                if old_pid == me {
                    *self = CombatTiming::EndTurn(ParticipantId(pid.0));
                }
            },
            _ => {},
        }
    }
}

/// An event recorded in a combat log.
#[derive(Debug, Clone, Copy, PartialEq, Eq, Structural, PartialOrd, Ord)]
pub enum CombatEvent {
    Timing(CombatTiming),
    AN(ActionName),
    Attack(ParticipantId, ParticipantId),
    AR(AttackResult),
    HP(ParticipantId, Health),
    ApplyCond(ConditionName, ParticipantId),
    RemoveCond(ConditionName, ParticipantId),
    SkillContest(ParticipantId, SkillName, ParticipantId, SkillName),
    SkCR(ContestResult),
    ForceSave(ParticipantId, ParticipantId, Ability),
    SaveResult(BinaryOutcome),
}

impl From<AttackResult> for CombatEvent {
    fn from(value: AttackResult) -> (r: Self) {
        CombatEvent::AR(value)
    }
}

impl vstd::std_specs::convert::FromSpecImpl<AttackResult> for CombatEvent {
    open spec fn obeys_from_spec() -> bool {
        true
    }

    open spec fn from_spec(v: AttackResult) -> CombatEvent {
        CombatEvent::AR(v)
    }
}

impl From<CombatTiming> for CombatEvent {
    fn from(value: CombatTiming) -> (r: Self) {
        CombatEvent::Timing(value)
    }
}

impl vstd::std_specs::convert::FromSpecImpl<CombatTiming> for CombatEvent {
    open spec fn obeys_from_spec() -> bool {
        true
    }

    open spec fn from_spec(v: CombatTiming) -> CombatEvent {
        CombatEvent::Timing(v)
    }
}

impl From<ActionName> for CombatEvent {
    fn from(value: ActionName) -> (r: Self) {
        CombatEvent::AN(value)
    }
}

impl vstd::std_specs::convert::FromSpecImpl<ActionName> for CombatEvent {
    open spec fn obeys_from_spec() -> bool {
        true
    }

    open spec fn from_spec(v: ActionName) -> CombatEvent {
        CombatEvent::AN(v)
    }
}

/// Registering an id twice changes nothing more than registering it once.
pub proof fn lemma_register_timing_idempotent(t: CombatTiming, pid: ParticipantId)
    ensures
        register_timing(register_timing(t, pid), pid) == register_timing(t, pid),
{
}

} // verus!
