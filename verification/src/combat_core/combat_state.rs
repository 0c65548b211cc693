pub mod combat_log;

use vstd::prelude::*;
use crate::combat_core::combat_event::{CombatEvent, CombatTiming};
use crate::combat_core::combat_state::combat_log::CombatLog;
use crate::combat_core::conditions::{
    ConditionLifetime, ConditionManager, ConditionManagerModel, ConditionName, index_after_lifetime,
    names_for, names_in_order, same_conditions,
};
use crate::combat_core::health::Health;
use crate::combat_core::participant::ParticipantId;
use crate::combat_core::resources::ResourceManager;

verus! {

/// Whether the conditions that end at timing `ct` are all held, so that they
/// can be removed.
pub open spec fn timing_removable(m: ConditionManagerModel, ct: CombatTiming) -> bool {
    forall|cn: ConditionName| m.index.contains((ConditionLifetime::UntilTime(ct), cn)) ==> m.conditions.contains_key(cn)
}

/// The conditions of a participant after timing `ct`: those that end then are gone.
pub open spec fn after_timing(m: ConditionManagerModel, ct: CombatTiming) -> ConditionManagerModel {
    let lt = ConditionLifetime::UntilTime(ct);
    ConditionManagerModel {
        conditions: m.conditions.remove_keys(names_for(m, lt)),
        index: index_after_lifetime(m.index, m.conditions, lt, names_for(m, lt)),
    }
}

/// The removal events of the conditions that end at `ct`, for the first `k`
/// participants in order, each in declaration order of the names.
pub open spec fn removal_events(cms: Seq<ConditionManager>, ct: CombatTiming, k: int) -> Seq<CombatEvent>
    decreases k,
{
    if k <= 0 {
        Seq::empty()
    } else {
        removal_events(cms, ct, k - 1) + names_in_order(names_for(cms[k - 1]@, ConditionLifetime::UntilTime(ct)), 4).map_values(
            |cn: ConditionName| CombatEvent::RemoveCond(cn, ParticipantId((k - 1) as usize)),
        )
    }
}

/// Whether two lists of resource managers hold the same resources, manager by manager.
pub open spec fn same_resource_managers(a: Seq<ResourceManager>, b: Seq<ResourceManager>) -> bool {
    &&& a.len() == b.len()
    &&& forall|k: int| 0 <= k < a.len() ==> (#[trigger] a[k])@ == b[k]@
}

/// Whether two lists of condition managers hold the same conditions, manager by manager.
pub open spec fn same_condition_managers(a: Seq<ConditionManager>, b: Seq<ConditionManager>) -> bool {
    &&& a.len() == b.len()
    &&& forall|k: int| 0 <= k < a.len() ==> same_conditions((#[trigger] a[k])@, b[k]@)
}

/// Whether `b` is the same state as `a` reached another way: both logs end
/// at the same combat timing, and the resources, conditions, health, deaths
/// and last timing are all the same.
pub open spec fn transposes(a: CombatState, b: CombatState) -> bool {
    &&& a.log().last_event() matches Some(CombatEvent::Timing(_))
    &&& a.log().last_event() == b.log().last_event()
    &&& same_resource_managers(a.rms(), b.rms())
    &&& same_condition_managers(a.cms(), b.cms())
    &&& a.healths() == b.healths()
    &&& a.dead() == b.dead()
    &&& a.last_timing() == b.last_timing()
}

/// Being a transposition is symmetric and transitive: states that transpose
/// one another are interchangeable.
pub proof fn lemma_transposes_equivalence(a: CombatState, b: CombatState, c: CombatState)
    ensures
        transposes(a, b) ==> transposes(b, a),
        transposes(a, b) && transposes(b, c) ==> transposes(a, c),
{
    if transposes(a, b) {
        assert forall|k: int| 0 <= k < b.cms().len() implies same_conditions((#[trigger] b.cms()[k])@, a.cms()[k]@) by {
            assert(same_conditions(a.cms()[k]@, b.cms()[k]@));
            assert(b.cms()[k]@.conditions.dom() =~= a.cms()[k]@.conditions.dom());
        }
        if transposes(b, c) {
            assert forall|k: int| 0 <= k < a.cms().len() implies same_conditions((#[trigger] a.cms()[k])@, c.cms()[k]@) by {
                assert(same_conditions(a.cms()[k]@, b.cms()[k]@));
                assert(same_conditions(b.cms()[k]@, c.cms()[k]@));
            }
        }
    }
}

/// The state of an encounter: its log, and the resources, conditions and
/// health of each participant.
#[derive(Debug, Clone)]
pub struct CombatState {
    logs: CombatLog,
    resources: Vec<ResourceManager>,
    conditions: Vec<ConditionManager>,
    healthiness: Vec<Health>,
    deaths: Vec<bool>,
    last_combat_timing: Option<CombatTiming>,
}

impl CombatState {
    /// The log.
    pub closed spec fn log(self) -> CombatLog {
        self.logs
    }

    /// The resource managers, by participant.
    pub closed spec fn rms(self) -> Seq<ResourceManager> {
        self.resources@
    }

    /// The condition managers, by participant.
    pub closed spec fn cms(self) -> Seq<ConditionManager> {
        self.conditions@
    }

    /// The health of each participant.
    pub closed spec fn healths(self) -> Seq<Health> {
        self.healthiness@
    }

    /// The participants that have died.
    pub closed spec fn dead(self) -> Set<ParticipantId> {
        Set::new(|p: ParticipantId| p.0 < self.deaths@.len() && self.deaths@[p.0 as int])
    }

    /// The last combat timing recorded.
    pub closed spec fn last_timing(self) -> Option<CombatTiming> {
        self.last_combat_timing
    }

    /// The state is well formed: one health and one death mark per resource
    /// manager, a well-formed log and well-formed managers.
    pub closed spec fn wf(self) -> bool {
        &&& self.healthiness@.len() == self.resources@.len()
        &&& self.deaths@.len() == self.resources@.len()
        &&& self.logs.wf()
        &&& forall|i: int| 0 <= i < self.resources@.len() ==> (#[trigger] self.resources@[i]).wf()
        &&& forall|i: int| 0 <= i < self.conditions@.len() ==> (#[trigger] self.conditions@[i]).wf()
    }

    /// The state at the start of an encounter: everyone healthy, nobody dead,
    /// an empty log and no timing yet.
    pub fn new(resources: Vec<ResourceManager>, conditions: Vec<ConditionManager>) -> (r: Self)
        requires
            forall|i: int| 0 <= i < resources@.len() ==> (#[trigger] resources@[i]).wf(),
            forall|i: int| 0 <= i < conditions@.len() ==> (#[trigger] conditions@[i]).wf(),
        ensures
            r.wf(),
            r.rms() == resources@,
            r.cms() == conditions@,
            r.healths() == Seq::new(resources@.len(), |i: int| Health::Healthy),
            r.dead() == Set::<ParticipantId>::empty(),
            r.log().history() == Seq::<CombatEvent>::empty(),
            r.log().unmerged(),
            r.last_timing() is None,
    {
        let n = resources.len();
        let mut health: Vec<Health> = Vec::new();
        let mut deaths: Vec<bool> = Vec::new();
        let mut i: usize = 0;
        while i < n
            invariant
                i <= n,
                health@.len() == i,
                deaths@.len() == i,
                forall|k: int| 0 <= k < i ==> health@[k] == Health::Healthy,
                forall|k: int| 0 <= k < i ==> !deaths@[k],
            decreases n - i,
        {
            health.push(Health::Healthy);
            deaths.push(false);
            i = i + 1;
        }
        let r = CombatState {
            logs: CombatLog::new(),
            resources,
            conditions,
            healthiness: health,
            deaths,
            last_combat_timing: None,
        };
        assert(r.healths() =~= Seq::new(n as nat, |i: int| Health::Healthy));
        assert(r.dead() =~= Set::<ParticipantId>::empty());
        r
    }

    /// The parts of a well-formed state are well formed.
    pub proof fn lemma_wf_parts(self)
        requires
            self.wf(),
        ensures
            self.log().wf(),
            self.healths().len() == self.rms().len(),
            forall|i: int| 0 <= i < self.rms().len() ==> (#[trigger] self.rms()[i]).wf(),
            forall|i: int| 0 <= i < self.cms().len() ==> (#[trigger] self.cms()[i]).wf(),
    {
    }

    /// The log.
    pub fn get_logs(&self) -> (r: &CombatLog)
        ensures
            *r == self.log(),
    {
        &self.logs
    }

    /// The last event of the encounter so far.
    pub fn get_last_event(&self) -> (r: Option<CombatEvent>)
        ensures
            r == self.log().last_event(),
    {
        self.logs.get_last_event()
    }

    /// The resources of participant `pid`.
    pub fn get_rm(&self, pid: ParticipantId) -> (r: &ResourceManager)
        requires
            pid.0 < self.rms().len(),
        ensures
            *r == self.rms()[pid.0 as int],
            self.wf() ==> r.wf(),
    {
        &self.resources[pid.0]
    }

    /// The resources of participant `pid`, to change.
    pub fn get_rm_mut(&mut self, pid: ParticipantId) -> (r: &mut ResourceManager)
        requires
            pid.0 < old(self).rms().len(),
        ensures
            *r == old(self).rms()[pid.0 as int],
            final(self).rms() == old(self).rms().update(pid.0 as int, *final(r)),
            final(self).cms() == old(self).cms(),
            final(self).healths() == old(self).healths(),
            final(self).dead() == old(self).dead(),
            final(self).log() == old(self).log(),
            final(self).last_timing() == old(self).last_timing(),
    {
        &mut self.resources[pid.0]
    }

    /// The conditions of participant `pid`.
    pub fn get_cm(&self, pid: ParticipantId) -> (r: &ConditionManager)
        requires
            pid.0 < self.cms().len(),
        ensures
            *r == self.cms()[pid.0 as int],
            self.wf() ==> r.wf(),
    {
        &self.conditions[pid.0]
    }

    /// The conditions of participant `pid`, to change.
    pub fn get_cm_mut(&mut self, pid: ParticipantId) -> (r: &mut ConditionManager)
        requires
            pid.0 < old(self).cms().len(),
        ensures
            *r == old(self).cms()[pid.0 as int],
            final(self).cms() == old(self).cms().update(pid.0 as int, *final(r)),
            final(self).rms() == old(self).rms(),
            final(self).healths() == old(self).healths(),
            final(self).dead() == old(self).dead(),
            final(self).log() == old(self).log(),
            final(self).last_timing() == old(self).last_timing(),
    {
        &mut self.conditions[pid.0]
    }

    /// The health of participant `pid`.
    pub fn get_health(&self, pid: ParticipantId) -> (r: Health)
        requires
            pid.0 < self.healths().len(),
        ensures
            r == self.healths()[pid.0 as int],
    {
        self.healthiness[pid.0]
    }

    /// Sets the health of participant `pid`, marks them dead when it is
    /// `Dead`, and records the change.
    pub fn set_health(&mut self, pid: ParticipantId, h: Health)
        requires
            old(self).wf(),
            pid.0 < old(self).healths().len(),
        ensures
            final(self).wf(),
            final(self).healths() == old(self).healths().update(pid.0 as int, h),
            final(self).dead() == if h == Health::Dead { old(self).dead().insert(pid) } else { old(self).dead() },
            final(self).log().history() == old(self).log().history().push(CombatEvent::HP(pid, h)),
            final(self).log().last_event() == Some(CombatEvent::HP(pid, h)),
            final(self).log().unmerged() == old(self).log().unmerged(),
            final(self).rms() == old(self).rms(),
            final(self).cms() == old(self).cms(),
            final(self).last_timing() == old(self).last_timing(),
    {
        self.healthiness.set(pid.0, h);
        if h == Health::Dead {
            self.deaths.set(pid.0, true);
        }
        assert(self.dead() =~= if h == Health::Dead { old(self).dead().insert(pid) } else { old(self).dead() });
        self.logs.push(CombatEvent::HP(pid, h));
    }

    /// The same state, with a new log that continues this one.
    pub fn into_child(self) -> (r: Self)
        ensures
            r.wf() == self.wf(),
            r.log().history() == self.log().history(),
            r.log().last_event() == self.log().last_event(),
            r.log().local_view() == Seq::<CombatEvent>::empty(),
            r.rms() == self.rms(),
            r.cms() == self.cms(),
            r.healths() == self.healths(),
            r.dead() == self.dead(),
            r.last_timing() == self.last_timing(),
    {
        let ghost old_self = self;
        let r = CombatState {
            logs: self.logs.into_child(),
            resources: self.resources,
            conditions: self.conditions,
            healthiness: self.healthiness,
            deaths: self.deaths,
            last_combat_timing: self.last_combat_timing,
        };
        assert(r.resources@ == old_self.resources@);
        assert(r.conditions@ == old_self.conditions@);
        r
    }

    /// Whether participant `pid` has died.
    pub fn is_dead(&self, pid: ParticipantId) -> (r: bool)
        ensures
            r == self.dead().contains(pid),
    {
        pid.0 < self.deaths.len() && self.deaths[pid.0]
    }

    /// Whether participant `pid` has not died.
    pub fn is_alive(&self, pid: ParticipantId) -> (r: bool)
        ensures
            r == !self.dead().contains(pid),
    {
        !self.is_dead(pid)
    }

    /// The last combat timing recorded, if any.
    pub fn get_last_combat_timing(&self) -> (r: Option<CombatTiming>)
        ensures
            r == self.last_timing(),
    {
        self.last_combat_timing
    }

    /// Records an event. A combat timing becomes the last timing, and first
    /// ends every condition that lasts until it, recording each removal
    /// (participant by participant, names in declaration order).
    pub fn push(&mut self, ce: CombatEvent)
        requires
            old(self).wf(),
            ce matches CombatEvent::Timing(ct) ==> forall|i: int|
                0 <= i < old(self).cms().len() ==> timing_removable(#[trigger] old(self).cms()[i]@, ct),
        ensures
            final(self).wf(),
            final(self).rms() == old(self).rms(),
            final(self).healths() == old(self).healths(),
            final(self).dead() == old(self).dead(),
            final(self).log().unmerged() == old(self).log().unmerged(),
            final(self).log().last_event() == Some(ce),
            final(self).cms().len() == old(self).cms().len(),
            match ce {
                CombatEvent::Timing(ct) => {
                    &&& final(self).last_timing() == Some(ct)
                    &&& forall|i: int| 0 <= i < old(self).cms().len() ==>
                        (#[trigger] final(self).cms()[i])@ == after_timing(old(self).cms()[i]@, ct)
                    &&& final(self).log().history() == old(self).log().history()
                        + removal_events(old(self).cms(), ct, old(self).cms().len() as int)
                        + seq![ce]
                },
                _ => {
                    &&& final(self).last_timing() == old(self).last_timing()
                    &&& final(self).cms() == old(self).cms()
                    &&& final(self).log().history() == old(self).log().history().push(ce)
                },
            },
    {
        if let CombatEvent::Timing(ct) = ce {
            self.last_combat_timing = Some(ct);
            let lt = ConditionLifetime::UntilTime(ct);
            let n = self.conditions.len();
            assert(forall|k: int| 0 <= k < n ==> timing_removable(#[trigger] old(self).cms()[k]@, ct));
            let mut i: usize = 0;
            while i < n
                invariant
                    n == self.conditions@.len(),
                    n == old(self).conditions@.len(),
                    i <= n,
                    lt == ConditionLifetime::UntilTime(ct),
                    self.wf(),
                    self.resources@ == old(self).resources@,
                    self.healthiness@ == old(self).healthiness@,
                    self.deaths@ == old(self).deaths@,
                    self.logs.unmerged() == old(self).logs.unmerged(),
                    self.last_combat_timing == Some(ct),
                    forall|k: int| 0 <= k < n ==> timing_removable(#[trigger] old(self).cms()[k]@, ct),
                    forall|k: int| 0 <= k < i ==> (#[trigger] self.conditions@[k])@ == after_timing(old(self).conditions@[k]@, ct),
                    forall|k: int| i <= k < n ==> #[trigger] self.conditions@[k] == old(self).conditions@[k],
                    self.logs.history() == old(self).logs.history() + removal_events(old(self).conditions@, ct, i as int),
                decreases n - i,
            {
                let ghost pre = self.conditions@;
                let mut cm = self.conditions.remove(i);
                assert(cm == old(self).conditions@[i as int]);
                assert(timing_removable(old(self).cms()[i as int]@, ct));
                assert(timing_removable(cm@, ct));
                let removed_cns = cm.remove_conditions_by_lifetime(&lt);
                self.conditions.insert(i, cm);
                assert(self.conditions@ =~= pre.update(i as int, cm));
                let ghost before = self.logs.history();
                let ghost conds = self.conditions@;
                let m = removed_cns.len();
                let mut j: usize = 0;
                while j < m
                    invariant
                        m == removed_cns@.len(),
                        j <= m,
                        self.logs.wf(),
                        self.logs.unmerged() == old(self).logs.unmerged(),
                        self.conditions@ == conds,
                        self.resources@ == old(self).resources@,
                        self.healthiness@ == old(self).healthiness@,
                        self.deaths@ == old(self).deaths@,
                        self.last_combat_timing == Some(ct),
                        self.logs.history() == before + removed_cns@.take(j as int).map_values(
                            |cn: ConditionName| CombatEvent::RemoveCond(cn, ParticipantId(i)),
                        ),
                    decreases m - j,
                {
                    self.logs.push(CombatEvent::RemoveCond(removed_cns[j], ParticipantId(i)));
                    j = j + 1;
                    assert(self.logs.history() =~= before + removed_cns@.take(j as int).map_values(
                        |cn: ConditionName| CombatEvent::RemoveCond(cn, ParticipantId(i)),
                    ));
                }
                proof {
                    assert(removed_cns@.take(m as int) =~= removed_cns@);
                    assert(self.logs.history() =~= old(self).logs.history() + removal_events(old(self).conditions@, ct, i + 1));
                    assert forall|k: int| 0 <= k < self.conditions@.len() implies (#[trigger] self.conditions@[k]).wf() by {
                        if k != i {
                            assert(self.conditions@[k] == pre[k]);
                        }
                    }
                }
                i = i + 1;
            }
        }
        let ghost before = self.logs.history();
        self.logs.push(ce);
        assert(before.push(ce) =~= before + seq![ce]);
    }

    /// Whether `other` is the same state reached another way: both logs end
    /// at the same combat timing, and the resources, conditions, health,
    /// deaths and last timing are all the same.
    pub fn is_transposition(&self, other: &Self) -> (r: bool)
        requires
            self.wf(),
            other.wf(),
        ensures
            r == transposes(*self, *other),
    {
        if !self.logs.is_transposition(&other.logs) {
            return false;
        }
        if self.resources.len() != other.resources.len() {
            return false;
        }
        let mut i: usize = 0;
        while i < self.resources.len()
            invariant
                i <= self.resources@.len() == other.resources@.len(),
                forall|k: int| 0 <= k < self.resources@.len() ==> (#[trigger] self.resources@[k]).wf(),
                forall|k: int| 0 <= k < other.resources@.len() ==> (#[trigger] other.resources@[k]).wf(),
                forall|k: int| 0 <= k < i ==> (#[trigger] self.resources@[k])@ == other.resources@[k]@,
            decreases self.resources@.len() - i,
        {
            if !self.resources[i].same_as(&other.resources[i]) {
                return false;
            }
            i = i + 1;
        }
        if self.conditions.len() != other.conditions.len() {
            return false;
        }
        let mut j: usize = 0;
        while j < self.conditions.len()
            invariant
                j <= self.conditions@.len() == other.conditions@.len(),
                forall|k: int| 0 <= k < self.conditions@.len() ==> (#[trigger] self.conditions@[k]).wf(),
                forall|k: int| 0 <= k < other.conditions@.len() ==> (#[trigger] other.conditions@[k]).wf(),
                forall|k: int| 0 <= k < j ==> same_conditions((#[trigger] self.conditions@[k])@, other.conditions@[k]@),
            decreases self.conditions@.len() - j,
        {
            if !self.conditions[j].same_as(&other.conditions[j]) {
                return false;
            }
            j = j + 1;
        }
        let n = self.healthiness.len();
        let mut h: usize = 0;
        while h < n
            invariant
                n == self.healthiness@.len() == other.healthiness@.len() == self.deaths@.len() == other.deaths@.len(),
                h <= n,
                forall|k: int| 0 <= k < h ==> self.healthiness@[k] == other.healthiness@[k],
                forall|k: int| 0 <= k < h ==> self.deaths@[k] == other.deaths@[k],
            decreases n - h,
        {
            if self.healthiness[h] != other.healthiness[h] {
                assert(self.healths()[h as int] != other.healths()[h as int]);
                return false;
            }
            if self.deaths[h] != other.deaths[h] {
                assert(self.dead().contains(ParticipantId(h)) != other.dead().contains(ParticipantId(h)));
                return false;
            }
            h = h + 1;
        }
        assert(self.healths() =~= other.healths());
        assert(self.dead() =~= other.dead());
        match (self.last_combat_timing, other.last_combat_timing) {
            (None, None) => true,
            (Some(a), Some(b)) => a == b,
            _ => false,
        }
    }

    /// Merges the log of `other` into the log of this state.
    pub fn merge_left(&mut self, other: Self)
        requires
            old(self).wf(),
            other.wf(),
        ensures
            final(self).wf(),
            final(self).log().local_view() == Seq::<CombatEvent>::empty(),
            combat_log::merged_parent_shape(
                combat_log::merge_side(old(self).log()),
                combat_log::merge_side(other.log()),
                final(self).log().parent_view(),
            ),
            final(self).rms() == old(self).rms(),
            final(self).cms() == old(self).cms(),
            final(self).healths() == old(self).healths(),
            final(self).dead() == old(self).dead(),
            final(self).last_timing() == old(self).last_timing(),
    {
        self.logs.merge_left(other.logs);
    }
}

} // verus!
