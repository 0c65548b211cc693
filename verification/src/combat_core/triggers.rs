use vstd::prelude::*;
use crate::combat_core::attack::AttackResult;
use crate::combat_core::conditions::{Condition, ConditionName, ConditionView, cn_index, registered_condition};
use crate::combat_core::damage::DamageTerm;
use crate::combat_core::participant::ParticipantId;
use crate::combat_core::resources::ResourceName;
use crate::seq_facts::copy_vec;

verus! {

/// The kinds of events that triggers react to.
#[derive(Debug, Clone, Copy, PartialEq, Eq, Structural, Hash, PartialOrd, Ord)]
pub enum TriggerType {
    WasHit,
    SuccessfulAttack,
    OnKill,
    DropConc,
}

/// What a triggering event carries with it.
#[derive(Debug, Clone, Copy, PartialEq, Eq, Structural, Hash, PartialOrd, Ord)]
pub enum TriggerContext {
    NoContext,
    AR(AttackResult),
    CondNotice(ConditionName),
}

/// A triggering event and its context.
#[derive(Debug, Clone, Copy, PartialEq, Eq, Structural, Hash, PartialOrd, Ord)]
pub struct TriggerInfo {
    pub tt: TriggerType,
    pub tc: TriggerContext,
}

impl TriggerInfo {
    /// The event `tt` with context `tc`.
    pub fn new(tt: TriggerType, tc: TriggerContext) -> (r: Self)
        ensures
            r.tt == tt,
            r.tc == tc,
    {
        TriggerInfo { tt, tc }
    }
}

impl From<TriggerType> for TriggerInfo {
    fn from(value: TriggerType) -> (r: Self) {
        TriggerInfo { tt: value, tc: TriggerContext::NoContext }
    }
}

impl vstd::std_specs::convert::FromSpecImpl<TriggerType> for TriggerInfo {
    open spec fn obeys_from_spec() -> bool {
        true
    }

    open spec fn from_spec(v: TriggerType) -> TriggerInfo {
        TriggerInfo { tt: v, tc: TriggerContext::NoContext }
    }
}

/// The named triggers.
#[derive(Debug, Clone, Copy, PartialEq, Eq, Structural, Hash, PartialOrd, Ord)]
pub enum TriggerName {
    SneakAttack,
    GWMBonusAtk,
    FavoredFoeKill,
    HasteLethargy,
}

/// Position of a trigger name.
pub open spec fn tn_index(tn: TriggerName) -> int {
    match tn {
        TriggerName::SneakAttack => 0,
        TriggerName::GWMBonusAtk => 1,
        TriggerName::FavoredFoeKill => 2,
        TriggerName::HasteLethargy => 3,
    }
}

/// The trigger name at a position below four.
pub open spec fn tn_at(i: int) -> TriggerName {
    if i == 0 {
        TriggerName::SneakAttack
    } else if i == 1 {
        TriggerName::GWMBonusAtk
    } else if i == 2 {
        TriggerName::FavoredFoeKill
    } else {
        TriggerName::HasteLethargy
    }
}

/// Position of a trigger context.
pub open spec fn tc_index(tc: TriggerContext) -> int {
    match tc {
        TriggerContext::NoContext => 0,
        TriggerContext::AR(ar) => match ar {
            AttackResult::Miss => 1,
            AttackResult::Hit => 2,
            AttackResult::Crit => 3,
        },
        TriggerContext::CondNotice(cn) => 4 + cn_index(cn),
    }
}

/// Position of a triggering event among all of them.
pub open spec fn ti_index(ti: TriggerInfo) -> int {
    let base: int = match ti.tt {
        TriggerType::WasHit => 0,
        TriggerType::SuccessfulAttack => 8,
        TriggerType::OnKill => 16,
        TriggerType::DropConc => 24,
    };
    base + tc_index(ti.tc)
}

/// The number of distinct triggering events.
pub const NUM_TRIGGER_INFOS: usize = 32;

/// Distinct events have distinct positions, all below their number.
pub proof fn lemma_ti_index(a: TriggerInfo, b: TriggerInfo)
    ensures
        0 <= ti_index(a) < NUM_TRIGGER_INFOS,
        ti_index(a) == ti_index(b) ==> a == b,
{
}

/// Distinct trigger names have distinct positions, all below four, and
/// `tn_at` gives the name back.
pub proof fn lemma_tn_index(a: TriggerName, b: TriggerName)
    ensures
        0 <= tn_index(a) < 4,
        tn_index(a) == tn_index(b) ==> a == b,
        tn_at(tn_index(a)) == a,
{
}

impl TriggerName {
    /// Position of the name in declaration order.
    pub fn index(&self) -> (r: usize)
        ensures
            r == tn_index(*self),
    {
        match self {
            TriggerName::SneakAttack => 0,
            TriggerName::GWMBonusAtk => 1,
            TriggerName::FavoredFoeKill => 2,
            TriggerName::HasteLethargy => 3,
        }
    }

    /// The name at a position below four.
    pub fn at(i: usize) -> (r: TriggerName)
        requires
            i < 4,
        ensures
            r == tn_at(i as int),
            tn_index(r) == i,
    {
        if i == 0 {
            TriggerName::SneakAttack
        } else if i == 1 {
            TriggerName::GWMBonusAtk
        } else if i == 2 {
            TriggerName::FavoredFoeKill
        } else {
            TriggerName::HasteLethargy
        }
    }
}

impl TriggerInfo {
    /// Position of the event among all events.
    pub fn index(&self) -> (r: usize)
        ensures
            r == ti_index(*self),
    {
        let base: usize = match self.tt {
            TriggerType::WasHit => 0,
            TriggerType::SuccessfulAttack => 8,
            TriggerType::OnKill => 16,
            TriggerType::DropConc => 24,
        };
        let off: usize = match self.tc {
            TriggerContext::NoContext => 0,
            TriggerContext::AR(ar) => match ar {
                AttackResult::Miss => 1,
                AttackResult::Hit => 2,
                AttackResult::Crit => 3,
            },
            TriggerContext::CondNotice(cn) => 4 + cn.index(),
        };
        base + off
    }
}

/// What a trigger does.
#[derive(Debug, Clone)]
pub enum TriggerAction {
    IncreaseAC(isize),
    AddAttackDamage(DamageTerm),
    AddResource(ResourceName, usize),
    SetResourceLock(ResourceName, bool),
    GiveCondition(ConditionName, Condition),
}

/// The content of a trigger action.
pub enum TriggerActionView {
    IncreaseAC(isize),
    AddAttackDamage(DamageTerm),
    AddResource(ResourceName, usize),
    SetResourceLock(ResourceName, bool),
    GiveCondition(ConditionName, ConditionView),
}

impl View for TriggerAction {
    type V = TriggerActionView;

    open spec fn view(&self) -> TriggerActionView {
        match self {
            TriggerAction::IncreaseAC(n) => TriggerActionView::IncreaseAC(*n),
            TriggerAction::AddAttackDamage(d) => TriggerActionView::AddAttackDamage(*d),
            TriggerAction::AddResource(rn, n) => TriggerActionView::AddResource(*rn, *n),
            TriggerAction::SetResourceLock(rn, b) => TriggerActionView::SetResourceLock(*rn, *b),
            TriggerAction::GiveCondition(cn, c) => TriggerActionView::GiveCondition(*cn, c@),
        }
    }
}

impl TriggerAction {
    /// A copy of the action, item for item.
    pub fn duplicate(&self) -> (r: TriggerAction)
        ensures
            r@ == self@,
    {
        match self {
            TriggerAction::IncreaseAC(n) => TriggerAction::IncreaseAC(*n),
            TriggerAction::AddAttackDamage(d) => TriggerAction::AddAttackDamage(*d),
            TriggerAction::AddResource(rn, n) => TriggerAction::AddResource(*rn, *n),
            TriggerAction::SetResourceLock(rn, b) => TriggerAction::SetResourceLock(*rn, *b),
            TriggerAction::GiveCondition(cn, c) => TriggerAction::GiveCondition(*cn, c.duplicate()),
        }
    }
}

/// A trigger's response: its action, and the resources it spends.
#[derive(Debug, Clone)]
pub struct TriggerResponse {
    pub action: TriggerAction,
    pub resources: Vec<ResourceName>,
}

/// The content of a trigger response.
pub struct TriggerResponseView {
    pub action: TriggerActionView,
    pub resources: Seq<ResourceName>,
}

impl View for TriggerResponse {
    type V = TriggerResponseView;

    open spec fn view(&self) -> TriggerResponseView {
        TriggerResponseView { action: self.action@, resources: self.resources@ }
    }
}

/// The response with the placeholder participant replaced by `pid` in a
/// condition that it gives.
pub open spec fn registered_response(r: TriggerResponseView, pid: ParticipantId) -> TriggerResponseView {
    TriggerResponseView {
        action: match r.action {
            TriggerActionView::GiveCondition(cn, c) => TriggerActionView::GiveCondition(cn, registered_condition(c, pid)),
            other => other,
        },
        resources: r.resources,
    }
}

impl TriggerResponse {
    /// The response `ta` spending `resources`.
    pub fn new(ta: TriggerAction, resources: Vec<ResourceName>) -> (r: Self)
        ensures
            r.action == ta,
            r.resources == resources,
    {
        TriggerResponse { action: ta, resources }
    }

    /// A copy of the response, item for item.
    pub fn duplicate(&self) -> (r: TriggerResponse)
        ensures
            r@ == self@,
    {
        TriggerResponse { action: self.action.duplicate(), resources: copy_vec(&self.resources) }
    }

    /// Replaces the placeholder participant by `pid` in a condition that the response gives.
    pub fn register_pid(&mut self, pid: ParticipantId)
        ensures
            final(self)@ == registered_response(old(self)@, pid),
    {
        match &mut self.action {
            TriggerAction::GiveCondition(_, cond) => {
                cond.register_pid(pid);
            },
            _ => {},
        }
    }
}

impl From<TriggerAction> for TriggerResponse {
    /// The response `value` spending nothing.
    fn from(value: TriggerAction) -> (r: Self)
        ensures
            r@ == (TriggerResponseView { action: value@, resources: Seq::<ResourceName>::empty() }),
    {
        TriggerResponse::new(value, Vec::new())
    }
}

// A response holds vectors, which no spec value can build: the contract is
// the `ensures` of `from` itself, in terms of views.
impl vstd::std_specs::convert::FromSpecImpl<TriggerAction> for TriggerResponse {
    open spec fn obeys_from_spec() -> bool {
        false
    }

    open spec fn from_spec(v: TriggerAction) -> TriggerResponse {
        arbitrary()
    }
}

impl From<(TriggerAction, ResourceName)> for TriggerResponse {
    /// The response `value.0` spending the resource `value.1`.
    fn from(value: (TriggerAction, ResourceName)) -> (r: Self)
        ensures
            r@ == (TriggerResponseView { action: value.0@, resources: seq![value.1] }),
    {
        let mut resources = Vec::new();
        resources.push(value.1);
        TriggerResponse::new(value.0, resources)
    }
}

impl vstd::std_specs::convert::FromSpecImpl<(TriggerAction, ResourceName)> for TriggerResponse {
    open spec fn obeys_from_spec() -> bool {
        false
    }

    open spec fn from_spec(v: (TriggerAction, ResourceName)) -> TriggerResponse {
        arbitrary()
    }
}

/// The names marked in a table of four flags, one per trigger name.
pub open spec fn names_of(a: [bool; 4]) -> Set<TriggerName> {
    Set::new(|tn: TriggerName| a@[tn_index(tn)])
}

/// The table of name sets, by event.
spec fn table_of(v: Seq<Option<[bool; 4]>>) -> Map<TriggerInfo, Set<TriggerName>> {
    Map::new(|ti: TriggerInfo| v[ti_index(ti)] is Some, |ti: TriggerInfo| names_of(v[ti_index(ti)]->0))
}

/// The responses held in a table indexed by trigger name.
spec fn responses_of(v: Seq<Option<TriggerResponse>>) -> Map<TriggerName, TriggerResponseView> {
    Map::new(|tn: TriggerName| v[tn_index(tn)] is Some, |tn: TriggerName| v[tn_index(tn)]->0@)
}

/// Writing one slot of the event table changes the map at that event only.
proof fn lemma_table_update(v: Seq<Option<[bool; 4]>>, ti: TriggerInfo, a: [bool; 4])
    requires
        v.len() == NUM_TRIGGER_INFOS,
    ensures
        table_of(v.update(ti_index(ti), Some(a))) == table_of(v).insert(ti, names_of(a)),
{
    lemma_ti_index(ti, ti);
    assert forall|k: TriggerInfo| ti_index(k) == ti_index(ti) <==> k == ti by {
        lemma_ti_index(k, ti);
    }
    assert(table_of(v.update(ti_index(ti), Some(a))) =~= table_of(v).insert(ti, names_of(a)));
}

/// The names of a set in declaration order, among the first `k` names.
pub open spec fn names_upto(s: Set<TriggerName>, k: int) -> Seq<TriggerName>
    decreases k,
{
    if k <= 0 {
        Seq::empty()
    } else if s.contains(tn_at(k - 1)) {
        names_upto(s, k - 1).push(tn_at(k - 1))
    } else {
        names_upto(s, k - 1)
    }
}

/// The responses of the names of a set that have one, in declaration order
/// of the names, among the first `k` names.
pub open spec fn responses_upto(s: Set<TriggerName>, rs: Map<TriggerName, TriggerResponseView>, k: int) -> Seq<TriggerResponseView>
    decreases k,
{
    if k <= 0 {
        Seq::empty()
    } else if s.contains(tn_at(k - 1)) && rs.contains_key(tn_at(k - 1)) {
        responses_upto(s, rs, k - 1).push(rs[tn_at(k - 1)])
    } else {
        responses_upto(s, rs, k - 1)
    }
}

/// The mathematical content of a trigger manager.
pub struct TriggerManagerModel {
    /// The triggers that fire by themselves, by event.
    pub auto_triggers: Map<TriggerInfo, Set<TriggerName>>,
    /// The triggers that a strategy may choose to fire, by event.
    pub manual_triggers: Map<TriggerInfo, Set<TriggerName>>,
    /// The response of each trigger.
    pub responses: Map<TriggerName, TriggerResponseView>,
}

/// The names registered for an event, none when there are none.
pub open spec fn names_or_empty(t: Map<TriggerInfo, Set<TriggerName>>, ti: TriggerInfo) -> Set<TriggerName> {
    if t.contains_key(ti) {
        t[ti]
    } else {
        Set::empty()
    }
}

/// Keeps the triggers of a participant: which named triggers fire on which
/// events, and what each one does.
#[derive(Debug, Clone)]
pub struct TriggerManager {
    auto_triggers: Vec<Option<[bool; 4]>>,
    manual_triggers: Vec<Option<[bool; 4]>>,
    responses: Vec<Option<TriggerResponse>>,
}

impl View for TriggerManager {
    type V = TriggerManagerModel;

    closed spec fn view(&self) -> TriggerManagerModel {
        TriggerManagerModel {
            auto_triggers: table_of(self.auto_triggers@),
            manual_triggers: table_of(self.manual_triggers@),
            responses: responses_of(self.responses@),
        }
    }
}

/// An event table with every event unregistered.
fn empty_table() -> (v: Vec<Option<[bool; 4]>>)
    ensures
        v@.len() == NUM_TRIGGER_INFOS,
        table_of(v@) == Map::<TriggerInfo, Set<TriggerName>>::empty(),
{
    let mut v: Vec<Option<[bool; 4]>> = Vec::new();
    let mut i: usize = 0;
    while i < NUM_TRIGGER_INFOS
        invariant
            i <= NUM_TRIGGER_INFOS,
            v@.len() == i,
            forall|k: int| 0 <= k < i ==> v@[k] is None,
        decreases NUM_TRIGGER_INFOS - i,
    {
        v.push(None);
        i = i + 1;
    }
    proof {
        assert forall|ti: TriggerInfo| !(#[trigger] table_of(v@).contains_key(ti)) by {
            lemma_ti_index(ti, ti);
        }
    }
    assert(table_of(v@) =~= Map::<TriggerInfo, Set<TriggerName>>::empty());
    v
}

/// The flags of the names registered for an event in a table, all clear when none are.
fn flags_in(v: &Vec<Option<[bool; 4]>>, ti: TriggerInfo) -> (a: [bool; 4])
    requires
        v@.len() == NUM_TRIGGER_INFOS,
    ensures
        names_of(a) == names_or_empty(table_of(v@), ti),
{
    proof {
        lemma_ti_index(ti, ti);
    }
    match v[ti.index()] {
        Some(a) => a,
        None => {
            let a = [false; 4];
            assert(names_of(a) =~= Set::<TriggerName>::empty());
            a
        },
    }
}

/// The names flagged in `a`, in declaration order.
fn names_in(a: &[bool; 4]) -> (r: Vec<TriggerName>)
    ensures
        r@ == names_upto(names_of(*a), 4),
{
    let mut r: Vec<TriggerName> = Vec::new();
    let mut i: usize = 0;
    while i < 4
        invariant
            i <= 4,
            r@ == names_upto(names_of(*a), i as int),
        decreases 4 - i,
    {
        let tn = TriggerName::at(i);
        if a[i] {
            r.push(tn);
        }
        i = i + 1;
    }
    r
}

/// The flags of a list of names.
fn flags_of(tns: &Vec<TriggerName>, start: [bool; 4]) -> (a: [bool; 4])
    ensures
        names_of(a) == names_of(start).union(tns@.to_set()),
{
    let mut a = start;
    let n = tns.len();
    let mut i: usize = 0;
    while i < n
        invariant
            n == tns@.len(),
            i <= n,
            names_of(a) == names_of(start).union(tns@.take(i as int).to_set()),
        decreases n - i,
    {
        let tn = tns[i];
        let ghost prev = a;
        a[tn.index()] = true;
        proof {
            assert(tns@.take(i + 1) =~= tns@.take(i as int).push(tn));
            assert forall|x: TriggerName| names_of(a).contains(x) <==> names_of(start).union(tns@.take(i + 1).to_set()).contains(x) by {
                lemma_tn_index(x, tn);
                crate::seq_facts::lemma_push_contains(tns@.take(i as int), tn, x);
                assert(names_of(prev).contains(x) == names_of(start).union(tns@.take(i as int).to_set()).contains(x));
            }
            assert(names_of(a) =~= names_of(start).union(tns@.take(i + 1).to_set()));
        }
        i = i + 1;
    }
    assert(tns@.take(n as int) =~= tns@);
    a
}

impl TriggerManager {
    /// The manager is well formed: one slot per event and per trigger name.
    pub closed spec fn wf(&self) -> bool {
        &&& self.auto_triggers@.len() == NUM_TRIGGER_INFOS
        &&& self.manual_triggers@.len() == NUM_TRIGGER_INFOS
        &&& self.responses@.len() == 4
    }

    /// A manager with no triggers and no responses.
    pub fn new() -> (r: Self)
        ensures
            r.wf(),
            r@.auto_triggers == Map::<TriggerInfo, Set<TriggerName>>::empty(),
            r@.manual_triggers == Map::<TriggerInfo, Set<TriggerName>>::empty(),
            r@.responses == Map::<TriggerName, TriggerResponseView>::empty(),
    {
        let responses: Vec<Option<TriggerResponse>> = vec![None, None, None, None];
        let r = TriggerManager { auto_triggers: empty_table(), manual_triggers: empty_table(), responses };
        assert(r@.responses =~= Map::<TriggerName, TriggerResponseView>::empty());
        r
    }

    /// Replaces the placeholder participant by `pid` in every response.
    pub fn register_pid(&mut self, pid: ParticipantId)
        requires
            old(self).wf(),
        ensures
            final(self).wf(),
            final(self)@.auto_triggers == old(self)@.auto_triggers,
            final(self)@.manual_triggers == old(self)@.manual_triggers,
            final(self)@.responses == old(self)@.responses.map_values(|r: TriggerResponseView| registered_response(r, pid)),
    {
        let mut i: usize = 0;
        while i < 4
            invariant
                self.wf(),
                i <= 4,
                old(self).responses@.len() == 4,
                self.auto_triggers@ == old(self).auto_triggers@,
                self.manual_triggers@ == old(self).manual_triggers@,
                forall|k: int| 0 <= k < 4 ==> (#[trigger] self.responses@[k] is Some) == (old(self).responses@[k] is Some),
                forall|k: int| 0 <= k < i && old(self).responses@[k] is Some ==>
                    (#[trigger] self.responses@[k])->0@ == registered_response(old(self).responses@[k]->0@, pid),
                forall|k: int| i <= k < 4 ==> #[trigger] self.responses@[k] == old(self).responses@[k],
            decreases 4 - i,
        {
            if self.responses[i].is_some() {
                let mut r = self.responses[i].as_ref().unwrap().duplicate();
                r.register_pid(pid);
                self.responses.set(i, Some(r));
            }
            i = i + 1;
        }
        proof {
            assert forall|tn: TriggerName| #[trigger] self@.responses.contains_key(tn)
                == old(self)@.responses.map_values(|r: TriggerResponseView| registered_response(r, pid)).contains_key(tn) by {
                lemma_tn_index(tn, tn);
            }
            assert(self@.responses =~= old(self)@.responses.map_values(|r: TriggerResponseView| registered_response(r, pid)));
        }
    }

    /// Registers `tn` to fire by itself on `ti`.
    pub fn add_auto_trigger(&mut self, ti: TriggerInfo, tn: TriggerName)
        requires
            old(self).wf(),
        ensures
            final(self).wf(),
            final(self)@.auto_triggers == old(self)@.auto_triggers.insert(ti, names_or_empty(old(self)@.auto_triggers, ti).insert(tn)),
            final(self)@.manual_triggers == old(self)@.manual_triggers,
            final(self)@.responses == old(self)@.responses,
    {
        let mut a = flags_in(&self.auto_triggers, ti);
        a[tn.index()] = true;
        proof {
            assert forall|x: TriggerName| names_of(a).contains(x) <==> names_or_empty(old(self)@.auto_triggers, ti).insert(tn).contains(x) by {
                lemma_tn_index(x, tn);
            }
            assert(names_of(a) =~= names_or_empty(old(self)@.auto_triggers, ti).insert(tn));
            lemma_table_update(self.auto_triggers@, ti, a);
        }
        self.auto_triggers.set(ti.index(), Some(a));
    }

    /// Registers `tn` as a trigger that may be fired on `ti`.
    pub fn add_manual_trigger(&mut self, ti: TriggerInfo, tn: TriggerName)
        requires
            old(self).wf(),
        ensures
            final(self).wf(),
            final(self)@.manual_triggers == old(self)@.manual_triggers.insert(ti, names_or_empty(old(self)@.manual_triggers, ti).insert(tn)),
            final(self)@.auto_triggers == old(self)@.auto_triggers,
            final(self)@.responses == old(self)@.responses,
    {
        let mut a = flags_in(&self.manual_triggers, ti);
        a[tn.index()] = true;
        proof {
            assert forall|x: TriggerName| names_of(a).contains(x) <==> names_or_empty(old(self)@.manual_triggers, ti).insert(tn).contains(x) by {
                lemma_tn_index(x, tn);
            }
            assert(names_of(a) =~= names_or_empty(old(self)@.manual_triggers, ti).insert(tn));
            lemma_table_update(self.manual_triggers@, ti, a);
        }
        self.manual_triggers.set(ti.index(), Some(a));
    }

    /// Registers every name of `tn_hs` as a trigger that may be fired on `ti`.
    pub fn add_manual_triggers(&mut self, ti: TriggerInfo, tn_hs: Vec<TriggerName>)
        requires
            old(self).wf(),
        ensures
            final(self).wf(),
            final(self)@.manual_triggers == old(self)@.manual_triggers.insert(
                ti,
                names_or_empty(old(self)@.manual_triggers, ti).union(tn_hs@.to_set()),
            ),
            final(self)@.auto_triggers == old(self)@.auto_triggers,
            final(self)@.responses == old(self)@.responses,
    {
        let start = flags_in(&self.manual_triggers, ti);
        let a = flags_of(&tn_hs, start);
        proof {
            lemma_table_update(self.manual_triggers@, ti, a);
        }
        self.manual_triggers.set(ti.index(), Some(a));
    }

    /// Makes the names of `tn_hs` the triggers that may be fired on `ti`, in
    /// place of those registered before.
    pub fn replace_manual_trigger(&mut self, ti: TriggerInfo, tn_hs: Vec<TriggerName>)
        requires
            old(self).wf(),
        ensures
            final(self).wf(),
            final(self)@.manual_triggers == old(self)@.manual_triggers.insert(ti, tn_hs@.to_set()),
            final(self)@.auto_triggers == old(self)@.auto_triggers,
            final(self)@.responses == old(self)@.responses,
    {
        let start = [false; 4];
        assert(names_of(start) =~= Set::<TriggerName>::empty());
        let a = flags_of(&tn_hs, start);
        assert(names_of(a) =~= tn_hs@.to_set());
        proof {
            lemma_table_update(self.manual_triggers@, ti, a);
        }
        self.manual_triggers.set(ti.index(), Some(a));
    }

    /// The names that fire by themselves on `ti`, in declaration order, if any are registered.
    pub fn get_auto_trigger_names(&self, ti: TriggerInfo) -> (r: Option<Vec<TriggerName>>)
        requires
            self.wf(),
        ensures
            r is Some == self@.auto_triggers.contains_key(ti),
            r matches Some(v) ==> v@ == names_upto(self@.auto_triggers[ti], 4),
    {
        proof {
            lemma_ti_index(ti, ti);
        }
        match &self.auto_triggers[ti.index()] {
            Some(a) => Some(names_in(a)),
            None => None,
        }
    }

    /// The names that may be fired on `ti`, in declaration order, if any are registered.
    pub fn get_manual_trigger_names(&self, ti: TriggerInfo) -> (r: Option<Vec<TriggerName>>)
        requires
            self.wf(),
        ensures
            r is Some == self@.manual_triggers.contains_key(ti),
            r matches Some(v) ==> v@ == names_upto(self@.manual_triggers[ti], 4),
    {
        proof {
            lemma_ti_index(ti, ti);
        }
        match &self.manual_triggers[ti.index()] {
            Some(a) => Some(names_in(a)),
            None => None,
        }
    }

    /// Sets the response of the trigger `tn`.
    pub fn set_response(&mut self, tn: TriggerName, tr: TriggerResponse)
        requires
            old(self).wf(),
        ensures
            final(self).wf(),
            final(self)@.responses == old(self)@.responses.insert(tn, tr@),
            final(self)@.auto_triggers == old(self)@.auto_triggers,
            final(self)@.manual_triggers == old(self)@.manual_triggers,
    {
        let ghost v = tr@;
        self.responses.set(tn.index(), Some(tr));
        proof {
            assert forall|k: TriggerName| tn_index(k) == tn_index(tn) <==> k == tn by {
                lemma_tn_index(k, tn);
            }
        }
        assert(self@.responses =~= old(self)@.responses.insert(tn, v));
    }

    /// A copy of the response of the trigger `tn`, if it has one.
    pub fn get_response(&self, tn: TriggerName) -> (r: Option<TriggerResponse>)
        requires
            self.wf(),
        ensures
            r is Some == self@.responses.contains_key(tn),
            r matches Some(x) ==> x@ == self@.responses[tn],
    {
        match &self.responses[tn.index()] {
            Some(tr) => Some(tr.duplicate()),
            None => None,
        }
    }

    /// Whether triggers that may be fired are registered for `ti`.
    pub fn has_manual_triggers(&self, ti: TriggerInfo) -> (r: bool)
        requires
            self.wf(),
        ensures
            r == self@.manual_triggers.contains_key(ti),
    {
        proof {
            lemma_ti_index(ti, ti);
        }
        self.manual_triggers[ti.index()].is_some()
    }

    /// Whether triggers that fire by themselves are registered for `ti`.
    pub fn has_auto_triggers(&self, ti: TriggerInfo) -> (r: bool)
        requires
            self.wf(),
        ensures
            r == self@.auto_triggers.contains_key(ti),
    {
        proof {
            lemma_ti_index(ti, ti);
        }
        self.auto_triggers[ti.index()].is_some()
    }

    /// Whether any triggers are registered for `ti`.
    pub fn has_triggers(&self, ti: TriggerInfo) -> (r: bool)
        requires
            self.wf(),
        ensures
            r == (self@.manual_triggers.contains_key(ti) || self@.auto_triggers.contains_key(ti)),
    {
        self.has_manual_triggers(ti) || self.has_auto_triggers(ti)
    }

    /// Copies of the responses of the names flagged in `a`, in declaration order.
    fn responses_for(&self, a: &[bool; 4]) -> (r: Vec<TriggerResponse>)
        requires
            self.wf(),
        ensures
            r@.map_values(|x: TriggerResponse| x@) == responses_upto(names_of(*a), self@.responses, 4),
    {
        let mut r: Vec<TriggerResponse> = Vec::new();
        let mut i: usize = 0;
        while i < 4
            invariant
                self.wf(),
                i <= 4,
                r@.map_values(|x: TriggerResponse| x@) == responses_upto(names_of(*a), self@.responses, i as int),
            decreases 4 - i,
        {
            let tn = TriggerName::at(i);
            if a[i] {
                if self.responses[i].is_some() {
                    let ghost before = r@;
                    r.push(self.responses[i].as_ref().unwrap().duplicate());
                    assert(r@.map_values(|x: TriggerResponse| x@) =~= before.map_values(|x: TriggerResponse| x@).push(self@.responses[tn]));
                }
            }
            i = i + 1;
        }
        r
    }

    /// Copies of the responses of the triggers that fire by themselves on
    /// `ti`, in declaration order of their names; names without a response are passed over.
    pub fn get_auto_responses(&self, ti: TriggerInfo) -> (r: Vec<TriggerResponse>)
        requires
            self.wf(),
        ensures
            r@.map_values(|x: TriggerResponse| x@) == responses_upto(names_or_empty(self@.auto_triggers, ti), self@.responses, 4),
    {
        let a = flags_in(&self.auto_triggers, ti);
        self.responses_for(&a)
    }

    /// Copies of the responses of the triggers that may be fired on `ti`, in
    /// declaration order of their names; names without a response are passed over.
    pub fn get_manual_responses(&self, ti: TriggerInfo) -> (r: Vec<TriggerResponse>)
        requires
            self.wf(),
        ensures
            r@.map_values(|x: TriggerResponse| x@) == responses_upto(names_or_empty(self@.manual_triggers, ti), self@.responses, 4),
    {
        let a = flags_in(&self.manual_triggers, ti);
        self.responses_for(&a)
    }
}

} // verus!
