use vstd::prelude::*;
use crate::character_builder::combat::{ActionName, ActionType, AttackType};

verus! {

/// The name of a resource of a character.
#[derive(Debug, Clone, Copy, PartialEq, Eq, Structural, Hash, PartialOrd, Ord)]
pub enum ResourceName {
    AT(ActionType),
    AN(ActionName),
}

impl From<ActionType> for ResourceName {
    fn from(value: ActionType) -> (r: Self) {
        ResourceName::AT(value)
    }
}

impl vstd::std_specs::convert::FromSpecImpl<ActionType> for ResourceName {
    open spec fn obeys_from_spec() -> bool {
        true
    }

    open spec fn from_spec(v: ActionType) -> ResourceName {
        ResourceName::AT(v)
    }
}

impl From<ActionName> for ResourceName {
    fn from(value: ActionName) -> (r: Self) {
        ResourceName::AN(value)
    }
}

impl vstd::std_specs::convert::FromSpecImpl<ActionName> for ResourceName {
    open spec fn obeys_from_spec() -> bool {
        true
    }

    open spec fn from_spec(v: ActionName) -> ResourceName {
        ResourceName::AN(v)
    }
}

/// The number of distinct resource names.
pub const NUM_NAMES: usize = 22;

/// Position of an action type.
pub open spec fn at_pos(a: ActionType) -> int {
    match a {
        ActionType::Action => 0,
        ActionType::SingleAttack => 1,
        ActionType::BonusAction => 2,
        ActionType::Reaction => 3,
        ActionType::Movement => 4,
        ActionType::FreeAction => 5,
        ActionType::OnHit => 6,
    }
}

/// Position of an attack type.
pub open spec fn atk_pos(a: AttackType) -> int {
    match a {
        AttackType::Normal => 0,
        AttackType::GWMAttack => 1,
        AttackType::SSAttack => 2,
    }
}

/// Position of a resource name among all of them.
pub open spec fn name_pos(rn: ResourceName) -> int {
    match rn {
        ResourceName::AT(a) => at_pos(a),
        ResourceName::AN(a) => 7 + match a {
            ActionName::PrimaryAttack(t) => atk_pos(t),
            ActionName::OffhandAttack(t) => 3 + atk_pos(t),
            ActionName::BonusPAMAttack(t) => 6 + atk_pos(t),
            ActionName::AttackAction => 9,
            ActionName::BonusGWMAttack => 10,
            ActionName::SecondWind => 11,
            ActionName::ActionSurge => 12,
            ActionName::Indomitable => 13,
            ActionName::SneakAttack => 14,
        },
    }
}

/// Distinct names have distinct positions, all below the number of names.
pub proof fn lemma_name_pos(a: ResourceName, b: ResourceName)
    ensures
        0 <= name_pos(a) < NUM_NAMES,
        name_pos(a) == name_pos(b) ==> a == b,
{
    match a {
        ResourceName::AN(x) => match x {
            ActionName::PrimaryAttack(t) => match t { _ => {} },
            ActionName::OffhandAttack(t) => match t { _ => {} },
            ActionName::BonusPAMAttack(t) => match t { _ => {} },
            _ => {},
        },
        _ => {},
    }
    match b {
        ResourceName::AN(y) => match y {
            ActionName::PrimaryAttack(t) => match t { _ => {} },
            ActionName::OffhandAttack(t) => match t { _ => {} },
            ActionName::BonusPAMAttack(t) => match t { _ => {} },
            _ => {},
        },
        _ => {},
    }
}

/// Every position below the number of names is the position of some name.
proof fn lemma_pos_onto(i: int) -> (rn: ResourceName)
    requires
        0 <= i < NUM_NAMES,
    ensures
        name_pos(rn) == i,
{
    let at = |j: int| if j == 0 { AttackType::Normal } else if j == 1 { AttackType::GWMAttack } else { AttackType::SSAttack };
    if i < 7 {
        ResourceName::AT(
            if i == 0 { ActionType::Action }
            else if i == 1 { ActionType::SingleAttack }
            else if i == 2 { ActionType::BonusAction }
            else if i == 3 { ActionType::Reaction }
            else if i == 4 { ActionType::Movement }
            else if i == 5 { ActionType::FreeAction }
            else { ActionType::OnHit },
        )
    } else {
        let j = i - 7;
        ResourceName::AN(
            if j < 3 { ActionName::PrimaryAttack(at(j)) }
            else if j < 6 { ActionName::OffhandAttack(at(j - 3)) }
            else if j < 9 { ActionName::BonusPAMAttack(at(j - 6)) }
            else if j == 9 { ActionName::AttackAction }
            else if j == 10 { ActionName::BonusGWMAttack }
            else if j == 11 { ActionName::SecondWind }
            else if j == 12 { ActionName::ActionSurge }
            else if j == 13 { ActionName::Indomitable }
            else { ActionName::SneakAttack },
        )
    }
}

impl ResourceName {
    /// Position of the name among all resource names.
    pub fn index(&self) -> (r: usize)
        ensures
            r == name_pos(*self),
    {
        match self {
            ResourceName::AT(a) => match a {
                ActionType::Action => 0,
                ActionType::SingleAttack => 1,
                ActionType::BonusAction => 2,
                ActionType::Reaction => 3,
                ActionType::Movement => 4,
                ActionType::FreeAction => 5,
                ActionType::OnHit => 6,
            },
            ResourceName::AN(a) => match a {
                ActionName::PrimaryAttack(t) => 7 + attack_index(t),
                ActionName::OffhandAttack(t) => 10 + attack_index(t),
                ActionName::BonusPAMAttack(t) => 13 + attack_index(t),
                ActionName::AttackAction => 16,
                ActionName::BonusGWMAttack => 17,
                ActionName::SecondWind => 18,
                ActionName::ActionSurge => 19,
                ActionName::Indomitable => 20,
                ActionName::SneakAttack => 21,
            },
        }
    }
}

fn attack_index(t: &AttackType) -> (r: usize)
    ensures
        r == atk_pos(*t),
{
    match t {
        AttackType::Normal => 0,
        AttackType::GWMAttack => 1,
        AttackType::SSAttack => 2,
    }
}

/// When a resource is refreshed or expires.
#[derive(Debug, Clone, Copy, PartialEq, Eq, Structural, Hash, PartialOrd, Ord)]
pub enum RefreshTiming {
    StartRound,
    EndRound,
    StartMyTurn,
    EndMyTurn,
    StartOtherTurn,
    EndOtherTurn,
    ShortRest,
    LongRest,
}

/// Position of a refresh timing.
pub open spec fn timing_pos(t: RefreshTiming) -> int {
    match t {
        RefreshTiming::StartRound => 0,
        RefreshTiming::EndRound => 1,
        RefreshTiming::StartMyTurn => 2,
        RefreshTiming::EndMyTurn => 3,
        RefreshTiming::StartOtherTurn => 4,
        RefreshTiming::EndOtherTurn => 5,
        RefreshTiming::ShortRest => 6,
        RefreshTiming::LongRest => 7,
    }
}

/// Distinct timings have distinct positions, all below eight.
pub proof fn lemma_timing_pos(a: RefreshTiming, b: RefreshTiming)
    ensures
        0 <= timing_pos(a) < 8,
        timing_pos(a) == timing_pos(b) ==> a == b,
{
}

impl RefreshTiming {
    /// Position of the timing in declaration order.
    pub fn index(&self) -> (r: usize)
        ensures
            r == timing_pos(*self),
    {
        match self {
            RefreshTiming::StartRound => 0,
            RefreshTiming::EndRound => 1,
            RefreshTiming::StartMyTurn => 2,
            RefreshTiming::EndMyTurn => 3,
            RefreshTiming::StartOtherTurn => 4,
            RefreshTiming::EndOtherTurn => 5,
            RefreshTiming::ShortRest => 6,
            RefreshTiming::LongRest => 7,
        }
    }
}

/// How a resource is refilled when its refresh timing comes.
#[derive(Debug, Clone, Copy, PartialEq, Eq, Structural)]
pub enum RefreshBy {
    Const(usize),
    ToFull,
    ToEmpty,
}

/// The maximum of a resource: soft (gains may exceed it) or hard (gains stop there).
#[derive(Debug, Clone, Copy, PartialEq, Eq, Structural)]
pub enum ResourceCap {
    Soft(usize),
    Hard(usize),
}

/// The number of a cap.
pub open spec fn cap_num(c: ResourceCap) -> usize {
    match c {
        ResourceCap::Soft(n) => n,
        ResourceCap::Hard(n) => n,
    }
}

impl ResourceCap {
    /// The number of the cap.
    pub fn cap(&self) -> (r: usize)
        ensures
            r == cap_num(*self),
    {
        match self {
            ResourceCap::Soft(c) => *c,
            ResourceCap::Hard(c) => *c,
        }
    }
}

/// The mathematical content of a resource.
pub struct ResourceModel {
    pub max: ResourceCap,
    pub current: usize,
    pub refresh: Map<RefreshTiming, RefreshBy>,
    pub expirations: Set<RefreshTiming>,
}

/// Whether gaining `uses` fits a `usize`.
pub open spec fn gain_fits(cur: usize, uses: usize) -> bool {
    cur + uses <= usize::MAX
}

/// The amount after gaining `uses`: a hard cap stops it at the cap.
pub open spec fn after_gain(max: ResourceCap, cur: usize, uses: usize) -> usize {
    match max {
        ResourceCap::Hard(cap) => if cur + uses <= cap { (cur + uses) as usize } else { cap },
        ResourceCap::Soft(_) => (cur + uses) as usize,
    }
}

/// Whether refreshing at `t` fits a `usize`.
pub open spec fn refresh_fits(r: ResourceModel, t: RefreshTiming) -> bool {
    r.refresh.contains_key(t) ==> match r.refresh[t] {
        RefreshBy::Const(c) => gain_fits(r.current, c),
        _ => true,
    }
}

/// The amount after refreshing at `t`.
pub open spec fn after_refresh(r: ResourceModel, t: RefreshTiming) -> usize {
    if r.refresh.contains_key(t) {
        match r.refresh[t] {
            RefreshBy::Const(c) => after_gain(r.max, r.current, c),
            RefreshBy::ToFull => cap_num(r.max),
            RefreshBy::ToEmpty => 0,
        }
    } else {
        r.current
    }
}

/// The same resource with another amount.
pub open spec fn set_current(r: ResourceModel, c: usize) -> ResourceModel {
    ResourceModel { current: c, ..r }
}

/// A resource of a character: a cap, an amount, the timings that refill it
/// and the timings at which it expires.
#[derive(Debug, Clone, Copy)]
pub struct Resource {
    max: ResourceCap,
    current: usize,
    refresh_map: [Option<RefreshBy>; 8],
    expirations: [bool; 8],
}

impl View for Resource {
    type V = ResourceModel;

    closed spec fn view(&self) -> ResourceModel {
        ResourceModel {
            max: self.max,
            current: self.current,
            refresh: Map::new(
                |t: RefreshTiming| self.refresh_map@[timing_pos(t)] is Some,
                |t: RefreshTiming| self.refresh_map@[timing_pos(t)]->0,
            ),
            expirations: Set::new(|t: RefreshTiming| self.expirations@[timing_pos(t)]),
        }
    }
}

impl Resource {
    /// A resource with the given cap and amount, never refreshed and never expiring.
    pub fn new(max: ResourceCap, current: usize) -> (r: Self)
        ensures
            r@ == (ResourceModel {
                max,
                current,
                refresh: Map::<RefreshTiming, RefreshBy>::empty(),
                expirations: Set::<RefreshTiming>::empty(),
            }),
    {
        let r = Resource { max, current, refresh_map: [None; 8], expirations: [false; 8] };
        assert(r@.refresh =~= Map::<RefreshTiming, RefreshBy>::empty());
        assert(r@.expirations =~= Set::<RefreshTiming>::empty());
        r
    }

    /// The cap.
    pub fn get_max(&self) -> (r: ResourceCap)
        ensures
            r == self@.max,
    {
        self.max
    }

    /// Replaces the cap; nothing else changes.
    pub fn set_max(&mut self, new_max: ResourceCap)
        ensures
            final(self)@ == (ResourceModel { max: new_max, ..old(self)@ }),
    {
        self.max = new_max;
    }

    /// The amount held.
    pub fn get_current(&self) -> (r: usize)
        ensures
            r == self@.current,
    {
        self.current
    }

    /// Spends one use if any is left.
    pub fn spend(&mut self)
        ensures
            final(self)@ == set_current(old(self)@, if old(self)@.current > 0 { (old(self)@.current - 1) as usize } else { 0 }),
    {
        if self.current > 0 {
            self.current = self.current - 1;
        }
    }

    /// Gains `uses`; a hard cap stops the gain at the cap.
    pub fn gain(&mut self, uses: usize)
        requires
            gain_fits(old(self)@.current, uses),
        ensures
            final(self)@ == set_current(old(self)@, after_gain(old(self)@.max, old(self)@.current, uses)),
    {
        if let ResourceCap::Hard(cap) = self.max {
            let sum = self.current + uses;
            self.current = if sum <= cap { sum } else { cap };
        } else {
            self.current = self.current + uses;
        }
    }

    /// Empties the resource.
    pub fn drain(&mut self)
        ensures
            final(self)@ == set_current(old(self)@, 0),
    {
        self.current = 0;
    }

    /// Makes the resource refill `by` at `timing`, and no longer expire then.
    pub fn add_refresh(&mut self, timing: RefreshTiming, by: RefreshBy)
        ensures
            final(self)@ == (ResourceModel {
                refresh: old(self)@.refresh.insert(timing, by),
                expirations: old(self)@.expirations.remove(timing),
                ..old(self)@
            }),
    {
        let i = timing.index();
        self.expirations[i] = false;
        self.refresh_map[i] = Some(by);
        proof {
            assert forall|t: RefreshTiming| timing_pos(t) == i <==> t == timing by {
                lemma_timing_pos(t, timing);
            }
        }
        assert(self@.refresh =~= old(self)@.refresh.insert(timing, by));
        assert(self@.expirations =~= old(self)@.expirations.remove(timing));
    }

    /// Makes the resource expire at `timing`, and no longer refill then.
    pub fn add_expiration(&mut self, timing: RefreshTiming)
        ensures
            final(self)@ == (ResourceModel {
                refresh: old(self)@.refresh.remove(timing),
                expirations: old(self)@.expirations.insert(timing),
                ..old(self)@
            }),
    {
        let i = timing.index();
        self.refresh_map[i] = None;
        self.expirations[i] = true;
        proof {
            assert forall|t: RefreshTiming| timing_pos(t) == i <==> t == timing by {
                lemma_timing_pos(t, timing);
            }
        }
        assert(self@.refresh =~= old(self)@.refresh.remove(timing));
        assert(self@.expirations =~= old(self)@.expirations.insert(timing));
    }

    /// Refills the resource as it is to be refilled at `timing`, if at all.
    pub fn refresh(&mut self, timing: RefreshTiming)
        requires
            refresh_fits(old(self)@, timing),
        ensures
            final(self)@ == set_current(old(self)@, after_refresh(old(self)@, timing)),
    {
        match self.refresh_map[timing.index()] {
            Some(RefreshBy::Const(c)) => self.gain(c),
            Some(RefreshBy::ToFull) => self.current = self.max.cap(),
            Some(RefreshBy::ToEmpty) => self.current = 0,
            None => {},
        }
    }

    /// Whether the resource expires at `timing`.
    pub fn expires(&self, timing: RefreshTiming) -> (r: bool)
        ensures
            r == self@.expirations.contains(timing),
    {
        self.expirations[timing.index()]
    }

    /// A full resource of cap `c`, never refreshed and never expiring.
    pub closed spec fn full_of(c: ResourceCap) -> Resource {
        Resource {
            max: c,
            current: cap_num(c),
            refresh_map: vstd::array::spec_array_fill_for_copy_type(None),
            expirations: vstd::array::spec_array_fill_for_copy_type(false),
        }
    }

    /// What a full resource of cap `c` is.
    pub proof fn lemma_full_of(c: ResourceCap)
        ensures
            Self::full_of(c)@ == (ResourceModel {
                max: c,
                current: cap_num(c),
                refresh: Map::<RefreshTiming, RefreshBy>::empty(),
                expirations: Set::<RefreshTiming>::empty(),
            }),
    {
        let r = Self::full_of(c);
        assert forall|t: RefreshTiming| !(#[trigger] r.refresh_map@[timing_pos(t)] is Some) && !r.expirations@[timing_pos(t)] by {
            lemma_timing_pos(t, t);
        }
        assert(r@.refresh =~= Map::<RefreshTiming, RefreshBy>::empty());
        assert(r@.expirations =~= Set::<RefreshTiming>::empty());
    }
}

impl From<ResourceCap> for Resource {
    fn from(value: ResourceCap) -> (r: Self) {
        Resource { max: value, current: value.cap(), refresh_map: [None; 8], expirations: [false; 8] }
    }
}

impl vstd::std_specs::convert::FromSpecImpl<ResourceCap> for Resource {
    open spec fn obeys_from_spec() -> bool {
        true
    }

    open spec fn from_spec(v: ResourceCap) -> Resource {
        Resource::full_of(v)
    }
}

/// The resources held in a table indexed by resource name.
spec fn table(v: Seq<Option<Resource>>) -> Map<ResourceName, ResourceModel> {
    Map::new(|rn: ResourceName| v[name_pos(rn)] is Some, |rn: ResourceName| v[name_pos(rn)]->0@)
}

/// Writing one slot of the table changes the map at that name only.
proof fn lemma_table_update(v: Seq<Option<Resource>>, rn: ResourceName, val: Option<Resource>)
    requires
        v.len() == NUM_NAMES,
    ensures
        table(v.update(name_pos(rn), val)) == (match val {
            Some(r) => table(v).insert(rn, r@),
            None => table(v).remove(rn),
        }),
{
    lemma_name_pos(rn, rn);
    assert forall|k: ResourceName| name_pos(k) == name_pos(rn) <==> k == rn by {
        lemma_name_pos(k, rn);
    }
    match val {
        Some(r) => {
            assert(table(v.update(name_pos(rn), val)) =~= table(v).insert(rn, r@));
        },
        None => {
            assert(table(v.update(name_pos(rn), val)) =~= table(v).remove(rn));
        },
    }
}

/// A table with every slot empty.
fn empty_table() -> (v: Vec<Option<Resource>>)
    ensures
        v@.len() == NUM_NAMES,
        table(v@) == Map::<ResourceName, ResourceModel>::empty(),
{
    let mut v: Vec<Option<Resource>> = Vec::new();
    let mut i: usize = 0;
    while i < NUM_NAMES
        invariant
            i <= NUM_NAMES,
            v@.len() == i,
            forall|k: int| 0 <= k < i ==> v@[k] is None,
        decreases NUM_NAMES - i,
    {
        v.push(None);
        i = i + 1;
    }
    proof {
        assert forall|rn: ResourceName| !(#[trigger] table(v@).contains_key(rn)) by {
            lemma_name_pos(rn, rn);
        }
    }
    assert(table(v@) =~= Map::<ResourceName, ResourceModel>::empty());
    v
}

/// The mathematical content of a resource manager.
pub struct ResourceManagerModel {
    pub perm: Map<ResourceName, ResourceModel>,
    pub temp: Map<ResourceName, ResourceModel>,
}

/// The amount held in `res` under `rn`, zero when there is none.
pub open spec fn held(res: Map<ResourceName, ResourceModel>, rn: ResourceName) -> int {
    if res.contains_key(rn) { res[rn].current as int } else { 0 }
}

/// The total amount of a resource: temporary plus permanent.
pub open spec fn total(m: ResourceManagerModel, rn: ResourceName) -> int {
    held(m.temp, rn) + held(m.perm, rn)
}

/// The manager after `spend(rn)`.
pub open spec fn after_spend(m: ResourceManagerModel, rn: ResourceName) -> ResourceManagerModel {
    if m.temp.contains_key(rn) {
        let t = m.temp[rn];
        let n: usize = if t.current > 0 { (t.current - 1) as usize } else { 0 };
        ResourceManagerModel {
            perm: m.perm,
            temp: if n == 0 { m.temp.remove(rn) } else { m.temp.insert(rn, set_current(t, n)) },
        }
    } else if m.perm.contains_key(rn) {
        let p = m.perm[rn];
        let n: usize = if p.current > 0 { (p.current - 1) as usize } else { 0 };
        ResourceManagerModel { perm: m.perm.insert(rn, set_current(p, n)), temp: m.temp }
    } else {
        m
    }
}

/// Whether `gain(rn, uses)` fits a `usize`.
pub open spec fn gain_ok(m: ResourceManagerModel, rn: ResourceName, uses: usize) -> bool {
    if m.perm.contains_key(rn) {
        gain_fits(m.perm[rn].current, uses)
    } else if m.temp.contains_key(rn) {
        gain_fits(m.temp[rn].current, uses)
    } else {
        true
    }
}

/// The manager after `gain(rn, uses)`.
pub open spec fn after_gain_model(m: ResourceManagerModel, rn: ResourceName, uses: usize) -> ResourceManagerModel {
    if m.perm.contains_key(rn) {
        let p = m.perm[rn];
        ResourceManagerModel { perm: m.perm.insert(rn, set_current(p, after_gain(p.max, p.current, uses))), temp: m.temp }
    } else if m.temp.contains_key(rn) {
        let t = m.temp[rn];
        ResourceManagerModel { perm: m.perm, temp: m.temp.insert(rn, set_current(t, after_gain(t.max, t.current, uses))) }
    } else {
        m
    }
}

/// The manager after timing `rt`: expired temporary resources are dropped
/// and every permanent resource is refreshed.
pub open spec fn after_timing(m: ResourceManagerModel, rt: RefreshTiming) -> ResourceManagerModel {
    ResourceManagerModel {
        temp: Map::new(|rn: ResourceName| m.temp.contains_key(rn) && !m.temp[rn].expirations.contains(rt), |rn: ResourceName| m.temp[rn]),
        perm: Map::new(|rn: ResourceName| m.perm.contains_key(rn), |rn: ResourceName| set_current(m.perm[rn], after_refresh(m.perm[rn], rt))),
    }
}

/// Keeps count of the resources of a character: permanent ones, and
/// temporary ones that are spent first and removed once used up or expired.
#[derive(Debug, Clone)]
pub struct ResourceManager {
    perm_resources: Vec<Option<Resource>>,
    temp_resources: Vec<Option<Resource>>,
}

impl View for ResourceManager {
    type V = ResourceManagerModel;

    closed spec fn view(&self) -> ResourceManagerModel {
        ResourceManagerModel { perm: table(self.perm_resources@), temp: table(self.temp_resources@) }
    }
}

impl ResourceManager {
    /// The manager is well formed: one slot per resource name in each table.
    pub closed spec fn wf(&self) -> bool {
        &&& self.perm_resources@.len() == NUM_NAMES
        &&& self.temp_resources@.len() == NUM_NAMES
    }

    /// A manager holding nothing.
    pub fn new() -> (r: Self)
        ensures
            r.wf(),
            r@.perm == Map::<ResourceName, ResourceModel>::empty(),
            r@.temp == Map::<ResourceName, ResourceModel>::empty(),
    {
        ResourceManager { perm_resources: empty_table(), temp_resources: empty_table() }
    }

    /// Adds (or replaces) a permanent resource.
    pub fn add_perm(&mut self, rn: ResourceName, res: Resource)
        requires
            old(self).wf(),
        ensures
            final(self).wf(),
            final(self)@.perm == old(self)@.perm.insert(rn, res@),
            final(self)@.temp == old(self)@.temp,
    {
        proof {
            lemma_table_update(self.perm_resources@, rn, Some(res));
        }
        self.perm_resources.set(rn.index(), Some(res));
    }

    /// Adds (or replaces) a temporary resource, unless it holds nothing.
    pub fn add_temp(&mut self, rn: ResourceName, res: Resource)
        requires
            old(self).wf(),
        ensures
            final(self).wf(),
            final(self)@.perm == old(self)@.perm,
            final(self)@.temp == if res@.current > 0 { old(self)@.temp.insert(rn, res@) } else { old(self)@.temp },
    {
        if res.get_current() > 0 {
            proof {
                lemma_table_update(self.temp_resources@, rn, Some(res));
            }
            self.temp_resources.set(rn.index(), Some(res));
        }
    }

    /// Whether a permanent or temporary resource of that name is held.
    pub fn has_resource(&self, rn: ResourceName) -> (r: bool)
        requires
            self.wf(),
        ensures
            r == (self@.perm.contains_key(rn) || self@.temp.contains_key(rn)),
    {
        proof {
            lemma_name_pos(rn, rn);
        }
        let i = rn.index();
        self.perm_resources[i].is_some() || self.temp_resources[i].is_some()
    }

    /// The total amount: temporary plus permanent, zero for what is not held.
    pub fn get_current(&self, rn: ResourceName) -> (r: usize)
        requires
            self.wf(),
            total(self@, rn) <= usize::MAX,
        ensures
            r == total(self@, rn),
    {
        proof {
            lemma_name_pos(rn, rn);
        }
        let i = rn.index();
        let temp_c = match &self.temp_resources[i] {
            Some(r) => r.get_current(),
            None => 0,
        };
        let perm_c = match &self.perm_resources[i] {
            Some(r) => r.get_current(),
            None => 0,
        };
        temp_c + perm_c
    }

    /// Spends one use: from the temporary resource if one is held (removing
    /// it once it holds nothing), else from the permanent one.
    pub fn spend(&mut self, rn: ResourceName)
        requires
            old(self).wf(),
        ensures
            final(self).wf(),
            final(self)@ == after_spend(old(self)@, rn),
    {
        proof {
            lemma_name_pos(rn, rn);
        }
        let i = rn.index();
        if let Some(mut res) = self.temp_resources[i] {
            res.spend();
            if res.get_current() == 0 {
                proof {
                    lemma_table_update(self.temp_resources@, rn, None);
                }
                self.temp_resources.set(i, None);
            } else {
                proof {
                    lemma_table_update(self.temp_resources@, rn, Some(res));
                }
                self.temp_resources.set(i, Some(res));
            }
        } else {
            if let Some(mut res) = self.perm_resources[i] {
                res.spend();
                proof {
                    lemma_table_update(self.perm_resources@, rn, Some(res));
                }
                self.perm_resources.set(i, Some(res));
            }
        }
    }

    /// Gains `uses` on the permanent resource if one is held, else on the
    /// temporary one if one is held.
    pub fn gain(&mut self, rn: ResourceName, uses: usize)
        requires
            old(self).wf(),
            gain_ok(old(self)@, rn, uses),
        ensures
            final(self).wf(),
            final(self)@ == after_gain_model(old(self)@, rn, uses),
    {
        proof {
            lemma_name_pos(rn, rn);
        }
        let i = rn.index();
        if let Some(mut res) = self.perm_resources[i] {
            res.gain(uses);
            proof {
                lemma_table_update(self.perm_resources@, rn, Some(res));
            }
            self.perm_resources.set(i, Some(res));
        } else {
            if let Some(mut res) = self.temp_resources[i] {
                res.gain(uses);
                proof {
                    lemma_table_update(self.temp_resources@, rn, Some(res));
                }
                self.temp_resources.set(i, Some(res));
            }
        }
    }

    /// At timing `rt`: drops the temporary resources that expire then, and
    /// refreshes every permanent resource.
    pub fn handle_timing(&mut self, rt: RefreshTiming)
        requires
            old(self).wf(),
            forall|rn: ResourceName| #[trigger] old(self)@.perm.contains_key(rn) ==> refresh_fits(old(self)@.perm[rn], rt),
        ensures
            final(self).wf(),
            final(self)@ == after_timing(old(self)@, rt),
    {
        let ghost m = self@;
        self.handle_expirations(rt);
        self.handle_refreshes(rt);
        assert(self@.temp =~= after_timing(m, rt).temp);
        assert(self@.perm =~= after_timing(m, rt).perm);
    }

    fn handle_refreshes(&mut self, rt: RefreshTiming)
        requires
            old(self).wf(),
            forall|rn: ResourceName| #[trigger] old(self)@.perm.contains_key(rn) ==> refresh_fits(old(self)@.perm[rn], rt),
        ensures
            final(self).wf(),
            final(self)@.temp == old(self)@.temp,
            final(self)@.perm == after_timing(old(self)@, rt).perm,
    {
        proof {
            assert forall|k: int| 0 <= k < NUM_NAMES && (#[trigger] old(self).perm_resources@[k]) is Some implies
                refresh_fits(old(self).perm_resources@[k]->0@, rt) by {
                let rn = lemma_pos_onto(k);
                assert(old(self)@.perm.contains_key(rn));
            }
        }
        let mut i: usize = 0;
        while i < NUM_NAMES
            invariant
                self.wf(),
                i <= NUM_NAMES,
                self.temp_resources@ == old(self).temp_resources@,
                old(self).perm_resources@.len() == NUM_NAMES,
                forall|k: int| 0 <= k < NUM_NAMES ==> (#[trigger] self.perm_resources@[k] is Some) == (old(self).perm_resources@[k] is Some),
                forall|k: int| 0 <= k < i && old(self).perm_resources@[k] is Some ==>
                    (#[trigger] self.perm_resources@[k])->0@ == set_current(old(self).perm_resources@[k]->0@, after_refresh(old(self).perm_resources@[k]->0@, rt)),
                forall|k: int| i <= k < NUM_NAMES ==> #[trigger] self.perm_resources@[k] == old(self).perm_resources@[k],
                forall|k: int| 0 <= k < NUM_NAMES && (#[trigger] old(self).perm_resources@[k]) is Some ==>
                    refresh_fits(old(self).perm_resources@[k]->0@, rt),
            decreases NUM_NAMES - i,
        {
            if let Some(mut res) = self.perm_resources[i] {
                res.refresh(rt);
                self.perm_resources.set(i, Some(res));
            }
            i = i + 1;
        }
        proof {
            assert forall|rn: ResourceName| #[trigger] self@.perm.contains_key(rn) == after_timing(old(self)@, rt).perm.contains_key(rn)
                && (self@.perm.contains_key(rn) ==> self@.perm[rn] == after_timing(old(self)@, rt).perm[rn]) by {
                lemma_name_pos(rn, rn);
            }
            assert(self@.perm =~= after_timing(old(self)@, rt).perm);
        }
    }

    fn handle_expirations(&mut self, rt: RefreshTiming)
        requires
            old(self).wf(),
        ensures
            final(self).wf(),
            final(self)@.perm == old(self)@.perm,
            final(self)@.temp == after_timing(old(self)@, rt).temp,
    {
        let mut i: usize = 0;
        while i < NUM_NAMES
            invariant
                self.wf(),
                i <= NUM_NAMES,
                self.perm_resources@ == old(self).perm_resources@,
                old(self).temp_resources@.len() == NUM_NAMES,
                forall|k: int| 0 <= k < i ==> #[trigger] self.temp_resources@[k] == (match old(self).temp_resources@[k] {
                    Some(r) => if r@.expirations.contains(rt) { None } else { Some(r) },
                    None => None,
                }),
                forall|k: int| i <= k < NUM_NAMES ==> #[trigger] self.temp_resources@[k] == old(self).temp_resources@[k],
            decreases NUM_NAMES - i,
        {
            if let Some(res) = self.temp_resources[i] {
                if res.expires(rt) {
                    self.temp_resources.set(i, None);
                }
            }
            i = i + 1;
        }
        proof {
            assert forall|rn: ResourceName| #[trigger] self@.temp.contains_key(rn) == after_timing(old(self)@, rt).temp.contains_key(rn)
                && (self@.temp.contains_key(rn) ==> self@.temp[rn] == after_timing(old(self)@, rt).temp[rn]) by {
                lemma_name_pos(rn, rn);
            }
            assert(self@.temp =~= after_timing(old(self)@, rt).temp);
        }
    }
}

/// The resource of one use of an action type, refilled at the start of my turn.
pub open spec fn one_use_per_turn() -> ResourceModel {
    ResourceModel {
        max: ResourceCap::Soft(1),
        current: 1,
        refresh: map![RefreshTiming::StartMyTurn => RefreshBy::ToFull],
        expirations: Set::<RefreshTiming>::empty(),
    }
}

/// The resources of a character at the start: one action, bonus action,
/// reaction and movement per turn, and no single attacks until an attack
/// action grants them (emptied at the start and end of my turn).
pub open spec fn starting_resources() -> Map<ResourceName, ResourceModel> {
    map![
        ResourceName::AT(ActionType::Action) => one_use_per_turn(),
        ResourceName::AT(ActionType::BonusAction) => one_use_per_turn(),
        ResourceName::AT(ActionType::Reaction) => one_use_per_turn(),
        ResourceName::AT(ActionType::Movement) => one_use_per_turn(),
        ResourceName::AT(ActionType::SingleAttack) => ResourceModel {
            max: ResourceCap::Soft(0),
            current: 0,
            refresh: map![RefreshTiming::StartMyTurn => RefreshBy::ToEmpty, RefreshTiming::EndMyTurn => RefreshBy::ToEmpty],
            expirations: Set::<RefreshTiming>::empty(),
        }
    ]
}

/// The resource manager of a character at the start.
pub fn create_resource_manager() -> (rm: ResourceManager)
    ensures
        rm.wf(),
        rm@.perm == starting_resources(),
        rm@.temp == Map::<ResourceName, ResourceModel>::empty(),
{
    let mut rm = ResourceManager::new();
    let mut at_res = Resource::from(ResourceCap::Soft(1));
    proof {
        Resource::lemma_full_of(ResourceCap::Soft(1));
    }
    at_res.add_refresh(RefreshTiming::StartMyTurn, RefreshBy::ToFull);
    assert(at_res@.refresh =~= map![RefreshTiming::StartMyTurn => RefreshBy::ToFull]);
    assert(at_res@.expirations =~= Set::<RefreshTiming>::empty());

    rm.add_perm(ResourceName::AT(ActionType::Action), at_res);
    rm.add_perm(ResourceName::AT(ActionType::BonusAction), at_res);
    rm.add_perm(ResourceName::AT(ActionType::Reaction), at_res);
    rm.add_perm(ResourceName::AT(ActionType::Movement), at_res);

    let mut sa_res = Resource::from(ResourceCap::Soft(0));
    proof {
        Resource::lemma_full_of(ResourceCap::Soft(0));
    }
    sa_res.add_refresh(RefreshTiming::StartMyTurn, RefreshBy::ToEmpty);
    sa_res.add_refresh(RefreshTiming::EndMyTurn, RefreshBy::ToEmpty);
    assert(sa_res@.refresh =~= map![RefreshTiming::StartMyTurn => RefreshBy::ToEmpty, RefreshTiming::EndMyTurn => RefreshBy::ToEmpty]);
    assert(sa_res@.expirations =~= Set::<RefreshTiming>::empty());
    rm.add_perm(ResourceName::AT(ActionType::SingleAttack), sa_res);

    assert(rm@.perm =~= starting_resources());
    rm
}

/// Spending one use lowers the total of a resource by one, never below zero,
/// unless a temporary resource that is already used up is held.
pub proof fn lemma_spend_lowers_total(m: ResourceManagerModel, rn: ResourceName)
    requires
        !(m.temp.contains_key(rn) && m.temp[rn].current == 0),
    ensures
        total(after_spend(m, rn), rn) == if total(m, rn) > 0 { total(m, rn) - 1 } else { 0 },
{
}

/// A gain under a hard cap never lifts an amount within the cap above it.
pub proof fn lemma_gain_within_hard_cap(cap: usize, cur: usize, uses: usize)
    requires
        cur <= cap,
        gain_fits(cur, uses),
    ensures
        cur <= after_gain(ResourceCap::Hard(cap), cur, uses) <= cap,
{
}

} // verus!
