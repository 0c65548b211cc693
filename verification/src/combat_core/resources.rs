pub mod resource_amounts;

use vstd::prelude::*;
use crate::combat_core::actions::{ActionName, ActionType, AttackType};
use crate::combat_core::movement::Feet;
use crate::combat_core::resources::resource_amounts::{
    RefreshBy, ResourceCap, ResourceCount, cap_sum, cap_sum_fits, cap_value, count_at_least,
    count_minus, count_of_cap, count_plus, count_plus_fits, count_set, count_sum,
    count_sum_fits,
};
use crate::combat_core::spells::SpellSlot;
use crate::combat_core::triggers::TriggerName;

verus! {

/// The kinds of action economy, as resources.
#[derive(Debug, Clone, Copy, PartialEq, Eq, Structural, Hash, PartialOrd, Ord)]
pub enum ResourceActionType {
    Action,
    SingleAttack,
    BonusAction,
    Reaction,
    FreeAction,
}

/// The name of a resource.
#[derive(Debug, Clone, Copy, PartialEq, Eq, Structural, Hash, PartialOrd, Ord)]
pub enum ResourceName {
    RAT(ResourceActionType),
    Movement,
    AN(ActionName),
    TN(TriggerName),
    SS(SpellSlot),
}

/// The resource that an action type consumes; both kinds of movement use movement.
pub open spec fn resource_of_action_type(value: ActionType) -> ResourceName {
    match value {
        ActionType::Action => ResourceName::RAT(ResourceActionType::Action),
        ActionType::SingleAttack => ResourceName::RAT(ResourceActionType::SingleAttack),
        ActionType::BonusAction => ResourceName::RAT(ResourceActionType::BonusAction),
        ActionType::Reaction => ResourceName::RAT(ResourceActionType::Reaction),
        ActionType::FreeAction => ResourceName::RAT(ResourceActionType::FreeAction),
        ActionType::HalfMove => ResourceName::Movement,
        ActionType::Movement => ResourceName::Movement,
    }
}

impl From<ActionType> for ResourceName {
    fn from(value: ActionType) -> (r: Self) {
        match value {
            ActionType::Action => ResourceName::RAT(ResourceActionType::Action),
            ActionType::SingleAttack => ResourceName::RAT(ResourceActionType::SingleAttack),
            ActionType::BonusAction => ResourceName::RAT(ResourceActionType::BonusAction),
            ActionType::Reaction => ResourceName::RAT(ResourceActionType::Reaction),
            ActionType::FreeAction => ResourceName::RAT(ResourceActionType::FreeAction),
            ActionType::HalfMove | ActionType::Movement => ResourceName::Movement,
        }
    }
}

impl vstd::std_specs::convert::FromSpecImpl<ActionType> for ResourceName {
    open spec fn obeys_from_spec() -> bool {
        true
    }

    open spec fn from_spec(v: ActionType) -> ResourceName {
        resource_of_action_type(v)
    }
}

impl From<ActionName> for ResourceName {
    fn from(value: ActionName) -> (r: Self) {
        ResourceName::AN(value)
    }
}

impl vstd::std_specs::convert::FromSpecImpl<ActionName> for ResourceName {
    open spec fn obeys_from_spec() -> bool {
        true
    }

    open spec fn from_spec(v: ActionName) -> ResourceName {
        ResourceName::AN(v)
    }
}

impl From<TriggerName> for ResourceName {
    fn from(value: TriggerName) -> (r: Self) {
        ResourceName::TN(value)
    }
}

impl vstd::std_specs::convert::FromSpecImpl<TriggerName> for ResourceName {
    open spec fn obeys_from_spec() -> bool {
        true
    }

    open spec fn from_spec(v: TriggerName) -> ResourceName {
        ResourceName::TN(v)
    }
}

/// The number of distinct resource names.
pub const NUM_RESOURCE_NAMES: usize = 38;

/// Position of an attack type.
pub open spec fn at_index(a: AttackType) -> int {
    match a {
        AttackType::Normal => 0,
        AttackType::GWMAttack => 1,
        AttackType::SSAttack => 2,
    }
}

/// Position of an action name.
pub open spec fn an_index(a: ActionName) -> int {
    match a {
        ActionName::PrimaryAttack(t) => at_index(t),
        ActionName::OffhandAttack(t) => 3 + at_index(t),
        ActionName::BonusPAMAttack(t) => 6 + at_index(t),
        ActionName::AttackAction => 9,
        ActionName::BonusGWMAttack => 10,
        ActionName::SecondWind => 11,
        ActionName::ActionSurge => 12,
        ActionName::Indomitable => 13,
        ActionName::ShoveProne => 14,
        ActionName::PlanarWarrior => 15,
        ActionName::FavoredFoeApply => 16,
        ActionName::FavoredFoeUse => 17,
    }
}

/// Position of a resource name among all resource names.
pub open spec fn rn_index(rn: ResourceName) -> int {
    match rn {
        ResourceName::RAT(r) => match r {
            ResourceActionType::Action => 0,
            ResourceActionType::SingleAttack => 1,
            ResourceActionType::BonusAction => 2,
            ResourceActionType::Reaction => 3,
            ResourceActionType::FreeAction => 4,
        },
        ResourceName::Movement => 5,
        ResourceName::AN(a) => 6 + an_index(a),
        ResourceName::TN(t) => match t {
            TriggerName::SneakAttack => 24,
            TriggerName::GWMBonusAtk => 25,
            TriggerName::FavoredFoeKill => 26,
            TriggerName::HasteLethargy => 27,
        },
        ResourceName::SS(s) => match s {
            SpellSlot::Cantrip => 28,
            SpellSlot::First => 29,
            SpellSlot::Second => 30,
            SpellSlot::Third => 31,
            SpellSlot::Fourth => 32,
            SpellSlot::Fifth => 33,
            SpellSlot::Sixth => 34,
            SpellSlot::Seventh => 35,
            SpellSlot::Eighth => 36,
            SpellSlot::Ninth => 37,
        },
    }
}

/// Distinct resource names have distinct positions, all below the number of names.
pub proof fn lemma_rn_index(a: ResourceName, b: ResourceName)
    ensures
        0 <= rn_index(a) < NUM_RESOURCE_NAMES,
        rn_index(a) == rn_index(b) ==> a == b,
{
    match a {
        ResourceName::AN(x) => match b {
            ResourceName::AN(y) => {
                match x {
                    ActionName::PrimaryAttack(t) => match t { _ => {} },
                    ActionName::OffhandAttack(t) => match t { _ => {} },
                    ActionName::BonusPAMAttack(t) => match t { _ => {} },
                    _ => {},
                }
                match y {
                    ActionName::PrimaryAttack(t) => match t { _ => {} },
                    ActionName::OffhandAttack(t) => match t { _ => {} },
                    ActionName::BonusPAMAttack(t) => match t { _ => {} },
                    _ => {},
                }
            },
            _ => {
                match x {
                    ActionName::PrimaryAttack(t) => match t { _ => {} },
                    ActionName::OffhandAttack(t) => match t { _ => {} },
                    ActionName::BonusPAMAttack(t) => match t { _ => {} },
                    _ => {},
                }
            },
        },
        _ => match b {
            ResourceName::AN(y) => {
                match y {
                    ActionName::PrimaryAttack(t) => match t { _ => {} },
                    ActionName::OffhandAttack(t) => match t { _ => {} },
                    ActionName::BonusPAMAttack(t) => match t { _ => {} },
                    _ => {},
                }
            },
            _ => {},
        },
    }
}

impl ResourceName {
    /// Position of the name among all resource names.
    pub fn index(&self) -> (r: usize)
        ensures
            r == rn_index(*self),
    {
        match self {
            ResourceName::RAT(r) => match r {
                ResourceActionType::Action => 0,
                ResourceActionType::SingleAttack => 1,
                ResourceActionType::BonusAction => 2,
                ResourceActionType::Reaction => 3,
                ResourceActionType::FreeAction => 4,
            },
            ResourceName::Movement => 5,
            ResourceName::AN(a) => {
                let t = |t: AttackType| -> (r: usize)
                    ensures r == at_index(t)
                {
                    match t {
                        AttackType::Normal => 0,
                        AttackType::GWMAttack => 1,
                        AttackType::SSAttack => 2,
                    }
                };
                match a {
                    ActionName::PrimaryAttack(x) => 6 + t(*x),
                    ActionName::OffhandAttack(x) => 9 + t(*x),
                    ActionName::BonusPAMAttack(x) => 12 + t(*x),
                    ActionName::AttackAction => 15,
                    ActionName::BonusGWMAttack => 16,
                    ActionName::SecondWind => 17,
                    ActionName::ActionSurge => 18,
                    ActionName::Indomitable => 19,
                    ActionName::ShoveProne => 20,
                    ActionName::PlanarWarrior => 21,
                    ActionName::FavoredFoeApply => 22,
                    ActionName::FavoredFoeUse => 23,
                }
            },
            ResourceName::TN(t) => match t {
                TriggerName::SneakAttack => 24,
                TriggerName::GWMBonusAtk => 25,
                TriggerName::FavoredFoeKill => 26,
                TriggerName::HasteLethargy => 27,
            },
            ResourceName::SS(s) => match s {
                SpellSlot::Cantrip => 28,
                SpellSlot::First => 29,
                SpellSlot::Second => 30,
                SpellSlot::Third => 31,
                SpellSlot::Fourth => 32,
                SpellSlot::Fifth => 33,
                SpellSlot::Sixth => 34,
                SpellSlot::Seventh => 35,
                SpellSlot::Eighth => 36,
                SpellSlot::Ninth => 37,
            },
        }
    }
}

/// When a resource is refreshed or expires.
#[derive(Debug, Clone, Copy, PartialEq, Eq, Structural, Hash, PartialOrd, Ord)]
pub enum RefreshTiming {
    StartRound,
    EndRound,
    StartMyTurn,
    EndMyTurn,
    StartOtherTurn,
    EndOtherTurn,
    ShortRest,
    LongRest,
}

/// Position of a refresh timing.
pub open spec fn rt_index(t: RefreshTiming) -> int {
    match t {
        RefreshTiming::StartRound => 0,
        RefreshTiming::EndRound => 1,
        RefreshTiming::StartMyTurn => 2,
        RefreshTiming::EndMyTurn => 3,
        RefreshTiming::StartOtherTurn => 4,
        RefreshTiming::EndOtherTurn => 5,
        RefreshTiming::ShortRest => 6,
        RefreshTiming::LongRest => 7,
    }
}

/// Distinct timings have distinct positions, all below eight.
pub proof fn lemma_rt_index(a: RefreshTiming, b: RefreshTiming)
    ensures
        0 <= rt_index(a) < 8,
        rt_index(a) == rt_index(b) ==> a == b,
{
}

impl RefreshTiming {
    /// Position of the timing in declaration order.
    pub fn index(&self) -> (r: usize)
        ensures
            r == rt_index(*self),
    {
        match self {
            RefreshTiming::StartRound => 0,
            RefreshTiming::EndRound => 1,
            RefreshTiming::StartMyTurn => 2,
            RefreshTiming::EndMyTurn => 3,
            RefreshTiming::StartOtherTurn => 4,
            RefreshTiming::EndOtherTurn => 5,
            RefreshTiming::ShortRest => 6,
            RefreshTiming::LongRest => 7,
        }
    }
}


/// Whether gaining `uses` is defined for a resource of cap `max` that holds `cur`:
/// under a hard cap the amount must be a count, and the sum must fit a `usize`.
pub open spec fn gain_defined(max: ResourceCap, cur: ResourceCount, uses: usize) -> bool {
    match max {
        ResourceCap::Hard(_) => cur is Count && cur->0 + uses <= usize::MAX,
        _ => count_plus_fits(cur, uses),
    }
}

/// The amount after gaining `uses`: a hard cap stops the gain at the cap;
/// otherwise the gain is added (an unlimited amount stays unlimited).
pub open spec fn gained(max: ResourceCap, cur: ResourceCount, uses: usize) -> ResourceCount {
    match max {
        ResourceCap::Hard(cap) => ResourceCount::Count(
            if cur->0 + uses <= cap { (cur->0 + uses) as usize } else { cap },
        ),
        _ => count_plus(cur, uses),
    }
}

/// The amount after filling up to the cap: unlimited for no cap; otherwise
/// the cap's number (an unlimited amount stays unlimited).
pub open spec fn filled(max: ResourceCap, cur: ResourceCount) -> ResourceCount {
    match max {
        ResourceCap::UnCapped => ResourceCount::UnCapped,
        ResourceCap::Soft(n) => count_set(cur, n),
        ResourceCap::Hard(n) => count_set(cur, n),
    }
}

/// What `spend_many` leaves unpaid: nothing when the amount covers it,
/// else the part of `amount` beyond the count.
pub open spec fn unpaid(cur: ResourceCount, amount: usize) -> usize {
    if count_at_least(cur, amount as int) {
        0
    } else {
        (amount - cur->0) as usize
    }
}

/// The mathematical content of a resource.
pub struct ResourceModel {
    /// The cap.
    pub max: ResourceCap,
    /// The amount held.
    pub current: ResourceCount,
    /// How the resource is refilled at each timing that refills it.
    pub refresh: Map<RefreshTiming, RefreshBy>,
    /// The timings at which a temporary resource disappears.
    pub expirations: Set<RefreshTiming>,
}

/// Whether refreshing at `t` is defined (a constant refill must be a defined gain).
pub open spec fn refresh_defined(r: ResourceModel, t: RefreshTiming) -> bool {
    r.refresh.contains_key(t) ==> match r.refresh[t] {
        RefreshBy::Const(c) => gain_defined(r.max, r.current, c),
        _ => true,
    }
}

/// The amount after refreshing at `t`.
pub open spec fn refreshed(r: ResourceModel, t: RefreshTiming) -> ResourceCount {
    if r.refresh.contains_key(t) {
        match r.refresh[t] {
            RefreshBy::Const(c) => gained(r.max, r.current, c),
            RefreshBy::ToFull => count_of_cap(r.max),
            RefreshBy::ToEmpty => count_set(r.current, 0),
        }
    } else {
        r.current
    }
}

/// A resource with a cap, an amount, the timings that refill it and the
/// timings at which it expires.
#[derive(Debug, Clone, Copy)]
pub struct Resource {
    max: ResourceCap,
    current: ResourceCount,
    refresh_map: [Option<RefreshBy>; 8],
    expirations: [bool; 8],
}

impl View for Resource {
    type V = ResourceModel;

    closed spec fn view(&self) -> ResourceModel {
        ResourceModel {
            max: self.max,
            current: self.current,
            refresh: Map::new(
                |t: RefreshTiming| self.refresh_map@[rt_index(t)] is Some,
                |t: RefreshTiming| self.refresh_map@[rt_index(t)]->0,
            ),
            expirations: Set::new(|t: RefreshTiming| self.expirations@[rt_index(t)]),
        }
    }
}

/// The same resource with another amount.
pub open spec fn with_current(r: ResourceModel, c: ResourceCount) -> ResourceModel {
    ResourceModel { current: c, ..r }
}

/// The resource refilled `by` at `t`, and no longer expiring then.
pub open spec fn with_refresh(r: ResourceModel, t: RefreshTiming, by: RefreshBy) -> ResourceModel {
    ResourceModel { refresh: r.refresh.insert(t, by), expirations: r.expirations.remove(t), ..r }
}

/// The resource expiring at `t`, and no longer refilled then.
pub open spec fn with_expiration(r: ResourceModel, t: RefreshTiming) -> ResourceModel {
    ResourceModel { refresh: r.refresh.remove(t), expirations: r.expirations.insert(t), ..r }
}

/// No timing both refills and ends the resource.
pub open spec fn timings_disjoint(r: ResourceModel) -> bool {
    forall|t: RefreshTiming| !(r.refresh.contains_key(t) && #[trigger] r.expirations.contains(t))
}

impl Resource {
    /// A resource with the given cap and amount, never refreshed and never expiring.
    pub fn new(max: ResourceCap, current: ResourceCount) -> (r: Self)
        ensures
            r@ == (ResourceModel {
                max,
                current,
                refresh: Map::<RefreshTiming, RefreshBy>::empty(),
                expirations: Set::<RefreshTiming>::empty(),
            }),
    {
        let r = Resource { max, current, refresh_map: [None; 8], expirations: [false; 8] };
        assert(r@.refresh =~= Map::<RefreshTiming, RefreshBy>::empty());
        assert(r@.expirations =~= Set::<RefreshTiming>::empty());
        r
    }

    /// A full resource that refills to full on a long rest.
    pub fn refill_lr(max: ResourceCap) -> (r: Self)
        ensures
            r@ == (ResourceModel {
                max,
                current: count_of_cap(max),
                refresh: map![RefreshTiming::LongRest => RefreshBy::ToFull],
                expirations: Set::<RefreshTiming>::empty(),
            }),
    {
        let mut refresh_map: [Option<RefreshBy>; 8] = [None; 8];
        refresh_map[RefreshTiming::LongRest.index()] = Some(RefreshBy::ToFull);
        let mut current = ResourceCount::UnCapped;
        if !max.is_uncapped() {
            current = ResourceCount::Count(max.cap().unwrap());
        }
        let r = Resource { max, current, refresh_map, expirations: [false; 8] };
        proof {
            assert forall|t: RefreshTiming| r@.refresh.contains_key(t) <==> t == RefreshTiming::LongRest by {
                lemma_rt_index(t, RefreshTiming::LongRest);
            }
        }
        assert(r@.refresh =~= map![RefreshTiming::LongRest => RefreshBy::ToFull]);
        assert(r@.expirations =~= Set::<RefreshTiming>::empty());
        r
    }

    /// The cap.
    pub fn get_max(&self) -> (r: ResourceCap)
        ensures
            r == self@.max,
    {
        self.max
    }

    /// Replaces the cap; nothing else changes.
    pub fn set_max(&mut self, new_max: ResourceCap)
        ensures
            final(self)@ == (ResourceModel { max: new_max, ..old(self)@ }),
    {
        self.max = new_max;
    }

    /// The amount held.
    pub fn get_current(&self) -> (r: ResourceCount)
        ensures
            r == self@.current,
    {
        self.current
    }

    /// Spends `amount`, as far as the amount held covers it, and returns the
    /// part left unpaid. An unlimited amount pays anything.
    pub fn spend_many(&mut self, amount: usize) -> (left: usize)
        ensures
            final(self)@ == with_current(old(self)@, count_minus(old(self)@.current, amount)),
            left == unpaid(old(self)@.current, amount),
    {
        if self.current.ge_num(amount) {
            self.current.sub_num(amount);
            0
        } else {
            let leftover = amount - self.current.count().unwrap();
            self.current.set_count(0);
            leftover
        }
    }

    /// Spends one use if any is left.
    pub fn spend(&mut self)
        ensures
            final(self)@ == with_current(old(self)@, count_minus(old(self)@.current, 1)),
    {
        if self.current.gt_num(0) {
            self.current.sub_num(1);
        }
    }

    /// Gains `uses`; a hard cap stops the gain at the cap.
    pub fn gain(&mut self, uses: usize)
        requires
            gain_defined(old(self)@.max, old(self)@.current, uses),
        ensures
            final(self)@ == with_current(old(self)@, gained(old(self)@.max, old(self)@.current, uses)),
    {
        if let ResourceCap::Hard(cap) = self.max {
            let sum = self.current.count().unwrap() + uses;
            self.current.set_count(if sum <= cap { sum } else { cap });
        } else {
            self.current.add_num(uses);
        }
    }

    /// Fills the resource up to its cap.
    pub fn gain_to_full(&mut self)
        ensures
            final(self)@ == with_current(old(self)@, filled(old(self)@.max, old(self)@.current)),
    {
        if self.max.is_uncapped() {
            self.current = ResourceCount::UnCapped;
        } else {
            self.current.set_count(self.max.cap().unwrap());
        }
    }

    /// Empties the resource (an unlimited amount stays unlimited).
    pub fn drain(&mut self)
        ensures
            final(self)@ == with_current(old(self)@, count_set(old(self)@.current, 0)),
    {
        self.current.set_count(0);
    }

    /// Makes the resource refill `by` at `timing`, and no longer expire then.
    pub fn add_refresh(&mut self, timing: RefreshTiming, by: RefreshBy)
        ensures
            final(self)@ == with_refresh(old(self)@, timing, by),
    {
        let i = timing.index();
        self.expirations[i] = false;
        self.refresh_map[i] = Some(by);
        proof {
            assert forall|t: RefreshTiming| rt_index(t) == i <==> t == timing by {
                lemma_rt_index(t, timing);
            }
        }
        assert(self@.refresh =~= old(self)@.refresh.insert(timing, by));
        assert(self@.expirations =~= old(self)@.expirations.remove(timing));
    }

    /// Makes the resource expire at `timing`, and no longer refill then.
    pub fn add_expiration(&mut self, timing: RefreshTiming)
        ensures
            final(self)@ == with_expiration(old(self)@, timing),
    {
        let i = timing.index();
        self.refresh_map[i] = None;
        self.expirations[i] = true;
        proof {
            assert forall|t: RefreshTiming| rt_index(t) == i <==> t == timing by {
                lemma_rt_index(t, timing);
            }
        }
        assert(self@.refresh =~= old(self)@.refresh.remove(timing));
        assert(self@.expirations =~= old(self)@.expirations.insert(timing));
    }

    /// Refills the resource as it is to be refilled at `timing`, if at all.
    pub fn refresh(&mut self, timing: RefreshTiming)
        requires
            refresh_defined(old(self)@, timing),
        ensures
            final(self)@ == with_current(old(self)@, refreshed(old(self)@, timing)),
    {
        match self.refresh_map[timing.index()] {
            Some(RefreshBy::Const(c)) => self.gain(c),
            Some(RefreshBy::ToFull) => self.current = ResourceCount::from(self.max),
            Some(RefreshBy::ToEmpty) => self.current.set_count(0),
            None => {},
        }
    }

    /// Whether the resource expires at `timing`.
    pub fn expires(&self, timing: RefreshTiming) -> (r: bool)
        ensures
            r == self@.expirations.contains(timing),
    {
        self.expirations[timing.index()]
    }

    /// Whether both resources have the same cap, amount, refills and expirations.
    pub fn same_as(&self, other: &Resource) -> (r: bool)
        ensures
            r == (self@ == other@),
    {
        if self.max != other.max || self.current != other.current {
            return false;
        }
        let mut i: usize = 0;
        while i < 8
            invariant
                i <= 8,
                forall|k: int| 0 <= k < i ==> self.refresh_map@[k] == other.refresh_map@[k],
                forall|k: int| 0 <= k < i ==> self.expirations@[k] == other.expirations@[k],
            decreases 8 - i,
        {
            let same_refresh = match (self.refresh_map[i], other.refresh_map[i]) {
                (None, None) => true,
                (Some(a), Some(b)) => a == b,
                _ => false,
            };
            if !same_refresh || self.expirations[i] != other.expirations[i] {
                proof {
                    let t = lemma_rt_onto(i as int);
                    if !same_refresh {
                        assert(self@.refresh.contains_key(t) != other@.refresh.contains_key(t)
                            || self@.refresh[t] != other@.refresh[t]);
                    } else {
                        assert(self@.expirations.contains(t) != other@.expirations.contains(t));
                    }
                }
                return false;
            }
            i = i + 1;
        }
        proof {
            assert forall|t: RefreshTiming| #![trigger rt_index(t)] 0 <= rt_index(t) < 8 by {
                lemma_rt_index(t, t);
            }
        }
        assert(self@.refresh =~= other@.refresh);
        assert(self@.expirations =~= other@.expirations);
        true
    }
}

/// Every position below eight is the position of some timing.
proof fn lemma_rt_onto(i: int) -> (t: RefreshTiming)
    requires
        0 <= i < 8,
    ensures
        rt_index(t) == i,
{
    if i == 0 { RefreshTiming::StartRound }
    else if i == 1 { RefreshTiming::EndRound }
    else if i == 2 { RefreshTiming::StartMyTurn }
    else if i == 3 { RefreshTiming::EndMyTurn }
    else if i == 4 { RefreshTiming::StartOtherTurn }
    else if i == 5 { RefreshTiming::EndOtherTurn }
    else if i == 6 { RefreshTiming::ShortRest }
    else { RefreshTiming::LongRest }
}

impl Resource {
    /// A full resource of cap `c`, never refreshed and never expiring.
    pub closed spec fn full_of_cap(c: ResourceCap) -> Resource {
        Resource {
            max: c,
            current: count_of_cap(c),
            refresh_map: vstd::array::spec_array_fill_for_copy_type(None),
            expirations: vstd::array::spec_array_fill_for_copy_type(false),
        }
    }

    /// What a full resource of cap `c` is.
    pub proof fn lemma_full_of_cap(c: ResourceCap)
        ensures
            Self::full_of_cap(c)@ == (ResourceModel {
                max: c,
                current: count_of_cap(c),
                refresh: Map::<RefreshTiming, RefreshBy>::empty(),
                expirations: Set::<RefreshTiming>::empty(),
            }),
    {
        let r = Self::full_of_cap(c);
        assert forall|t: RefreshTiming| !(#[trigger] r.refresh_map@[rt_index(t)] is Some) && !r.expirations@[rt_index(t)] by {
            lemma_rt_index(t, t);
        }
        assert(r@.refresh =~= Map::<RefreshTiming, RefreshBy>::empty());
        assert(r@.expirations =~= Set::<RefreshTiming>::empty());
    }
}

impl From<ResourceCap> for Resource {
    fn from(value: ResourceCap) -> (r: Self) {
        Resource { max: value, current: ResourceCount::from(value), refresh_map: [None; 8], expirations: [false; 8] }
    }
}

impl vstd::std_specs::convert::FromSpecImpl<ResourceCap> for Resource {
    open spec fn obeys_from_spec() -> bool {
        true
    }

    open spec fn from_spec(v: ResourceCap) -> Resource {
        Resource::full_of_cap(v)
    }
}

/// Every position below the number of names is the position of some name.
proof fn lemma_index_onto(i: int) -> (rn: ResourceName)
    requires
        0 <= i < NUM_RESOURCE_NAMES,
    ensures
        rn_index(rn) == i,
{
    let at = |j: int| if j == 0 { AttackType::Normal } else if j == 1 { AttackType::GWMAttack } else { AttackType::SSAttack };
    if i < 5 {
        ResourceName::RAT(
            if i == 0 { ResourceActionType::Action }
            else if i == 1 { ResourceActionType::SingleAttack }
            else if i == 2 { ResourceActionType::BonusAction }
            else if i == 3 { ResourceActionType::Reaction }
            else { ResourceActionType::FreeAction },
        )
    } else if i == 5 {
        ResourceName::Movement
    } else if i < 24 {
        let j = i - 6;
        ResourceName::AN(
            if j < 3 { ActionName::PrimaryAttack(at(j)) }
            else if j < 6 { ActionName::OffhandAttack(at(j - 3)) }
            else if j < 9 { ActionName::BonusPAMAttack(at(j - 6)) }
            else if j == 9 { ActionName::AttackAction }
            else if j == 10 { ActionName::BonusGWMAttack }
            else if j == 11 { ActionName::SecondWind }
            else if j == 12 { ActionName::ActionSurge }
            else if j == 13 { ActionName::Indomitable }
            else if j == 14 { ActionName::ShoveProne }
            else if j == 15 { ActionName::PlanarWarrior }
            else if j == 16 { ActionName::FavoredFoeApply }
            else { ActionName::FavoredFoeUse },
        )
    } else if i < 28 {
        ResourceName::TN(
            if i == 24 { TriggerName::SneakAttack }
            else if i == 25 { TriggerName::GWMBonusAtk }
            else if i == 26 { TriggerName::FavoredFoeKill }
            else { TriggerName::HasteLethargy },
        )
    } else {
        ResourceName::SS(
            if i == 28 { SpellSlot::Cantrip }
            else if i == 29 { SpellSlot::First }
            else if i == 30 { SpellSlot::Second }
            else if i == 31 { SpellSlot::Third }
            else if i == 32 { SpellSlot::Fourth }
            else if i == 33 { SpellSlot::Fifth }
            else if i == 34 { SpellSlot::Sixth }
            else if i == 35 { SpellSlot::Seventh }
            else if i == 36 { SpellSlot::Eighth }
            else { SpellSlot::Ninth },
        )
    }
}

/// The resources held in a table indexed by resource name.
spec fn slots_of(v: Seq<Option<Resource>>) -> Map<ResourceName, ResourceModel> {
    Map::new(|rn: ResourceName| v[rn_index(rn)] is Some, |rn: ResourceName| v[rn_index(rn)]->0@)
}

/// Whether two tables indexed by resource name hold the same resources.
fn same_slots(a: &Vec<Option<Resource>>, b: &Vec<Option<Resource>>) -> (r: bool)
    requires
        a@.len() == NUM_RESOURCE_NAMES,
        b@.len() == NUM_RESOURCE_NAMES,
    ensures
        r == (slots_of(a@) == slots_of(b@)),
{
    let mut i: usize = 0;
    while i < a.len()
        invariant
            i <= a@.len() == b@.len() == NUM_RESOURCE_NAMES,
            forall|k: int| 0 <= k < i ==> (#[trigger] a@[k] is Some) == (b@[k] is Some),
            forall|k: int| 0 <= k < i && a@[k] is Some ==> (#[trigger] a@[k])->0@ == b@[k]->0@,
        decreases a@.len() - i,
    {
        let same = match (&a[i], &b[i]) {
            (None, None) => true,
            (Some(x), Some(y)) => x.same_as(y),
            _ => false,
        };
        if !same {
            proof {
                let rn = lemma_index_onto(i as int);
                assert(slots_of(a@).contains_key(rn) != slots_of(b@).contains_key(rn)
                    || slots_of(a@)[rn] != slots_of(b@)[rn]);
            }
            return false;
        }
        i = i + 1;
    }
    proof {
        assert forall|rn: ResourceName| #![trigger rn_index(rn)] 0 <= rn_index(rn) < NUM_RESOURCE_NAMES by {
            lemma_rn_index(rn, rn);
        }
    }
    assert(slots_of(a@) =~= slots_of(b@));
    true
}

/// Writing one slot of the table changes the map at that name only.
proof fn lemma_slots_update(v: Seq<Option<Resource>>, rn: ResourceName, val: Option<Resource>)
    requires
        v.len() == NUM_RESOURCE_NAMES,
    ensures
        slots_of(v.update(rn_index(rn), val)) == (match val {
            Some(r) => slots_of(v).insert(rn, r@),
            None => slots_of(v).remove(rn),
        }),
{
    lemma_rn_index(rn, rn);
    assert forall|k: ResourceName| rn_index(k) == rn_index(rn) <==> k == rn by {
        lemma_rn_index(k, rn);
    }
    match val {
        Some(r) => {
            assert(slots_of(v.update(rn_index(rn), val)) =~= slots_of(v).insert(rn, r@));
        },
        None => {
            assert(slots_of(v.update(rn_index(rn), val)) =~= slots_of(v).remove(rn));
        },
    }
}

/// A table with every slot empty.
fn empty_slots() -> (v: Vec<Option<Resource>>)
    ensures
        v@.len() == NUM_RESOURCE_NAMES,
        slots_of(v@) == Map::<ResourceName, ResourceModel>::empty(),
{
    let mut v: Vec<Option<Resource>> = Vec::new();
    let mut i: usize = 0;
    while i < NUM_RESOURCE_NAMES
        invariant
            i <= NUM_RESOURCE_NAMES,
            v@.len() == i,
            forall|k: int| 0 <= k < i ==> v@[k] is None,
        decreases NUM_RESOURCE_NAMES - i,
    {
        v.push(None);
        i = i + 1;
    }
    proof {
        assert forall|rn: ResourceName| !(#[trigger] slots_of(v@).contains_key(rn)) by {
            lemma_rn_index(rn, rn);
        }
    }
    assert(slots_of(v@) =~= Map::<ResourceName, ResourceModel>::empty());
    v
}

/// The mathematical content of a resource manager.
pub struct ResourceManagerModel {
    /// The permanent resources, by name.
    pub perm: Map<ResourceName, ResourceModel>,
    /// The temporary resources, by name; they are spent first.
    pub temp: Map<ResourceName, ResourceModel>,
}

/// The amount held in `res` under `rn`, zero when there is none.
pub open spec fn amount_or_zero(res: Map<ResourceName, ResourceModel>, rn: ResourceName) -> ResourceCount {
    if res.contains_key(rn) {
        res[rn].current
    } else {
        ResourceCount::Count(0)
    }
}

/// The cap of `res` under `rn`, a hard zero when there is none.
pub open spec fn cap_or_zero(res: Map<ResourceName, ResourceModel>, rn: ResourceName) -> ResourceCap {
    if res.contains_key(rn) {
        res[rn].max
    } else {
        ResourceCap::Hard(0)
    }
}

/// Whether the manager holds a resource of that name.
pub open spec fn holds(m: ResourceManagerModel, rn: ResourceName) -> bool {
    m.perm.contains_key(rn) || m.temp.contains_key(rn)
}

/// The total amount of a resource: temporary plus permanent.
pub open spec fn current_of(m: ResourceManagerModel, rn: ResourceName) -> ResourceCount {
    count_sum(amount_or_zero(m.temp, rn), amount_or_zero(m.perm, rn))
}

/// The total amount fits a `usize`.
pub open spec fn current_defined(m: ResourceManagerModel, rn: ResourceName) -> bool {
    count_sum_fits(amount_or_zero(m.temp, rn), amount_or_zero(m.perm, rn))
}

/// Every total amount fits a `usize`.
pub open spec fn totals_fit(m: ResourceManagerModel) -> bool {
    forall|rn: ResourceName| #[trigger] current_defined(m, rn)
}

/// The manager holds at least one use of the resource, in total.
pub open spec fn has_use(m: ResourceManagerModel, rn: ResourceName) -> bool {
    count_at_least(current_of(m, rn), 1)
}

/// The total cap of a resource: temporary plus permanent.
pub open spec fn cap_of(m: ResourceManagerModel, rn: ResourceName) -> ResourceCap {
    cap_sum(cap_or_zero(m.temp, rn), cap_or_zero(m.perm, rn))
}

/// The total cap fits a `usize`.
pub open spec fn cap_defined(m: ResourceManagerModel, rn: ResourceName) -> bool {
    cap_sum_fits(cap_or_zero(m.temp, rn), cap_or_zero(m.perm, rn))
}

/// A full resource of cap `c` that refills to full on a long rest.
pub open spec fn long_rest_model(c: ResourceCap) -> ResourceModel {
    ResourceModel {
        max: c,
        current: count_of_cap(c),
        refresh: map![RefreshTiming::LongRest => RefreshBy::ToFull],
        expirations: Set::<RefreshTiming>::empty(),
    }
}

/// The cap of a spell slot level given the slots per level: cantrips are uncapped.
pub open spec fn slot_cap(s: SpellSlot, slots: Seq<usize>) -> ResourceCap {
    match s {
        SpellSlot::Cantrip => ResourceCap::UnCapped,
        SpellSlot::First => ResourceCap::Hard(slots[1]),
        SpellSlot::Second => ResourceCap::Hard(slots[2]),
        SpellSlot::Third => ResourceCap::Hard(slots[3]),
        SpellSlot::Fourth => ResourceCap::Hard(slots[4]),
        SpellSlot::Fifth => ResourceCap::Hard(slots[5]),
        SpellSlot::Sixth => ResourceCap::Hard(slots[6]),
        SpellSlot::Seventh => ResourceCap::Hard(slots[7]),
        SpellSlot::Eighth => ResourceCap::Hard(slots[8]),
        SpellSlot::Ninth => ResourceCap::Hard(slots[9]),
    }
}

/// The spell slot resources for the given slots per level.
pub open spec fn spell_slot_resources(slots: Seq<usize>) -> Map<ResourceName, ResourceModel> {
    Map::new(|rn: ResourceName| rn is SS, |rn: ResourceName| long_rest_model(slot_cap(rn->SS_0, slots)))
}

/// The resources that survive timing `rt`: those that do not expire then.
pub open spec fn unexpired(res: Map<ResourceName, ResourceModel>, rt: RefreshTiming) -> Map<ResourceName, ResourceModel> {
    Map::new(|rn: ResourceName| res.contains_key(rn) && !res[rn].expirations.contains(rt), |rn: ResourceName| res[rn])
}

/// The resources after each has been refreshed at timing `rt`.
pub open spec fn all_refreshed(res: Map<ResourceName, ResourceModel>, rt: RefreshTiming) -> Map<ResourceName, ResourceModel> {
    Map::new(|rn: ResourceName| res.contains_key(rn), |rn: ResourceName| with_current(res[rn], refreshed(res[rn], rt)))
}

/// The manager after `spend_many(rn, amount)`: the temporary resource pays
/// first; the permanent one pays what is left.
pub open spec fn spend_many_model(m: ResourceManagerModel, rn: ResourceName, amount: usize) -> ResourceManagerModel {
    let left = if m.temp.contains_key(rn) { unpaid(m.temp[rn].current, amount) } else { amount };
    ResourceManagerModel {
        temp: if m.temp.contains_key(rn) {
            m.temp.insert(rn, with_current(m.temp[rn], count_minus(m.temp[rn].current, amount)))
        } else {
            m.temp
        },
        perm: if m.perm.contains_key(rn) && left > 0 {
            m.perm.insert(rn, with_current(m.perm[rn], count_minus(m.perm[rn].current, left)))
        } else {
            m.perm
        },
    }
}

/// The manager after `spend(rn)`: one use of the temporary resource if there
/// is one (removed once it holds nothing), else of the permanent one.
pub open spec fn spend_model(m: ResourceManagerModel, rn: ResourceName) -> ResourceManagerModel {
    if m.temp.contains_key(rn) {
        let t = with_current(m.temp[rn], count_minus(m.temp[rn].current, 1));
        ResourceManagerModel {
            perm: m.perm,
            temp: if t.current == ResourceCount::Count(0) { m.temp.remove(rn) } else { m.temp.insert(rn, t) },
        }
    } else {
        ResourceManagerModel {
            perm: if m.perm.contains_key(rn) {
                m.perm.insert(rn, with_current(m.perm[rn], count_minus(m.perm[rn].current, 1)))
            } else {
                m.perm
            },
            temp: m.temp,
        }
    }
}

/// The manager after `drain(rn)`: no temporary resource, an empty permanent one.
pub open spec fn drain_model(m: ResourceManagerModel, rn: ResourceName) -> ResourceManagerModel {
    ResourceManagerModel {
        temp: m.temp.remove(rn),
        perm: if m.perm.contains_key(rn) {
            m.perm.insert(rn, with_current(m.perm[rn], count_set(m.perm[rn].current, 0)))
        } else {
            m.perm
        },
    }
}

/// Whether `gain(rn, uses)` is defined.
pub open spec fn gain_model_defined(m: ResourceManagerModel, rn: ResourceName, uses: usize) -> bool {
    if m.perm.contains_key(rn) {
        gain_defined(m.perm[rn].max, m.perm[rn].current, uses)
    } else if m.temp.contains_key(rn) {
        gain_defined(m.temp[rn].max, m.temp[rn].current, uses)
    } else {
        true
    }
}

/// The manager after `gain(rn, uses)`: the permanent resource gains if there
/// is one, else the temporary one.
pub open spec fn gain_model(m: ResourceManagerModel, rn: ResourceName, uses: usize) -> ResourceManagerModel {
    if m.perm.contains_key(rn) {
        ResourceManagerModel {
            perm: m.perm.insert(rn, with_current(m.perm[rn], gained(m.perm[rn].max, m.perm[rn].current, uses))),
            temp: m.temp,
        }
    } else if m.temp.contains_key(rn) {
        ResourceManagerModel {
            perm: m.perm,
            temp: m.temp.insert(rn, with_current(m.temp[rn], gained(m.temp[rn].max, m.temp[rn].current, uses))),
        }
    } else {
        m
    }
}

/// The manager after `set_cap(rn, cap)`: a permanent resource gets the cap and is filled up.
pub open spec fn set_cap_model(m: ResourceManagerModel, rn: ResourceName, cap: ResourceCap) -> ResourceManagerModel {
    ResourceManagerModel {
        perm: if m.perm.contains_key(rn) {
            m.perm.insert(rn, with_current(ResourceModel { max: cap, ..m.perm[rn] }, filled(cap, m.perm[rn].current)))
        } else {
            m.perm
        },
        temp: m.temp,
    }
}

/// Keeps count of the resources of a combatant: permanent ones, and temporary
/// ones that are spent first and removed once used up or expired.
#[derive(Debug, Clone)]
pub struct ResourceManager {
    perm_resources: Vec<Option<Resource>>,
    temp_resources: Vec<Option<Resource>>,
}

impl View for ResourceManager {
    type V = ResourceManagerModel;

    closed spec fn view(&self) -> ResourceManagerModel {
        ResourceManagerModel { perm: slots_of(self.perm_resources@), temp: slots_of(self.temp_resources@) }
    }
}

impl ResourceManager {
    /// The manager is well formed: one slot per resource name in each table.
    pub closed spec fn wf(&self) -> bool {
        &&& self.perm_resources@.len() == NUM_RESOURCE_NAMES
        &&& self.temp_resources@.len() == NUM_RESOURCE_NAMES
    }

    /// A manager holding nothing.
    pub fn new() -> (r: Self)
        ensures
            r.wf(),
            r@.perm == Map::<ResourceName, ResourceModel>::empty(),
            r@.temp == Map::<ResourceName, ResourceModel>::empty(),
    {
        ResourceManager { perm_resources: empty_slots(), temp_resources: empty_slots() }
    }

    /// The action economy of a combatant with a speed of thirty feet.
    pub fn just_action_types() -> (r: Self)
        ensures
            r.wf(),
            r@.perm == basic_resources(Feet(30)),
            r@.temp == Map::<ResourceName, ResourceModel>::empty(),
    {
        create_basic_rm(Feet(30))
    }

    /// Adds (or replaces) a permanent resource.
    pub fn add_perm(&mut self, rn: ResourceName, res: Resource)
        requires
            old(self).wf(),
        ensures
            final(self).wf(),
            final(self)@.perm == old(self)@.perm.insert(rn, res@),
            final(self)@.temp == old(self)@.temp,
    {
        proof {
            lemma_slots_update(self.perm_resources@, rn, Some(res));
        }
        self.perm_resources.set(rn.index(), Some(res));
    }

    /// Adds (or replaces) a temporary resource, unless it holds nothing.
    pub fn add_temp(&mut self, rn: ResourceName, res: Resource)
        requires
            old(self).wf(),
        ensures
            final(self).wf(),
            final(self)@.perm == old(self)@.perm,
            final(self)@.temp == if count_at_least(res@.current, 1) {
                old(self)@.temp.insert(rn, res@)
            } else {
                old(self)@.temp
            },
    {
        if res.get_current().gt_num(0) {
            proof {
                lemma_slots_update(self.temp_resources@, rn, Some(res));
            }
            self.temp_resources.set(rn.index(), Some(res));
        }
    }

    /// Sets the spell slots: uncapped cantrips and, for each level from the
    /// first to the ninth, `slots[level]` slots, all refilled on a long rest.
    pub fn set_spell_slots(&mut self, slots: [usize; 10])
        requires
            old(self).wf(),
        ensures
            final(self).wf(),
            final(self)@.perm == old(self)@.perm.union_prefer_right(spell_slot_resources(slots@)),
            final(self)@.temp == old(self)@.temp,
    {
        self.add_perm(ResourceName::SS(SpellSlot::Cantrip), Resource::refill_lr(ResourceCap::UnCapped));
        self.add_perm(ResourceName::SS(SpellSlot::First), Resource::refill_lr(ResourceCap::Hard(slots[1])));
        self.add_perm(ResourceName::SS(SpellSlot::Second), Resource::refill_lr(ResourceCap::Hard(slots[2])));
        self.add_perm(ResourceName::SS(SpellSlot::Third), Resource::refill_lr(ResourceCap::Hard(slots[3])));
        self.add_perm(ResourceName::SS(SpellSlot::Fourth), Resource::refill_lr(ResourceCap::Hard(slots[4])));
        self.add_perm(ResourceName::SS(SpellSlot::Fifth), Resource::refill_lr(ResourceCap::Hard(slots[5])));
        self.add_perm(ResourceName::SS(SpellSlot::Sixth), Resource::refill_lr(ResourceCap::Hard(slots[6])));
        self.add_perm(ResourceName::SS(SpellSlot::Seventh), Resource::refill_lr(ResourceCap::Hard(slots[7])));
        self.add_perm(ResourceName::SS(SpellSlot::Eighth), Resource::refill_lr(ResourceCap::Hard(slots[8])));
        self.add_perm(ResourceName::SS(SpellSlot::Ninth), Resource::refill_lr(ResourceCap::Hard(slots[9])));
        assert(self@.perm =~= old(self)@.perm.union_prefer_right(spell_slot_resources(slots@)));
    }

    /// Whether both managers hold the same permanent and temporary resources.
    pub fn same_as(&self, other: &ResourceManager) -> (r: bool)
        requires
            self.wf(),
            other.wf(),
        ensures
            r == (self@ == other@),
    {
        let p = same_slots(&self.perm_resources, &other.perm_resources);
        let t = same_slots(&self.temp_resources, &other.temp_resources);
        p && t
    }

    /// Whether a permanent or temporary resource of that name is held.
    pub fn has_resource(&self, rn: ResourceName) -> (r: bool)
        requires
            self.wf(),
        ensures
            r == holds(self@, rn),
    {
        let i = rn.index();
        self.perm_resources[i].is_some() || self.temp_resources[i].is_some()
    }

    /// Whether every `(name, count)` of `spending` names a resource that is
    /// held with at least that total amount.
    pub fn check_counts(&self, spending: &Vec<(ResourceName, usize)>) -> (r: bool)
        requires
            self.wf(),
            forall|k: int| 0 <= k < spending@.len() ==> current_defined(self@, #[trigger] spending@[k].0),
        ensures
            r == forall|k: int| 0 <= k < spending@.len() ==> {
                &&& holds(self@, #[trigger] spending@[k].0)
                &&& count_at_least(current_of(self@, spending@[k].0), spending@[k].1 as int)
            },
    {
        let n = spending.len();
        let mut i: usize = 0;
        while i < n
            invariant
                self.wf(),
                n == spending@.len(),
                i <= n,
                forall|k: int| 0 <= k < spending@.len() ==> current_defined(self@, #[trigger] spending@[k].0),
                forall|k: int| 0 <= k < i ==> {
                    &&& holds(self@, #[trigger] spending@[k].0)
                    &&& count_at_least(current_of(self@, spending@[k].0), spending@[k].1 as int)
                },
            decreases n - i,
        {
            let (rn, count) = spending[i];
            if !self.has_resource(rn) {
                return false;
            }
            if !self.get_current(rn).ge_num(count) {
                return false;
            }
            i = i + 1;
        }
        true
    }

    /// The total cap: temporary plus permanent, a hard zero for what is not held.
    pub fn get_cap(&self, rn: ResourceName) -> (r: ResourceCap)
        requires
            self.wf(),
            cap_defined(self@, rn),
        ensures
            r == cap_of(self@, rn),
    {
        let i = rn.index();
        let temp_c = match &self.temp_resources[i] {
            Some(r) => r.get_max(),
            None => ResourceCap::Hard(0),
        };
        let perm_c = match &self.perm_resources[i] {
            Some(r) => r.get_max(),
            None => ResourceCap::Hard(0),
        };
        temp_c + perm_c
    }

    /// Changes the cap of a permanent resource and fills it up; nothing
    /// happens when no permanent resource of that name is held.
    pub fn set_cap(&mut self, rn: &ResourceName, cap: ResourceCap)
        requires
            old(self).wf(),
        ensures
            final(self).wf(),
            final(self)@ == set_cap_model(old(self)@, *rn, cap),
    {
        let i = rn.index();
        if let Some(mut res) = self.perm_resources[i] {
            res.set_max(cap);
            res.gain_to_full();
            proof {
                lemma_slots_update(self.perm_resources@, *rn, Some(res));
            }
            self.perm_resources.set(i, Some(res));
        }
    }

    /// The total amount: temporary plus permanent, zero for what is not held.
    pub fn get_current(&self, rn: ResourceName) -> (r: ResourceCount)
        requires
            self.wf(),
            current_defined(self@, rn),
        ensures
            r == current_of(self@, rn),
    {
        let i = rn.index();
        let temp_c = match &self.temp_resources[i] {
            Some(r) => r.get_current(),
            None => ResourceCount::Count(0),
        };
        let perm_c = match &self.perm_resources[i] {
            Some(r) => r.get_current(),
            None => ResourceCount::Count(0),
        };
        temp_c + perm_c
    }

    /// Whether the total amount is what a full resource of the total cap holds.
    pub fn is_full(&self, rn: ResourceName) -> (r: bool)
        requires
            self.wf(),
            current_defined(self@, rn),
            cap_defined(self@, rn),
        ensures
            r == (current_of(self@, rn) == count_of_cap(cap_of(self@, rn))),
    {
        self.get_current(rn).eq_cap(&self.get_cap(rn))
    }

    /// Spends `amount`: first from the temporary resource, then what is left
    /// from the permanent one. A temporary resource used up stays held.
    pub fn spend_many(&mut self, rn: ResourceName, amount: usize)
        requires
            old(self).wf(),
        ensures
            final(self).wf(),
            final(self)@ == spend_many_model(old(self)@, rn, amount),
    {
        let i = rn.index();
        let mut leftover = amount;
        if let Some(mut res) = self.temp_resources[i] {
            leftover = res.spend_many(amount);
            proof {
                lemma_slots_update(self.temp_resources@, rn, Some(res));
            }
            self.temp_resources.set(i, Some(res));
        }
        if leftover > 0 {
            if let Some(mut res) = self.perm_resources[i] {
                res.spend_many(leftover);
                proof {
                    lemma_slots_update(self.perm_resources@, rn, Some(res));
                }
                self.perm_resources.set(i, Some(res));
            }
        }
    }

    /// Spends one use: from the temporary resource if one is held (removing
    /// it once it holds nothing), else from the permanent one.
    pub fn spend(&mut self, rn: ResourceName)
        requires
            old(self).wf(),
        ensures
            final(self).wf(),
            final(self)@ == spend_model(old(self)@, rn),
    {
        let i = rn.index();
        if let Some(mut res) = self.temp_resources[i] {
            res.spend();
            if res.get_current().eq_num(0) {
                proof {
                    lemma_slots_update(self.temp_resources@, rn, None);
                }
                self.temp_resources.set(i, None);
            } else {
                proof {
                    lemma_slots_update(self.temp_resources@, rn, Some(res));
                }
                self.temp_resources.set(i, Some(res));
            }
        } else {
            if let Some(mut res) = self.perm_resources[i] {
                res.spend();
                proof {
                    lemma_slots_update(self.perm_resources@, rn, Some(res));
                }
                self.perm_resources.set(i, Some(res));
            }
        }
    }

    /// Removes the temporary resource and empties the permanent one.
    pub fn drain(&mut self, rn: ResourceName)
        requires
            old(self).wf(),
        ensures
            final(self).wf(),
            final(self)@ == drain_model(old(self)@, rn),
    {
        let i = rn.index();
        if self.temp_resources[i].is_some() {
            proof {
                lemma_slots_update(self.temp_resources@, rn, None);
            }
            self.temp_resources.set(i, None);
        } else {
            proof {
                assert(self@.temp =~= old(self)@.temp.remove(rn));
            }
        }
        if let Some(mut res) = self.perm_resources[i] {
            res.drain();
            proof {
                lemma_slots_update(self.perm_resources@, rn, Some(res));
            }
            self.perm_resources.set(i, Some(res));
        }
    }

    /// Gains `uses` on the permanent resource if one is held, else on the
    /// temporary one if one is held.
    pub fn gain(&mut self, rn: ResourceName, uses: usize)
        requires
            old(self).wf(),
            gain_model_defined(old(self)@, rn, uses),
        ensures
            final(self).wf(),
            final(self)@ == gain_model(old(self)@, rn, uses),
    {
        let i = rn.index();
        if let Some(mut res) = self.perm_resources[i] {
            res.gain(uses);
            proof {
                lemma_slots_update(self.perm_resources@, rn, Some(res));
            }
            self.perm_resources.set(i, Some(res));
        } else {
            if let Some(mut res) = self.temp_resources[i] {
                res.gain(uses);
                proof {
                    lemma_slots_update(self.temp_resources@, rn, Some(res));
                }
                self.temp_resources.set(i, Some(res));
            }
        }
    }

    /// At timing `rt`: drops the temporary resources that expire then, and
    /// refreshes every permanent resource.
    pub fn handle_timing(&mut self, rt: RefreshTiming)
        requires
            old(self).wf(),
            forall|rn: ResourceName| #[trigger] old(self)@.perm.contains_key(rn) ==> refresh_defined(old(self)@.perm[rn], rt),
        ensures
            final(self).wf(),
            final(self)@.temp == unexpired(old(self)@.temp, rt),
            final(self)@.perm == all_refreshed(old(self)@.perm, rt),
    {
        self.handle_expirations(rt);
        self.handle_refreshes(rt);
    }

    fn handle_refreshes(&mut self, rt: RefreshTiming)
        requires
            old(self).wf(),
            forall|rn: ResourceName| #[trigger] old(self)@.perm.contains_key(rn) ==> refresh_defined(old(self)@.perm[rn], rt),
        ensures
            final(self).wf(),
            final(self)@.temp == old(self)@.temp,
            final(self)@.perm == all_refreshed(old(self)@.perm, rt),
    {
        proof {
            assert forall|k: int| 0 <= k < NUM_RESOURCE_NAMES && (#[trigger] old(self).perm_resources@[k]) is Some implies
                refresh_defined(old(self).perm_resources@[k]->0@, rt) by {
                let rn = lemma_index_onto(k);
                assert(old(self)@.perm.contains_key(rn));
            }
        }
        let mut i: usize = 0;
        while i < NUM_RESOURCE_NAMES
            invariant
                self.wf(),
                i <= NUM_RESOURCE_NAMES,
                self.temp_resources@ == old(self).temp_resources@,
                old(self).perm_resources@.len() == NUM_RESOURCE_NAMES,
                forall|k: int| 0 <= k < NUM_RESOURCE_NAMES ==> (#[trigger] self.perm_resources@[k] is Some) == (old(self).perm_resources@[k] is Some),
                forall|k: int| 0 <= k < i && old(self).perm_resources@[k] is Some ==>
                    (#[trigger] self.perm_resources@[k])->0@ == with_current(old(self).perm_resources@[k]->0@, refreshed(old(self).perm_resources@[k]->0@, rt)),
                forall|k: int| i <= k < NUM_RESOURCE_NAMES ==> #[trigger] self.perm_resources@[k] == old(self).perm_resources@[k],
                forall|k: int| 0 <= k < NUM_RESOURCE_NAMES && (#[trigger] old(self).perm_resources@[k]) is Some ==>
                    refresh_defined(old(self).perm_resources@[k]->0@, rt),
            decreases NUM_RESOURCE_NAMES - i,
        {
            if let Some(mut res) = self.perm_resources[i] {
                res.refresh(rt);
                self.perm_resources.set(i, Some(res));
            }
            i = i + 1;
        }
        proof {
            assert forall|rn: ResourceName| #[trigger] self@.perm.contains_key(rn) == all_refreshed(old(self)@.perm, rt).contains_key(rn)
                && (self@.perm.contains_key(rn) ==> self@.perm[rn] == all_refreshed(old(self)@.perm, rt)[rn]) by {
                lemma_rn_index(rn, rn);
            }
            assert(self@.perm =~= all_refreshed(old(self)@.perm, rt));
        }
    }

    fn handle_expirations(&mut self, rt: RefreshTiming)
        requires
            old(self).wf(),
        ensures
            final(self).wf(),
            final(self)@.perm == old(self)@.perm,
            final(self)@.temp == unexpired(old(self)@.temp, rt),
    {
        let mut i: usize = 0;
        while i < NUM_RESOURCE_NAMES
            invariant
                self.wf(),
                i <= NUM_RESOURCE_NAMES,
                self.perm_resources@ == old(self).perm_resources@,
                old(self).temp_resources@.len() == NUM_RESOURCE_NAMES,
                forall|k: int| 0 <= k < i ==> #[trigger] self.temp_resources@[k] == (match old(self).temp_resources@[k] {
                    Some(r) => if r@.expirations.contains(rt) { None } else { Some(r) },
                    None => None,
                }),
                forall|k: int| i <= k < NUM_RESOURCE_NAMES ==> #[trigger] self.temp_resources@[k] == old(self).temp_resources@[k],
            decreases NUM_RESOURCE_NAMES - i,
        {
            if let Some(res) = self.temp_resources[i] {
                if res.expires(rt) {
                    self.temp_resources.set(i, None);
                }
            }
            i = i + 1;
        }
        proof {
            assert forall|rn: ResourceName| #[trigger] self@.temp.contains_key(rn) == unexpired(old(self)@.temp, rt).contains_key(rn)
                && (self@.temp.contains_key(rn) ==> self@.temp[rn] == unexpired(old(self)@.temp, rt)[rn]) by {
                lemma_rn_index(rn, rn);
            }
            assert(self@.temp =~= unexpired(old(self)@.temp, rt));
        }
    }
}

/// The size of a speed, in feet.
pub open spec fn speed_feet(speed: Feet) -> int {
    if speed.0 < 0 { -speed.0 } else { speed.0 as int }
}

/// An action-economy resource: one use, refilled at the start of my turn,
/// and, when `emptied`, emptied at the end of my turn.
pub open spec fn action_model(emptied: bool) -> ResourceModel {
    ResourceModel {
        max: ResourceCap::Soft(1),
        current: ResourceCount::Count(1),
        refresh: if emptied {
            map![RefreshTiming::StartMyTurn => RefreshBy::ToFull, RefreshTiming::EndMyTurn => RefreshBy::ToEmpty]
        } else {
            map![RefreshTiming::StartMyTurn => RefreshBy::ToFull]
        },
        expirations: Set::<RefreshTiming>::empty(),
    }
}

/// The resources of a basic combatant with the given speed: reaction, action
/// and bonus action, movement, and the single attacks granted by an attack action.
pub open spec fn basic_resources(speed: Feet) -> Map<ResourceName, ResourceModel> {
    map![
        ResourceName::RAT(ResourceActionType::Reaction) => action_model(false),
        ResourceName::RAT(ResourceActionType::Action) => action_model(true),
        ResourceName::RAT(ResourceActionType::BonusAction) => action_model(true),
        ResourceName::Movement => ResourceModel {
            max: ResourceCap::Soft(speed_feet(speed) as usize),
            current: ResourceCount::Count(speed_feet(speed) as usize),
            refresh: map![RefreshTiming::EndMyTurn => RefreshBy::ToEmpty, RefreshTiming::StartMyTurn => RefreshBy::ToFull],
            expirations: Set::<RefreshTiming>::empty(),
        },
        ResourceName::RAT(ResourceActionType::SingleAttack) => ResourceModel {
            max: ResourceCap::Soft(0),
            current: ResourceCount::Count(0),
            refresh: map![RefreshTiming::StartMyTurn => RefreshBy::ToEmpty, RefreshTiming::EndMyTurn => RefreshBy::ToEmpty],
            expirations: Set::<RefreshTiming>::empty(),
        }
    ]
}

/// The resource manager of a basic combatant with the given speed.
pub fn create_basic_rm(speed: Feet) -> (rm: ResourceManager)
    requires
        speed.0 != i32::MIN,
    ensures
        rm.wf(),
        rm@.perm == basic_resources(speed),
        rm@.temp == Map::<ResourceName, ResourceModel>::empty(),
{
    let mut rm = ResourceManager::new();
    let mut at_res = Resource::from(ResourceCap::Soft(1));
    proof {
        Resource::lemma_full_of_cap(ResourceCap::Soft(1));
    }
    at_res.add_refresh(RefreshTiming::StartMyTurn, RefreshBy::ToFull);
    assert(at_res@.refresh =~= map![RefreshTiming::StartMyTurn => RefreshBy::ToFull]);
    assert(at_res@.expirations =~= Set::<RefreshTiming>::empty());
    assert(at_res@ == action_model(false));
    rm.add_perm(ResourceName::RAT(ResourceActionType::Reaction), at_res);

    // clearing the action resources at the end of the turn makes states of
    // different branches more likely to be equal.
    at_res.add_refresh(RefreshTiming::EndMyTurn, RefreshBy::ToEmpty);
    assert(at_res@.refresh =~= map![RefreshTiming::StartMyTurn => RefreshBy::ToFull, RefreshTiming::EndMyTurn => RefreshBy::ToEmpty]);
    assert(at_res@.expirations =~= Set::<RefreshTiming>::empty());
    assert(at_res@ == action_model(true));
    rm.add_perm(ResourceName::RAT(ResourceActionType::Action), at_res);
    rm.add_perm(ResourceName::RAT(ResourceActionType::BonusAction), at_res);

    let feet: i32 = if speed.0 < 0 { -speed.0 } else { speed.0 };
    let mut move_res = Resource::from(ResourceCap::Soft(feet as usize));
    proof {
        Resource::lemma_full_of_cap(ResourceCap::Soft(feet as usize));
    }
    move_res.add_refresh(RefreshTiming::EndMyTurn, RefreshBy::ToEmpty);
    move_res.add_refresh(RefreshTiming::StartMyTurn, RefreshBy::ToFull);
    assert(move_res@.refresh =~= map![RefreshTiming::EndMyTurn => RefreshBy::ToEmpty, RefreshTiming::StartMyTurn => RefreshBy::ToFull]);
    assert(move_res@.expirations =~= Set::<RefreshTiming>::empty());
    rm.add_perm(ResourceName::Movement, move_res);

    let mut sa_res = Resource::from(ResourceCap::Soft(0));
    proof {
        Resource::lemma_full_of_cap(ResourceCap::Soft(0));
    }
    sa_res.add_refresh(RefreshTiming::StartMyTurn, RefreshBy::ToEmpty);
    sa_res.add_refresh(RefreshTiming::EndMyTurn, RefreshBy::ToEmpty);
    assert(sa_res@.refresh =~= map![RefreshTiming::StartMyTurn => RefreshBy::ToEmpty, RefreshTiming::EndMyTurn => RefreshBy::ToEmpty]);
    assert(sa_res@.expirations =~= Set::<RefreshTiming>::empty());
    rm.add_perm(ResourceName::RAT(ResourceActionType::SingleAttack), sa_res);

    assert(rm@.perm =~= basic_resources(speed));
    rm
}

/// A gain never lifts an amount within a hard cap above that cap.
pub proof fn lemma_gain_respects_hard_cap(cap: usize, cur: ResourceCount, uses: usize)
    requires
        gain_defined(ResourceCap::Hard(cap), cur, uses),
        cur->0 <= cap,
    ensures
        gained(ResourceCap::Hard(cap), cur, uses)->0 <= cap,
        gained(ResourceCap::Hard(cap), cur, uses)->0 >= cur->0,
{
}

/// Spending many uses from a resource pays out exactly what is not left
/// unpaid: the amount drops by `amount - unpaid`.
pub proof fn lemma_spend_many_conserves(cur: ResourceCount, amount: usize)
    ensures
        cur is Count ==> count_minus(cur, amount)->0 + amount == cur->0 + unpaid(cur, amount),
        cur is UnCapped ==> unpaid(cur, amount) == 0 && count_minus(cur, amount) is UnCapped,
{
}

/// Adding a refresh or an expiration keeps a resource from being both
/// refilled and ended at the same timing.
pub proof fn lemma_timings_stay_disjoint(r: ResourceModel, t: RefreshTiming, by: RefreshBy)
    requires
        timings_disjoint(r),
    ensures
        timings_disjoint(with_refresh(r, t, by)),
        timings_disjoint(with_expiration(r, t)),
{
}

/// Spending one use lowers the total amount of a resource by one (never
/// below zero), unless a temporary resource that is already used up is held:
/// that one is then removed and the total stays.
pub proof fn lemma_spend_lowers_total(m: ResourceManagerModel, rn: ResourceName)
    requires
        current_defined(m, rn),
        !(m.temp.contains_key(rn) && m.temp[rn].current == ResourceCount::Count(0)),
    ensures
        current_of(spend_model(m, rn), rn) == count_minus(current_of(m, rn), 1),
{
}

/// Every temporary resource holds something: none is a count of zero.
pub open spec fn temps_positive(m: ResourceManagerModel) -> bool {
    forall|rn: ResourceName| #[trigger] m.temp.contains_key(rn) ==> m.temp[rn].current != ResourceCount::Count(0)
}

/// Temporary resources never hold nothing: adding one that holds something
/// and spending keep every temporary resource positive, and while that holds
/// spending one use lowers the total amount by one (never below zero), the
/// temporary resource paying first and the permanent one untouched then.
pub proof fn lemma_spend_keeps_temps_positive(m: ResourceManagerModel, rn: ResourceName, added: ResourceModel)
    requires
        temps_positive(m),
    ensures
        temps_positive(spend_model(m, rn)),
        temps_positive(ResourceManagerModel {
            perm: m.perm,
            temp: if count_at_least(added.current, 1) { m.temp.insert(rn, added) } else { m.temp },
        }),
        current_defined(m, rn) ==> current_of(spend_model(m, rn), rn) == count_minus(current_of(m, rn), 1),
        m.temp.contains_key(rn) ==> spend_model(m, rn).perm == m.perm,
{
}

/// Spending many uses lowers the total amount of a resource by that many
/// (never below zero), whichever of the temporary and permanent resources pay.
pub proof fn lemma_spend_many_lowers_total(m: ResourceManagerModel, rn: ResourceName, amount: usize)
    requires
        current_defined(m, rn),
    ensures
        current_of(spend_many_model(m, rn, amount), rn) == count_minus(current_of(m, rn), amount),
{
}

/// Draining leaves nothing of a resource, unless its permanent amount is unlimited.
pub proof fn lemma_drain_empties(m: ResourceManagerModel, rn: ResourceName)
    requires
        !(m.perm.contains_key(rn) && m.perm[rn].current is UnCapped),
    ensures
        current_of(drain_model(m, rn), rn) == ResourceCount::Count(0),
        !drain_model(m, rn).temp.contains_key(rn),
{
}

/// Setting the cap of a permanent resource leaves it full, when no temporary
/// resource of that name is held and its amount is a count or the cap is none.
pub proof fn lemma_set_cap_fills(m: ResourceManagerModel, rn: ResourceName, cap: ResourceCap)
    requires
        m.perm.contains_key(rn),
        !m.temp.contains_key(rn),
        m.perm[rn].current is Count || cap is UnCapped,
    ensures
        current_of(set_cap_model(m, rn, cap), rn) == count_of_cap(cap_of(set_cap_model(m, rn, cap), rn)),
{
}

/// Spending, gaining and draining one resource leave every other resource as it was.
pub proof fn lemma_other_names_untouched(m: ResourceManagerModel, rn: ResourceName, other: ResourceName, n: usize)
    requires
        rn != other,
    ensures
        spend_model(m, rn).perm.contains_key(other) == m.perm.contains_key(other),
        spend_model(m, rn).temp.contains_key(other) == m.temp.contains_key(other),
        current_of(spend_model(m, rn), other) == current_of(m, other),
        current_of(spend_many_model(m, rn, n), other) == current_of(m, other),
        current_of(gain_model(m, rn, n), other) == current_of(m, other),
        current_of(drain_model(m, rn), other) == current_of(m, other),
{
}

} // verus!
