use vstd::prelude::*;
use crate::combat_core::{CCError, D20RollType, combine_rolls, roll_rank};
use crate::combat_core::ability_scores::Ability;
use crate::combat_core::actions::ActionType;
use crate::combat_core::combat_event::{CombatTiming, register_id, register_timing};
use crate::combat_core::damage::{DamageFeature, DamageTerm};
use crate::combat_core::participant::ParticipantId;
use crate::seq_facts::{copy_vec, lemma_push_contains};

verus! {

/// The conditions that a participant can be under.
#[derive(Debug, Clone, Copy, PartialEq, Eq, Structural, Hash, PartialOrd, Ord)]
pub enum ConditionName {
    Concentration,
    Invisible,
    Prone,
    PlanarWarriorTarget,
}

/// Position of a condition name in declaration order.
pub open spec fn cn_index(cn: ConditionName) -> int {
    match cn {
        ConditionName::Concentration => 0,
        ConditionName::Invisible => 1,
        ConditionName::Prone => 2,
        ConditionName::PlanarWarriorTarget => 3,
    }
}

/// All condition names, in declaration order.
pub open spec fn all_condition_names() -> Seq<ConditionName> {
    seq![
        ConditionName::Concentration,
        ConditionName::Invisible,
        ConditionName::Prone,
        ConditionName::PlanarWarriorTarget,
    ]
}

/// Kinds of rolls that a condition can modify.
#[derive(Debug, Clone, Copy, PartialEq, Eq, Structural, Hash, PartialOrd, Ord)]
pub enum RollAction {
    Saves,
    Skills,
}

/// The distance of an attack, as far as conditions care.
#[derive(Debug, Clone, Copy, PartialEq, Eq, Structural, Hash, PartialOrd, Ord)]
pub enum AttackDistance {
    Within5Ft,
    Beyond5Ft,
    Any,
}

/// Whether an effect limited to distance `ad` applies to an attack at `dist`.
pub open spec fn applies(ad: AttackDistance, dist: AttackDistance) -> bool {
    ad == AttackDistance::Any || dist == AttackDistance::Any || ad == dist
}

impl AttackDistance {
    /// Whether an effect limited to this distance applies to an attack at
    /// `dist`: when either is `Any`, or when they are equal.
    pub fn applies_to(&self, dist: &AttackDistance) -> (r: bool)
        ensures
            r == applies(*self, *dist),
    {
        *self == AttackDistance::Any || *dist == AttackDistance::Any || *self == *dist
    }
}

/// An effect of a condition.
#[derive(Debug, Clone, Copy, PartialEq, Eq, Structural)]
pub enum ConditionEffect {
    RollActionMod(RollAction, Ability, D20RollType),
    AttackerMod(AttackDistance, D20RollType),
    AtkTargetedMod(AttackDistance, D20RollType),
    TakeBonusDmgFrom(DamageTerm, ParticipantId),
    TakeDmgFeatureFrom(DamageFeature, ParticipantId),
}

/// When a condition ends.
#[derive(Debug, Clone, Copy, PartialEq, Eq, Structural, Hash, PartialOrd, Ord)]
pub enum ConditionLifetime {
    Permanent,
    UntilSpendAT(ActionType),
    OnHitByAtk(ParticipantId),
    UntilTime(CombatTiming),
}

/// A condition: its effects, and the lifetimes of which any one ends it.
#[derive(Debug, Clone)]
pub struct Condition {
    pub effects: Vec<ConditionEffect>,
    pub lifetimes: Vec<ConditionLifetime>,
}

/// The content of a condition: its effects and its lifetimes.
pub struct ConditionView {
    pub effects: Seq<ConditionEffect>,
    pub lifetimes: Seq<ConditionLifetime>,
}

impl View for Condition {
    type V = ConditionView;

    open spec fn view(&self) -> ConditionView {
        ConditionView { effects: self.effects@, lifetimes: self.lifetimes@ }
    }
}

/// The condition with the placeholder participant replaced by `pid`.
pub open spec fn registered_condition(c: ConditionView, pid: ParticipantId) -> ConditionView {
    ConditionView {
        effects: c.effects.map_values(|e: ConditionEffect| register_effect(e, pid)),
        lifetimes: c.lifetimes.map_values(|l: ConditionLifetime| register_lifetime(l, pid)),
    }
}

/// The effects of the basic prone condition.
pub open spec fn prone_effects() -> Seq<ConditionEffect> {
    seq![
        ConditionEffect::AttackerMod(AttackDistance::Any, D20RollType::Disadvantage),
        ConditionEffect::AtkTargetedMod(AttackDistance::Within5Ft, D20RollType::Advantage),
        ConditionEffect::AtkTargetedMod(AttackDistance::Beyond5Ft, D20RollType::Disadvantage),
    ]
}

/// The lifetimes of the basic prone condition.
pub open spec fn prone_lifetimes() -> Seq<ConditionLifetime> {
    seq![ConditionLifetime::UntilSpendAT(ActionType::HalfMove)]
}

impl ConditionName {
    /// The standard condition of this name; only prone has one, the others
    /// give `UnknownCondition`.
    pub fn get_basic_cond(&self) -> (r: Result<Condition, CCError>)
        ensures
            *self == ConditionName::Prone ==> (r matches Ok(c) && c.effects@ == prone_effects() && c.lifetimes@ == prone_lifetimes()),
            *self != ConditionName::Prone ==> r == Err::<Condition, CCError>(CCError::UnknownCondition),
    {
        match self {
            ConditionName::Prone => {
                let effects = vec![
                    ConditionEffect::AttackerMod(AttackDistance::Any, D20RollType::Disadvantage),
                    ConditionEffect::AtkTargetedMod(AttackDistance::Within5Ft, D20RollType::Advantage),
                    ConditionEffect::AtkTargetedMod(AttackDistance::Beyond5Ft, D20RollType::Disadvantage),
                ];
                let lifetimes = vec![ConditionLifetime::UntilSpendAT(ActionType::HalfMove)];
                assert(effects@ =~= prone_effects());
                assert(lifetimes@ =~= prone_lifetimes());
                Ok(Condition { effects, lifetimes })
            },
            _ => Err(CCError::UnknownCondition),
        }
    }

    /// Position of the name in declaration order.
    pub fn index(&self) -> (r: usize)
        ensures
            r == cn_index(*self),
    {
        match self {
            ConditionName::Concentration => 0,
            ConditionName::Invisible => 1,
            ConditionName::Prone => 2,
            ConditionName::PlanarWarriorTarget => 3,
        }
    }
}

/// An effect whose attacker is the placeholder participant now names `pid`.
pub open spec fn register_effect(e: ConditionEffect, pid: ParticipantId) -> ConditionEffect {
    match e {
        ConditionEffect::TakeBonusDmgFrom(t, p) => ConditionEffect::TakeBonusDmgFrom(t, register_id(p, pid)),
        ConditionEffect::TakeDmgFeatureFrom(f, p) => ConditionEffect::TakeDmgFeatureFrom(f, register_id(p, pid)),
        other => other,
    }
}

/// A lifetime whose placeholder participant now names `pid`.
pub open spec fn register_lifetime(l: ConditionLifetime, pid: ParticipantId) -> ConditionLifetime {
    match l {
        ConditionLifetime::OnHitByAtk(p) => ConditionLifetime::OnHitByAtk(register_id(p, pid)),
        ConditionLifetime::UntilTime(t) => ConditionLifetime::UntilTime(register_timing(t, pid)),
        other => other,
    }
}

/// Whether two lists of effects hold the same items in the same order.
fn same_effects(a: &Vec<ConditionEffect>, b: &Vec<ConditionEffect>) -> (r: bool)
    ensures
        r == (a@ == b@),
{
    if a.len() != b.len() {
        return false;
    }
    let mut i: usize = 0;
    while i < a.len()
        invariant
            i <= a@.len() == b@.len(),
            forall|k: int| 0 <= k < i ==> a@[k] == b@[k],
        decreases a@.len() - i,
    {
        if a[i] != b[i] {
            assert(a@[i as int] != b@[i as int]);
            return false;
        }
        i = i + 1;
    }
    assert(a@ =~= b@);
    true
}

/// Whether two lists of lifetimes hold the same items in the same order.
fn same_lifetimes(a: &Vec<ConditionLifetime>, b: &Vec<ConditionLifetime>) -> (r: bool)
    ensures
        r == (a@ == b@),
{
    if a.len() != b.len() {
        return false;
    }
    let mut i: usize = 0;
    while i < a.len()
        invariant
            i <= a@.len() == b@.len(),
            forall|k: int| 0 <= k < i ==> a@[k] == b@[k],
        decreases a@.len() - i,
    {
        if a[i] != b[i] {
            assert(a@[i as int] != b@[i as int]);
            return false;
        }
        i = i + 1;
    }
    assert(a@ =~= b@);
    true
}

impl Condition {
    /// Whether both conditions have the same effects and lifetimes, in order.
    pub fn same_as(&self, other: &Condition) -> (r: bool)
        ensures
            r == (self@ == other@),
    {
        same_effects(&self.effects, &other.effects) && same_lifetimes(&self.lifetimes, &other.lifetimes)
    }

    /// A copy of the condition, item for item.
    pub fn duplicate(&self) -> (r: Condition)
        ensures
            r@ == self@,
    {
        Condition { effects: copy_vec(&self.effects), lifetimes: copy_vec(&self.lifetimes) }
    }

    /// Replaces the placeholder participant `ParticipantId::me()` by `pid` in
    /// every effect and lifetime; nothing else changes.
    pub fn register_pid(&mut self, pid: ParticipantId)
        ensures
            final(self)@ == registered_condition(old(self)@, pid),
    {
        let me = ParticipantId::me();
        let n = self.effects.len();
        let mut i: usize = 0;
        while i < n
            invariant
                n == self.effects.len(),
                n == old(self).effects.len(),
                me == ParticipantId(usize::MAX),
                i <= n,
                self.lifetimes@ == old(self).lifetimes@,
                forall|k: int| 0 <= k < i ==> self.effects@[k] == register_effect(old(self).effects@[k], pid),
                forall|k: int| i <= k < n ==> self.effects@[k] == old(self).effects@[k],
            decreases n - i,
        {
            let e = self.effects[i];
            match e {
                ConditionEffect::TakeBonusDmgFrom(t, old_pid) => {
                    if old_pid == me {
                        self.effects.set(i, ConditionEffect::TakeBonusDmgFrom(t, ParticipantId(pid.0)));
                    }
                },
                ConditionEffect::TakeDmgFeatureFrom(f, old_pid) => {
                    if old_pid == me {
                        self.effects.set(i, ConditionEffect::TakeDmgFeatureFrom(f, ParticipantId(pid.0)));
                    }
                },
                _ => {},
            }
            i = i + 1;
        }
        let m = self.lifetimes.len();
        let mut j: usize = 0;
        while j < m
            invariant
                m == self.lifetimes.len(),
                m == old(self).lifetimes.len(),
                me == ParticipantId(usize::MAX),
                j <= m,
                self.effects@ == old(self).effects@.map_values(|e: ConditionEffect| register_effect(e, pid)),
                forall|k: int| 0 <= k < j ==> self.lifetimes@[k] == register_lifetime(old(self).lifetimes@[k], pid),
                forall|k: int| j <= k < m ==> self.lifetimes@[k] == old(self).lifetimes@[k],
            decreases m - j,
        {
            let l = self.lifetimes[j];
            match l {
                ConditionLifetime::OnHitByAtk(old_pid) => {
                    if old_pid == me {
                        self.lifetimes.set(j, ConditionLifetime::OnHitByAtk(ParticipantId(pid.0)));
                    }
                },
                ConditionLifetime::UntilTime(ct) => {
                    let mut ct2 = ct;
                    ct2.register_pid(pid);
                    self.lifetimes.set(j, ConditionLifetime::UntilTime(ct2));
                },
                _ => {},
            }
            j = j + 1;
        }
        assert(self.effects@ =~= old(self).effects@.map_values(|e: ConditionEffect| register_effect(e, pid)));
        assert(self.lifetimes@ =~= old(self).lifetimes@.map_values(|l: ConditionLifetime| register_lifetime(l, pid)));
    }
}

// ---------------------------------------------------------------------------
// Roll modifiers of conditions.

/// The roll modifier that an effect gives to attacks made at distance `dist`
/// (`target` false: effects on the bearer's attacks; `target` true: effects
/// on attacks against the bearer).
pub open spec fn effect_roll(e: ConditionEffect, dist: AttackDistance, target: bool) -> Option<D20RollType> {
    match e {
        ConditionEffect::AttackerMod(ad, roll) => if !target && applies(ad, dist) { Some(roll) } else { None },
        ConditionEffect::AtkTargetedMod(ad, roll) => if target && applies(ad, dist) { Some(roll) } else { None },
        _ => None,
    }
}

/// The modifier `acc` combined with the modifiers of the effects, in order.
pub open spec fn fold_effects(acc: D20RollType, effs: Seq<ConditionEffect>, dist: AttackDistance, target: bool) -> D20RollType
    decreases effs.len(),
{
    if effs.len() == 0 {
        acc
    } else {
        let a = fold_effects(acc, effs.drop_last(), dist, target);
        match effect_roll(effs.last(), dist, target) {
            Some(r) => combine_rolls(a, r),
            None => a,
        }
    }
}

/// The modifier `acc` combined with the modifiers of the effects of the named
/// conditions (those held in `conds`), name after name, effect after effect.
pub open spec fn fold_conditions(
    acc: D20RollType,
    names: Seq<ConditionName>,
    conds: Map<ConditionName, Condition>,
    dist: AttackDistance,
    target: bool,
) -> D20RollType
    decreases names.len(),
{
    if names.len() == 0 {
        acc
    } else {
        let a = fold_conditions(acc, names.drop_last(), conds, dist, target);
        if conds.contains_key(names.last()) {
            fold_effects(a, conds[names.last()].effects@, dist, target)
        } else {
            a
        }
    }
}

/// Once a fixed-normal roll is reached, further effects leave it there.
pub proof fn lemma_fold_effects_fixed(effs: Seq<ConditionEffect>, dist: AttackDistance, target: bool)
    ensures
        fold_effects(D20RollType::FixedNormal, effs, dist, target) == D20RollType::FixedNormal,
    decreases effs.len(),
{
    if effs.len() > 0 {
        lemma_fold_effects_fixed(effs.drop_last(), dist, target);
    }
}

/// Folding effects over a prefix and then over the rest is folding over all.
pub proof fn lemma_fold_effects_split(acc: D20RollType, effs: Seq<ConditionEffect>, k: int, dist: AttackDistance, target: bool)
    requires
        0 <= k <= effs.len(),
    ensures
        fold_effects(fold_effects(acc, effs.take(k), dist, target), effs.skip(k), dist, target)
            == fold_effects(acc, effs, dist, target),
    decreases effs.len() - k,
{
    if k < effs.len() {
        lemma_fold_effects_split(acc, effs.drop_last(), if k <= effs.len() - 1 { k } else { k }, dist, target);
        assert(effs.drop_last().take(k) =~= effs.take(k));
        assert(effs.skip(k).drop_last() =~= effs.drop_last().skip(k));
        assert(effs.skip(k).last() == effs.last());
    } else {
        assert(effs.take(k) =~= effs);
        assert(effs.skip(k) =~= Seq::<ConditionEffect>::empty());
    }
}

/// Once a fixed-normal roll is reached, further conditions leave it there.
pub proof fn lemma_fold_conditions_fixed(names: Seq<ConditionName>, conds: Map<ConditionName, Condition>, dist: AttackDistance, target: bool)
    ensures
        fold_conditions(D20RollType::FixedNormal, names, conds, dist, target) == D20RollType::FixedNormal,
    decreases names.len(),
{
    if names.len() > 0 {
        lemma_fold_conditions_fixed(names.drop_last(), conds, dist, target);
        let last = names.last();
        if conds.contains_key(last) {
            lemma_fold_effects_fixed(conds[last].effects@, dist, target);
        }
    }
}

/// Folding conditions over a prefix of the names and then over the rest is
/// folding over all names.
pub proof fn lemma_fold_conditions_split(acc: D20RollType, names: Seq<ConditionName>, k: int, conds: Map<ConditionName, Condition>, dist: AttackDistance, target: bool)
    requires
        0 <= k <= names.len(),
    ensures
        fold_conditions(fold_conditions(acc, names.take(k), conds, dist, target), names.skip(k), conds, dist, target)
            == fold_conditions(acc, names, conds, dist, target),
    decreases names.len() - k,
{
    if k < names.len() {
        lemma_fold_conditions_split(acc, names.drop_last(), k, conds, dist, target);
        assert(names.drop_last().take(k) =~= names.take(k));
        assert(names.skip(k).drop_last() =~= names.drop_last().skip(k));
        assert(names.skip(k).last() == names.last());
    } else {
        assert(names.take(k) =~= names);
        assert(names.skip(k) =~= Seq::<ConditionName>::empty());
    }
}

// ---------------------------------------------------------------------------
// Damage modifiers of conditions.

/// The bonus damage terms that an effect gives to attacks by `atker`.
pub open spec fn effect_terms(effs: Seq<ConditionEffect>, atker: ParticipantId) -> Seq<DamageTerm>
    decreases effs.len(),
{
    if effs.len() == 0 {
        Seq::empty()
    } else {
        let rest = effect_terms(effs.drop_last(), atker);
        match effs.last() {
            ConditionEffect::TakeBonusDmgFrom(t, p) => if p == atker { rest.push(t) } else { rest },
            _ => rest,
        }
    }
}

/// The bonus damage terms of the named conditions held in `conds`, name after name.
pub open spec fn condition_terms(names: Seq<ConditionName>, conds: Map<ConditionName, Condition>, atker: ParticipantId) -> Seq<DamageTerm>
    decreases names.len(),
{
    if names.len() == 0 {
        Seq::empty()
    } else {
        let rest = condition_terms(names.drop_last(), conds, atker);
        if conds.contains_key(names.last()) {
            rest + effect_terms(conds[names.last()].effects@, atker)
        } else {
            rest
        }
    }
}

/// Whether a held condition gives damage feature `f` to attacks by `atker`.
pub open spec fn gives_feature(conds: Map<ConditionName, Condition>, atker: ParticipantId, f: DamageFeature) -> bool {
    exists|cn: ConditionName, k: int|
        conds.contains_key(cn) && 0 <= k < conds[cn].effects@.len()
            && #[trigger] conds[cn].effects@[k] == ConditionEffect::TakeDmgFeatureFrom(f, atker)
}

// ---------------------------------------------------------------------------
// The condition manager.

/// The conditions that a participant is under, and for each lifetime the
/// names of the conditions that it ends.
#[derive(Debug, Clone)]
pub struct ConditionManager {
    conditions: Vec<Option<Condition>>,
    by_lifetime: Vec<(ConditionLifetime, ConditionName)>,
}

/// The mathematical content of a condition manager.
pub struct ConditionManagerModel {
    /// The conditions held, by name.
    pub conditions: Map<ConditionName, Condition>,
    /// The lifetime index: `(lt, cn)` is in it when lifetime `lt` is to end condition `cn`.
    pub index: Set<(ConditionLifetime, ConditionName)>,
}

impl View for ConditionManager {
    type V = ConditionManagerModel;

    closed spec fn view(&self) -> ConditionManagerModel {
        ConditionManagerModel {
            conditions: Map::new(
                |cn: ConditionName| self.conditions@[cn_index(cn)] is Some,
                |cn: ConditionName| self.conditions@[cn_index(cn)]->0,
            ),
            index: Set::new(|p: (ConditionLifetime, ConditionName)| self.by_lifetime@.contains(p)),
        }
    }
}

/// The names that lifetime `lt` is to end.
pub open spec fn names_for(m: ConditionManagerModel, lt: ConditionLifetime) -> Set<ConditionName> {
    Set::new(|cn: ConditionName| m.index.contains((lt, cn)))
}

/// The names of a set in declaration order, among the first `k` names.
pub open spec fn names_in_order(s: Set<ConditionName>, k: int) -> Seq<ConditionName>
    decreases k,
{
    if k <= 0 {
        Seq::empty()
    } else if s.contains(all_condition_names()[k - 1]) {
        names_in_order(s, k - 1).push(all_condition_names()[k - 1])
    } else {
        names_in_order(s, k - 1)
    }
}

/// Whether some condition is indexed under lifetime `lt`.
pub open spec fn has_lifetime_spec(m: ConditionManagerModel, lt: ConditionLifetime) -> bool {
    exists|cn: ConditionName| m.index.contains((lt, cn))
}

/// The number of conditions held.
pub open spec fn num_conditions(m: ConditionManagerModel) -> int {
    (if m.conditions.contains_key(ConditionName::Concentration) { 1int } else { 0 })
        + (if m.conditions.contains_key(ConditionName::Invisible) { 1int } else { 0 })
        + (if m.conditions.contains_key(ConditionName::Prone) { 1int } else { 0 })
        + (if m.conditions.contains_key(ConditionName::PlanarWarriorTarget) { 1int } else { 0 })
}

/// Every lifetime of every held condition is indexed.
pub open spec fn index_covers(m: ConditionManagerModel) -> bool {
    forall|cn: ConditionName, k: int|
        #![trigger m.conditions[cn].lifetimes@[k]]
        m.conditions.contains_key(cn) && 0 <= k < m.conditions[cn].lifetimes@.len()
            ==> m.index.contains((m.conditions[cn].lifetimes@[k], cn))
}

/// Whether two managers hold the same conditions (the same effects and
/// lifetimes under each name) with the same lifetime index.
pub open spec fn same_conditions(a: ConditionManagerModel, b: ConditionManagerModel) -> bool {
    &&& a.conditions.dom() == b.conditions.dom()
    &&& forall|cn: ConditionName| #[trigger] a.conditions.contains_key(cn) ==> a.conditions[cn]@ == b.conditions[cn]@
    &&& a.index == b.index
}

/// Whether every pair of `a` occurs in `b`.
fn pairs_within(a: &Vec<(ConditionLifetime, ConditionName)>, b: &Vec<(ConditionLifetime, ConditionName)>) -> (r: bool)
    ensures
        r == forall|k: int| 0 <= k < a@.len() ==> b@.contains(#[trigger] a@[k]),
{
    let mut i: usize = 0;
    while i < a.len()
        invariant
            i <= a@.len(),
            forall|k: int| 0 <= k < i ==> b@.contains(#[trigger] a@[k]),
        decreases a@.len() - i,
    {
        let p = a[i];
        let mut j: usize = 0;
        let mut found = false;
        while j < b.len()
            invariant
                j <= b@.len(),
                found ==> b@.contains(p),
                !found ==> forall|m: int| 0 <= m < j ==> b@[m] != p,
            decreases b@.len() - j,
        {
            if b[j].0 == p.0 && b[j].1 == p.1 {
                found = true;
                assert(b@[j as int] == p);
            }
            j = j + 1;
        }
        if !found {
            assert(!b@.contains(a@[i as int]));
            return false;
        }
        i = i + 1;
    }
    true
}

impl ConditionManager {
    /// The manager is well formed: one slot per condition name, and every
    /// lifetime of every held condition is indexed.
    pub closed spec fn wf(&self) -> bool {
        &&& self.conditions@.len() == 4
        &&& index_covers(self@)
    }

    /// A manager holding no conditions.
    pub fn new() -> (r: Self)
        ensures
            r.wf(),
            r@.conditions == Map::<ConditionName, Condition>::empty(),
            r@.index == Set::<(ConditionLifetime, ConditionName)>::empty(),
    {
        let r = ConditionManager { conditions: vec![None, None, None, None], by_lifetime: Vec::new() };
        assert(r@.conditions =~= Map::<ConditionName, Condition>::empty());
        assert(r@.index =~= Set::<(ConditionLifetime, ConditionName)>::empty());
        r
    }

    /// Whether both managers hold the same conditions, item for item, with the
    /// same lifetime index.
    pub fn same_as(&self, other: &ConditionManager) -> (r: bool)
        requires
            self.wf(),
            other.wf(),
        ensures
            r == same_conditions(self@, other@),
    {
        let mut i: usize = 0;
        while i < 4
            invariant
                i <= 4,
                self.conditions@.len() == 4,
                other.conditions@.len() == 4,
                forall|k: int| 0 <= k < i ==> (#[trigger] self.conditions@[k] is Some) == (other.conditions@[k] is Some),
                forall|k: int| 0 <= k < i && self.conditions@[k] is Some ==> (#[trigger] self.conditions@[k])->0@ == other.conditions@[k]->0@,
            decreases 4 - i,
        {
            let same = match (&self.conditions[i], &other.conditions[i]) {
                (None, None) => true,
                (Some(x), Some(y)) => x.same_as(y),
                _ => false,
            };
            if !same {
                let ghost cn = if i == 0 {
                    ConditionName::Concentration
                } else if i == 1 {
                    ConditionName::Invisible
                } else if i == 2 {
                    ConditionName::Prone
                } else {
                    ConditionName::PlanarWarriorTarget
                };
                assert(cn_index(cn) == i);
                assert((self.conditions@[i as int] is Some) != (other.conditions@[i as int] is Some)
                    || self.conditions@[i as int]->0@ != other.conditions@[i as int]->0@);
                assert(self@.conditions.contains_key(cn) != other@.conditions.contains_key(cn)
                    || self@.conditions[cn]@ != other@.conditions[cn]@);
                return false;
            }
            i = i + 1;
        }
        assert(self@.conditions.dom() =~= other@.conditions.dom());
        let within = pairs_within(&self.by_lifetime, &other.by_lifetime);
        let back = pairs_within(&other.by_lifetime, &self.by_lifetime);
        if within && back {
            assert(self@.index =~= other@.index);
        } else if !within {
            let ghost k = choose|k: int| 0 <= k < self.by_lifetime@.len() && !other.by_lifetime@.contains(self.by_lifetime@[k]);
            assert(self@.index.contains(self.by_lifetime@[k]));
        } else {
            let ghost k = choose|k: int| 0 <= k < other.by_lifetime@.len() && !self.by_lifetime@.contains(other.by_lifetime@[k]);
            assert(other@.index.contains(other.by_lifetime@[k]));
        }
        within && back
    }

    /// The number of conditions held.
    pub fn len(&self) -> (r: usize)
        requires
            self.wf(),
        ensures
            r == num_conditions(self@),
    {
        let mut n: usize = 0;
        if self.conditions[0].is_some() {
            n = n + 1;
        }
        if self.conditions[1].is_some() {
            n = n + 1;
        }
        if self.conditions[2].is_some() {
            n = n + 1;
        }
        if self.conditions[3].is_some() {
            n = n + 1;
        }
        n
    }

    /// Whether the named condition is held.
    pub fn has_condition(&self, cond: &ConditionName) -> (r: bool)
        requires
            self.wf(),
        ensures
            r == self@.conditions.contains_key(*cond),
    {
        self.conditions[cond.index()].is_some()
    }

    /// The named condition, which must be held.
    pub fn get_condition(&self, cn: &ConditionName) -> (r: &Condition)
        requires
            self.wf(),
            self@.conditions.contains_key(*cn),
        ensures
            *r == self@.conditions[*cn],
    {
        self.conditions[cn.index()].as_ref().unwrap()
    }

    /// Whether some condition is indexed under the lifetime.
    pub fn has_lifetime(&self, cl: &ConditionLifetime) -> (r: bool)
        ensures
            r == has_lifetime_spec(self@, *cl),
    {
        let n = self.by_lifetime.len();
        let mut i: usize = 0;
        while i < n
            invariant
                n == self.by_lifetime.len(),
                i <= n,
                forall|k: int| 0 <= k < i ==> self.by_lifetime@[k].0 != *cl,
            decreases n - i,
        {
            if self.by_lifetime[i].0 == *cl {
                proof {
                    let p = self.by_lifetime@[i as int];
                    assert(self@.index.contains((p.0, p.1)));
                }
                return true;
            }
            i = i + 1;
        }
        proof {
            assert forall|cn: ConditionName| !self@.index.contains((*cl, cn)) by {
                if self.by_lifetime@.contains((*cl, cn)) {
                    let k = choose|k: int| 0 <= k < n && self.by_lifetime@[k] == (*cl, cn);
                    assert(self.by_lifetime@[k].0 == *cl);
                }
            }
        }
        false
    }

    /// Whether `(lt, cn)` is in the index.
    fn is_indexed(&self, lt: &ConditionLifetime, cn: ConditionName) -> (r: bool)
        ensures
            r == self@.index.contains((*lt, cn)),
    {
        let n = self.by_lifetime.len();
        let mut i: usize = 0;
        while i < n
            invariant
                n == self.by_lifetime.len(),
                i <= n,
                forall|k: int| 0 <= k < i ==> self.by_lifetime@[k] != (*lt, cn),
            decreases n - i,
        {
            let p = self.by_lifetime[i];
            if p.0 == *lt && p.1 == cn {
                proof {
                    assert(self.by_lifetime@[i as int] == (*lt, cn));
                }
                return true;
            }
            i = i + 1;
        }
        false
    }

    /// The names that the lifetime is to end, in declaration order; the
    /// lifetime must be indexed.
    pub fn get_cns_for_lifetime(&self, cl: &ConditionLifetime) -> (r: Vec<ConditionName>)
        requires
            has_lifetime_spec(self@, *cl),
        ensures
            forall|cn: ConditionName| r@.contains(cn) <==> self@.index.contains((*cl, cn)),
            forall|i: int, j: int| 0 <= i < j < r@.len() ==> cn_index(r@[i]) < cn_index(r@[j]),
            r@ == names_in_order(names_for(self@, *cl), 4),
            r@.len() > 0,
    {
        let mut r: Vec<ConditionName> = Vec::new();
        let names = [
            ConditionName::Concentration,
            ConditionName::Invisible,
            ConditionName::Prone,
            ConditionName::PlanarWarriorTarget,
        ];
        let mut i: usize = 0;
        while i < 4
            invariant
                i <= 4,
                names@ == all_condition_names(),
                r@ == names_in_order(names_for(self@, *cl), i as int),
                forall|cn: ConditionName| r@.contains(cn) <==> (cn_index(cn) < i && self@.index.contains((*cl, cn))),
                forall|a: int, b: int| 0 <= a < b < r@.len() ==> cn_index(r@[a]) < cn_index(r@[b]),
                forall|a: int| 0 <= a < r@.len() ==> cn_index(r@[a]) < i,
            decreases 4 - i,
        {
            let cn = names[i];
            assert(cn_index(cn) == i);
            let ghost old_r = r@;
            if self.is_indexed(cl, cn) {
                r.push(cn);
                proof {
                    assert forall|c: ConditionName| r@.contains(c) <==> (cn_index(c) < i + 1 && self@.index.contains((*cl, c))) by {
                        lemma_push_contains(old_r, cn, c);
                        if cn_index(c) == i {
                            assert(c == cn);
                        }
                    }
                }
            } else {
                proof {
                    assert forall|c: ConditionName| r@.contains(c) <==> (cn_index(c) < i + 1 && self@.index.contains((*cl, c))) by {
                        if cn_index(c) == i {
                            assert(c == cn);
                        }
                    }
                }
            }
            i = i + 1;
        }
        proof {
            let cn = choose|cn: ConditionName| self@.index.contains((*cl, cn));
            assert(r@.contains(cn));
        }
        r
    }
}


/// Distinct condition names have distinct positions.
pub proof fn lemma_cn_index_injective(a: ConditionName, b: ConditionName)
    ensures
        cn_index(a) == cn_index(b) ==> a == b,
        0 <= cn_index(a) < 4,
        all_condition_names()[cn_index(a)] == a,
{
}

/// The pairs of `v` other than `(lt, cn)`.
fn without_pair(v: &Vec<(ConditionLifetime, ConditionName)>, lt: ConditionLifetime, cn: ConditionName) -> (r: Vec<(ConditionLifetime, ConditionName)>)
    ensures
        forall|p: (ConditionLifetime, ConditionName)| r@.contains(p) <==> (v@.contains(p) && p != (lt, cn)),
{
    let mut r: Vec<(ConditionLifetime, ConditionName)> = Vec::new();
    let n = v.len();
    let mut i: usize = 0;
    while i < n
        invariant
            n == v.len(),
            i <= n,
            forall|p: (ConditionLifetime, ConditionName)| r@.contains(p) <==> (v@.take(i as int).contains(p) && p != (lt, cn)),
        decreases n - i,
    {
        let p = v[i];
        let ghost old_r = r@;
        proof {
            assert(v@.take(i + 1) =~= v@.take(i as int).push(p));
        }
        if !(p.0 == lt && p.1 == cn) {
            r.push(p);
            proof {
                assert forall|q: (ConditionLifetime, ConditionName)| r@.contains(q) <==> (v@.take(i + 1).contains(q) && q != (lt, cn)) by {
                    lemma_push_contains(old_r, p, q);
                    lemma_push_contains(v@.take(i as int), p, q);
                }
            }
        } else {
            proof {
                assert forall|q: (ConditionLifetime, ConditionName)| r@.contains(q) <==> (v@.take(i + 1).contains(q) && q != (lt, cn)) by {
                    lemma_push_contains(v@.take(i as int), p, q);
                }
            }
        }
        i = i + 1;
    }
    proof {
        assert(v@.take(n as int) =~= v@);
    }
    r
}

/// The pairs of `v` whose lifetime is not `lt`.
fn without_lifetime(v: &Vec<(ConditionLifetime, ConditionName)>, lt: ConditionLifetime) -> (r: Vec<(ConditionLifetime, ConditionName)>)
    ensures
        forall|p: (ConditionLifetime, ConditionName)| r@.contains(p) <==> (v@.contains(p) && p.0 != lt),
{
    let mut r: Vec<(ConditionLifetime, ConditionName)> = Vec::new();
    let n = v.len();
    let mut i: usize = 0;
    while i < n
        invariant
            n == v.len(),
            i <= n,
            forall|p: (ConditionLifetime, ConditionName)| r@.contains(p) <==> (v@.take(i as int).contains(p) && p.0 != lt),
        decreases n - i,
    {
        let p = v[i];
        let ghost old_r = r@;
        proof {
            assert(v@.take(i + 1) =~= v@.take(i as int).push(p));
        }
        if !(p.0 == lt) {
            r.push(p);
            proof {
                assert forall|q: (ConditionLifetime, ConditionName)| r@.contains(q) <==> (v@.take(i + 1).contains(q) && q.0 != lt) by {
                    lemma_push_contains(old_r, p, q);
                    lemma_push_contains(v@.take(i as int), p, q);
                }
            }
        } else {
            proof {
                assert forall|q: (ConditionLifetime, ConditionName)| r@.contains(q) <==> (v@.take(i + 1).contains(q) && q.0 != lt) by {
                    lemma_push_contains(v@.take(i as int), p, q);
                }
            }
        }
        i = i + 1;
    }
    proof {
        assert(v@.take(n as int) =~= v@);
    }
    r
}

/// The index after adding condition `cn` with lifetimes `lts`.
pub open spec fn index_with(index: Set<(ConditionLifetime, ConditionName)>, cn: ConditionName, lts: Seq<ConditionLifetime>) -> Set<(ConditionLifetime, ConditionName)> {
    index.union(Set::new(|p: (ConditionLifetime, ConditionName)| p.1 == cn && lts.contains(p.0)))
}

/// The index after removing the pairs of condition `cn` for lifetimes `lts`.
pub open spec fn index_without(index: Set<(ConditionLifetime, ConditionName)>, cn: ConditionName, lts: Seq<ConditionLifetime>) -> Set<(ConditionLifetime, ConditionName)> {
    index.filter(|p: (ConditionLifetime, ConditionName)| !(p.1 == cn && lts.contains(p.0)))
}

/// The combined roll modifier of a manager's conditions for attacks at `dist`
/// (`target`: attacks against the bearer), conditions taken in declaration order.
pub open spec fn roll_mod(m: ConditionManagerModel, dist: AttackDistance, target: bool) -> D20RollType {
    fold_conditions(D20RollType::Normal, all_condition_names(), m.conditions, dist, target)
}

/// The roll modifier of an attack by the bearer of `me` against the bearer
/// of `tgt` at distance `dist`; at any distance, the better of melee and ranged.
pub open spec fn overall_mod(me: ConditionManagerModel, tgt: ConditionManagerModel, dist: AttackDistance) -> D20RollType {
    if dist == AttackDistance::Any {
        let melee = combine_rolls(roll_mod(me, AttackDistance::Within5Ft, false), roll_mod(tgt, AttackDistance::Within5Ft, true));
        let ranged = combine_rolls(roll_mod(me, AttackDistance::Beyond5Ft, false), roll_mod(tgt, AttackDistance::Beyond5Ft, true));
        if roll_rank(melee) > roll_rank(ranged) { melee } else { ranged }
    } else {
        combine_rolls(roll_mod(me, dist, false), roll_mod(tgt, dist, true))
    }
}

impl ConditionManager {
    /// Adds (or replaces) condition `cn` and indexes it under each of its lifetimes.
    /// Index entries of a replaced condition stay.
    pub fn add_condition(&mut self, cn: ConditionName, cond: Condition)
        requires
            old(self).wf(),
        ensures
            final(self).wf(),
            final(self)@.conditions == old(self)@.conditions.insert(cn, cond),
            final(self)@.index == index_with(old(self)@.index, cn, cond.lifetimes@),
    {
        let n = cond.lifetimes.len();
        let mut k: usize = 0;
        while k < n
            invariant
                n == cond.lifetimes.len(),
                k <= n,
                self.conditions@ == old(self).conditions@,
                self@.index == index_with(old(self)@.index, cn, cond.lifetimes@.take(k as int)),
            decreases n - k,
        {
            let lt = cond.lifetimes[k];
            let ghost old_v = self.by_lifetime@;
            let ghost old_idx = self@.index;
            let found = self.is_indexed(&lt, cn);
            if !found {
                self.by_lifetime.push((lt, cn));
            }
            proof {
                assert(cond.lifetimes@.take(k + 1) =~= cond.lifetimes@.take(k as int).push(lt));
                assert forall|p: (ConditionLifetime, ConditionName)| self@.index.contains(p) <==> index_with(old(self)@.index, cn, cond.lifetimes@.take(k + 1)).contains(p) by {
                    lemma_push_contains(cond.lifetimes@.take(k as int), lt, p.0);
                    if !found {
                        lemma_push_contains(old_v, (lt, cn), p);
                    }
                    assert(old_idx.contains(p) == index_with(old(self)@.index, cn, cond.lifetimes@.take(k as int)).contains(p));
                }
                assert(self@.index =~= index_with(old(self)@.index, cn, cond.lifetimes@.take(k + 1)));
            }
            k = k + 1;
        }
        proof {
            assert(cond.lifetimes@.take(n as int) =~= cond.lifetimes@);
        }
        let ghost lts = cond.lifetimes@;
        let ghost cond_copy = cond;
        self.conditions.set(cn.index(), Some(cond));
        proof {
            assert forall|c: ConditionName| #![auto] self@.conditions.contains_key(c) == old(self)@.conditions.insert(cn, cond_copy).contains_key(c)
                && (self@.conditions.contains_key(c) ==> self@.conditions[c] == old(self)@.conditions.insert(cn, cond_copy)[c]) by {
                lemma_cn_index_injective(c, cn);
            }
            assert(self@.conditions =~= old(self)@.conditions.insert(cn, cond_copy));
            assert forall|c: ConditionName, j: int|
                #![trigger self@.conditions[c].lifetimes@[j]]
                self@.conditions.contains_key(c) && 0 <= j < self@.conditions[c].lifetimes@.len()
                implies self@.index.contains((self@.conditions[c].lifetimes@[j], c)) by {
                if c == cn {
                    assert(lts.contains(lts[j]));
                } else {
                    assert(old(self)@.conditions.contains_key(c));
                }
            }
        }
    }

    /// Adds the standard condition of the given name; an error for names
    /// without one (all but prone), leaving the manager as it was.
    pub fn add_basic_condition(&mut self, cn: ConditionName) -> (r: Result<(), CCError>)
        requires
            old(self).wf(),
        ensures
            final(self).wf(),
            cn == ConditionName::Prone ==> r is Ok
                && final(self)@.conditions.contains_key(cn)
                && final(self)@.conditions[cn].effects@ == prone_effects()
                && final(self)@.conditions[cn].lifetimes@ == prone_lifetimes()
                && final(self)@.conditions == old(self)@.conditions.insert(cn, final(self)@.conditions[cn])
                && final(self)@.index == index_with(old(self)@.index, cn, prone_lifetimes()),
            cn != ConditionName::Prone ==> r == Err::<(), CCError>(CCError::UnknownCondition) && final(self)@ == old(self)@,
    {
        let cond = cn.get_basic_cond();
        match cond {
            Ok(c) => {
                self.add_condition(cn, c);
                Ok(())
            },
            Err(e) => Err(e),
        }
    }

    /// Removes condition `cn`, which must be held, and its index entries
    /// (those of its current lifetimes).
    pub fn remove_condition_by_name(&mut self, cn: &ConditionName)
        requires
            old(self).wf(),
            old(self)@.conditions.contains_key(*cn),
        ensures
            final(self).wf(),
            final(self)@.conditions == old(self)@.conditions.remove(*cn),
            final(self)@.index == index_without(old(self)@.index, *cn, old(self)@.conditions[*cn].lifetimes@),
    {
        let idx = cn.index();
        let removed = self.conditions.remove(idx);
        self.conditions.insert(idx, None);
        let cond = removed.unwrap();
        proof {
            assert(self.conditions@ =~= old(self).conditions@.update(idx as int, None));
            assert(cond == old(self)@.conditions[*cn]);
        }
        let n = cond.lifetimes.len();
        let mut k: usize = 0;
        while k < n
            invariant
                n == cond.lifetimes.len(),
                k <= n,
                idx < 4,
                old(self).conditions@.len() == 4,
                self.conditions@ == old(self).conditions@.update(idx as int, None),
                self@.index == index_without(old(self)@.index, *cn, cond.lifetimes@.take(k as int)),
            decreases n - k,
        {
            let lt = cond.lifetimes[k];
            let ghost old_idx = self@.index;
            self.by_lifetime = without_pair(&self.by_lifetime, lt, *cn);
            proof {
                assert(cond.lifetimes@.take(k + 1) =~= cond.lifetimes@.take(k as int).push(lt));
                assert forall|p: (ConditionLifetime, ConditionName)| self@.index.contains(p) <==> index_without(old(self)@.index, *cn, cond.lifetimes@.take(k + 1)).contains(p) by {
                    lemma_push_contains(cond.lifetimes@.take(k as int), lt, p.0);
                    assert(old_idx.contains(p) == index_without(old(self)@.index, *cn, cond.lifetimes@.take(k as int)).contains(p));
                }
                assert(self@.index =~= index_without(old(self)@.index, *cn, cond.lifetimes@.take(k + 1)));
            }
            k = k + 1;
        }
        proof {
            assert(cond.lifetimes@.take(n as int) =~= cond.lifetimes@);
            assert forall|c: ConditionName| #![auto] self@.conditions.contains_key(c) == old(self)@.conditions.remove(*cn).contains_key(c)
                && (self@.conditions.contains_key(c) ==> self@.conditions[c] == old(self)@.conditions.remove(*cn)[c]) by {
                lemma_cn_index_injective(c, *cn);
            }
            assert(self@.conditions =~= old(self)@.conditions.remove(*cn));
            assert forall|c: ConditionName, j: int|
                #![trigger self@.conditions[c].lifetimes@[j]]
                self@.conditions.contains_key(c) && 0 <= j < self@.conditions[c].lifetimes@.len()
                implies self@.index.contains((self@.conditions[c].lifetimes@[j], c)) by {
                assert(old(self)@.conditions.contains_key(c));
                assert(old(self)@.index.contains((old(self)@.conditions[c].lifetimes@[j], c)));
            }
        }
    }
}

/// The index after lifetime `lt` ended the conditions named in `s`:
/// entries of `lt` go, and so do the entries of the removed conditions'
/// own lifetimes (as those conditions were in `conds`).
pub open spec fn index_after_lifetime(
    index: Set<(ConditionLifetime, ConditionName)>,
    conds: Map<ConditionName, Condition>,
    lt: ConditionLifetime,
    s: Set<ConditionName>,
) -> Set<(ConditionLifetime, ConditionName)> {
    index.filter(|p: (ConditionLifetime, ConditionName)|
        p.0 != lt && !(s.contains(p.1) && conds[p.1].lifetimes@.contains(p.0)))
}

impl ConditionManager {
    /// Ends every condition indexed under lifetime `lt` and returns their
    /// names in declaration order; every such condition must be held.
    pub fn remove_conditions_by_lifetime(&mut self, lt: &ConditionLifetime) -> (r: Vec<ConditionName>)
        requires
            old(self).wf(),
            forall|cn: ConditionName| old(self)@.index.contains((*lt, cn)) ==> old(self)@.conditions.contains_key(cn),
        ensures
            final(self).wf(),
            forall|cn: ConditionName| r@.contains(cn) <==> old(self)@.index.contains((*lt, cn)),
            forall|i: int, j: int| 0 <= i < j < r@.len() ==> cn_index(r@[i]) < cn_index(r@[j]),
            r@ == names_in_order(names_for(old(self)@, *lt), 4),
            final(self)@.conditions == old(self)@.conditions.remove_keys(names_for(old(self)@, *lt)),
            final(self)@.index == index_after_lifetime(old(self)@.index, old(self)@.conditions, *lt, names_for(old(self)@, *lt)),
    {
        let ghost old_m = self@;
        let cns = if self.has_lifetime(lt) {
            self.get_cns_for_lifetime(lt)
        } else {
            proof {
                assert forall|cn: ConditionName| !old_m.index.contains((*lt, cn)) by {}
                assert(names_for(old_m, *lt) =~= Set::<ConditionName>::empty());
                reveal_with_fuel(names_in_order, 5);
                assert(names_in_order(names_for(old_m, *lt), 4) =~= Seq::<ConditionName>::empty());
            }
            Vec::new()
        };
        let ghost names = names_for(old_m, *lt);
        assert(forall|cn: ConditionName| cns@.contains(cn) <==> names.contains(cn));
        let n = cns.len();
        let mut i: usize = 0;
        while i < n
            invariant
                n == cns.len(),
                i <= n,
                self.wf(),
                forall|a: int, b: int| 0 <= a < b < cns@.len() ==> cn_index(cns@[a]) < cn_index(cns@[b]),
                forall|cn: ConditionName| cns@.contains(cn) <==> names.contains(cn),
                forall|cn: ConditionName| names.contains(cn) ==> old_m.conditions.contains_key(cn),
                self@.conditions == old_m.conditions.remove_keys(cns@.take(i as int).to_set()),
                self@.index == old_m.index.filter(|p: (ConditionLifetime, ConditionName)|
                    !(cns@.take(i as int).contains(p.1) && old_m.conditions[p.1].lifetimes@.contains(p.0))),
            decreases n - i,
        {
            let cn = cns[i];
            proof {
                assert(cns@.contains(cn));
                assert(!cns@.take(i as int).to_set().contains(cn)) by {
                    if cns@.take(i as int).contains(cn) {
                        let k = choose|k: int| 0 <= k < i && cns@.take(i as int)[k] == cn;
                        assert(cn_index(cns@[k]) < cn_index(cns@[i as int]));
                    }
                }
                assert(names.contains(cn));
                assert(old_m.conditions.contains_key(cn));
                assert(old_m.conditions.remove_keys(cns@.take(i as int).to_set()).contains_key(cn));
                assert(self@.conditions.contains_key(cn));
                assert(self@.conditions[cn] == old_m.conditions[cn]);
            }
            let ghost before = self@;
            self.remove_condition_by_name(&cn);
            proof {
                assert(cns@.take(i + 1) =~= cns@.take(i as int).push(cn));
                assert forall|c: ConditionName| cns@.take(i + 1).contains(c) <==> (cns@.take(i as int).contains(c) || c == cn) by {
                    lemma_push_contains(cns@.take(i as int), cn, c);
                }
                assert(cns@.take(i + 1).to_set() =~= cns@.take(i as int).to_set().insert(cn));
                assert(self@.conditions =~= old_m.conditions.remove_keys(cns@.take(i + 1).to_set()));
                assert(self@.index =~= old_m.index.filter(|p: (ConditionLifetime, ConditionName)|
                    !(cns@.take(i + 1).contains(p.1) && old_m.conditions[p.1].lifetimes@.contains(p.0))));
            }
            i = i + 1;
        }
        let ghost before_last = self@;
        self.by_lifetime = without_lifetime(&self.by_lifetime, *lt);
        proof {
            assert(cns@.take(n as int) =~= cns@);
            assert(cns@.to_set() =~= names);
            assert(self@.conditions == before_last.conditions);
            assert forall|c: ConditionName, j: int|
                #![trigger self@.conditions[c].lifetimes@[j]]
                self@.conditions.contains_key(c) && 0 <= j < self@.conditions[c].lifetimes@.len()
                implies self@.index.contains((self@.conditions[c].lifetimes@[j], c)) by {
                assert(before_last.index.contains((self@.conditions[c].lifetimes@[j], c)));
                if self@.conditions[c].lifetimes@[j] == *lt {
                    assert(old_m.conditions.contains_key(c));
                    assert(old_m.index.contains((*lt, c)));
                    assert(names.contains(c));
                }
            }
            assert forall|p: (ConditionLifetime, ConditionName)| #![auto] self@.index.contains(p) == index_after_lifetime(old_m.index, old_m.conditions, *lt, names).contains(p) by {
                assert(self@.index.contains(p) == (before_last.index.contains(p) && p.0 != *lt));
                assert(before_last.index.contains(p) == (old_m.index.contains(p)
                    && !(cns@.contains(p.1) && old_m.conditions[p.1].lifetimes@.contains(p.0))));
                assert(cns@.contains(p.1) == names.contains(p.1));
            }
            assert(self@.index =~= index_after_lifetime(old_m.index, old_m.conditions, *lt, names));
        }
        cns
    }

    /// The modifier of the effects of one held condition, folded onto `acc`.
    fn fold_condition_effects(cond: &Condition, acc: D20RollType, dist: AttackDistance, target: bool) -> (r: D20RollType)
        ensures
            r == fold_effects(acc, cond.effects@, dist, target),
    {
        let mut a = acc;
        let n = cond.effects.len();
        let mut j: usize = 0;
        while j < n
            invariant
                n == cond.effects.len(),
                j <= n,
                a == fold_effects(acc, cond.effects@.take(j as int), dist, target),
            decreases n - j,
        {
            let e = cond.effects[j];
            proof {
                assert(cond.effects@.take(j + 1).drop_last() =~= cond.effects@.take(j as int));
            }
            match e {
                ConditionEffect::AttackerMod(ad, roll) => {
                    if !target && ad.applies_to(&dist) {
                        a = a.combine(roll);
                        if a == D20RollType::FixedNormal {
                            proof {
                                lemma_fold_effects_split(acc, cond.effects@, j + 1, dist, target);
                                lemma_fold_effects_fixed(cond.effects@.skip(j + 1), dist, target);
                            }
                            return a;
                        }
                    }
                },
                ConditionEffect::AtkTargetedMod(ad, roll) => {
                    if target && ad.applies_to(&dist) {
                        a = a.combine(roll);
                        if a == D20RollType::FixedNormal {
                            proof {
                                lemma_fold_effects_split(acc, cond.effects@, j + 1, dist, target);
                                lemma_fold_effects_fixed(cond.effects@.skip(j + 1), dist, target);
                            }
                            return a;
                        }
                    }
                },
                _ => {},
            }
            j = j + 1;
        }
        proof {
            assert(cond.effects@.take(n as int) =~= cond.effects@);
        }
        a
    }

    /// The combined modifier of all held conditions, in declaration order.
    fn fold_mods(&self, dist: AttackDistance, target: bool) -> (r: D20RollType)
        requires
            self.wf(),
        ensures
            r == roll_mod(self@, dist, target),
    {
        let ghost names = all_condition_names();
        let mut acc = D20RollType::Normal;
        let mut i: usize = 0;
        while i < 4
            invariant
                i <= 4,
                self.wf(),
                names == all_condition_names(),
                acc == fold_conditions(D20RollType::Normal, names.take(i as int), self@.conditions, dist, target),
            decreases 4 - i,
        {
            let ghost cn = names[i as int];
            proof {
                assert(names.take(i + 1).drop_last() =~= names.take(i as int));
                assert(names.take(i + 1).last() == cn);
                assert(cn_index(cn) == i);
                assert(self@.conditions.contains_key(cn) == (self.conditions@[i as int] is Some));
            }
            match &self.conditions[i] {
                Some(cond) => {
                    acc = ConditionManager::fold_condition_effects(cond, acc, dist, target);
                    if acc == D20RollType::FixedNormal {
                        proof {
                            lemma_fold_conditions_split(D20RollType::Normal, names, i + 1, self@.conditions, dist, target);
                            lemma_fold_conditions_fixed(names.skip(i + 1), self@.conditions, dist, target);
                        }
                        return acc;
                    }
                },
                None => {},
            }
            i = i + 1;
        }
        proof {
            assert(names.take(4) =~= names);
        }
        acc
    }

    /// The combined roll modifier of the bearer's own attacks at distance
    /// `dist`: the attacker modifiers of all held conditions that apply,
    /// combined in turn starting from a normal roll.
    pub fn get_atk_mod(&self, dist: AttackDistance) -> (r: D20RollType)
        requires
            self.wf(),
        ensures
            r == roll_mod(self@, dist, false),
    {
        self.fold_mods(dist, false)
    }

    /// The combined roll modifier of attacks against the bearer at distance
    /// `dist`: the targeted modifiers of all held conditions that apply.
    pub fn get_atk_target_mod(&self, dist: AttackDistance) -> (r: D20RollType)
        requires
            self.wf(),
        ensures
            r == roll_mod(self@, dist, true),
    {
        self.fold_mods(dist, true)
    }

    /// The roll modifier of an attack by this bearer against the bearer of
    /// `target_cm`: both sides' modifiers combined; at any distance, the
    /// better of melee and ranged.
    pub fn overall_atk_mod(&self, target_cm: &ConditionManager, dist: AttackDistance) -> (r: D20RollType)
        requires
            self.wf(),
            target_cm.wf(),
        ensures
            r == overall_mod(self@, target_cm@, dist),
    {
        if dist == AttackDistance::Any {
            let melee = self.get_atk_mod(AttackDistance::Within5Ft).combine(target_cm.get_atk_target_mod(AttackDistance::Within5Ft));
            let ranged = self.get_atk_mod(AttackDistance::Beyond5Ft).combine(target_cm.get_atk_target_mod(AttackDistance::Beyond5Ft));
            melee.choose_better(&ranged)
        } else {
            let atk_mod = self.get_atk_mod(dist);
            let target_mod = target_cm.get_atk_target_mod(dist);
            atk_mod.combine(target_mod)
        }
    }
}

/// Whether one of the effects gives damage feature `f` to attacks by `atker`.
pub open spec fn effects_give_feature(effs: Seq<ConditionEffect>, atker: ParticipantId, f: DamageFeature) -> bool {
    effs.contains(ConditionEffect::TakeDmgFeatureFrom(f, atker))
}

impl ConditionManager {
    /// Appends to `terms` the bonus damage terms of `cond` for attacks by
    /// `atker`, and adds to `feats` (without repeats) its damage features for them.
    fn collect_dmg_mods(cond: &Condition, atker_pid: ParticipantId, feats: &mut Vec<DamageFeature>, terms: &mut Vec<DamageTerm>)
        ensures
            final(terms)@ == old(terms)@ + effect_terms(cond.effects@, atker_pid),
            forall|f: DamageFeature| final(feats)@.contains(f) <==> (old(feats)@.contains(f) || effects_give_feature(cond.effects@, atker_pid, f)),
    {
        let n = cond.effects.len();
        let mut j: usize = 0;
        while j < n
            invariant
                n == cond.effects.len(),
                j <= n,
                terms@ == old(terms)@ + effect_terms(cond.effects@.take(j as int), atker_pid),
                forall|f: DamageFeature| feats@.contains(f) <==> (old(feats)@.contains(f) || effects_give_feature(cond.effects@.take(j as int), atker_pid, f)),
            decreases n - j,
        {
            let e = cond.effects[j];
            let ghost old_terms = terms@;
            let ghost old_feats = feats@;
            proof {
                assert(cond.effects@.take(j + 1).drop_last() =~= cond.effects@.take(j as int));
                assert(cond.effects@.take(j + 1) =~= cond.effects@.take(j as int).push(e));
            }
            match e {
                ConditionEffect::TakeBonusDmgFrom(term, pid) => {
                    if pid == atker_pid {
                        terms.push(term);
                    }
                    proof {
                        assert(terms@ =~= old(terms)@ + effect_terms(cond.effects@.take(j + 1), atker_pid));
                    }
                },
                ConditionEffect::TakeDmgFeatureFrom(feat, pid) => {
                    if pid == atker_pid {
                        let mut present = false;
                        let m = feats.len();
                        let mut k: usize = 0;
                        while k < m
                            invariant
                                m == feats.len(),
                                k <= m,
                                present == feats@.take(k as int).contains(feat),
                            decreases m - k,
                        {
                            proof {
                                assert(feats@.take(k + 1) =~= feats@.take(k as int).push(feats@[k as int]));
                                lemma_push_contains(feats@.take(k as int), feats@[k as int], feat);
                            }
                            if feats[k] == feat {
                                present = true;
                            }
                            k = k + 1;
                        }
                        proof {
                            assert(feats@.take(m as int) =~= feats@);
                        }
                        if !present {
                            feats.push(feat);
                        }
                    }
                    proof {
                        assert forall|f: DamageFeature| feats@.contains(f) <==> (old(feats)@.contains(f) || effects_give_feature(cond.effects@.take(j + 1), atker_pid, f)) by {
                            lemma_push_contains(cond.effects@.take(j as int), e, ConditionEffect::TakeDmgFeatureFrom(f, atker_pid));
                            if pid == atker_pid {
                                lemma_push_contains(old_feats, feat, f);
                            }
                        }
                    }
                },
                _ => {
                    proof {
                        assert forall|f: DamageFeature| feats@.contains(f) <==> (old(feats)@.contains(f) || effects_give_feature(cond.effects@.take(j + 1), atker_pid, f)) by {
                            lemma_push_contains(cond.effects@.take(j as int), e, ConditionEffect::TakeDmgFeatureFrom(f, atker_pid));
                        }
                    }
                },
            }
            proof {
                match e {
                    ConditionEffect::TakeBonusDmgFrom(_, _) => {
                        assert forall|f: DamageFeature| feats@.contains(f) <==> (old(feats)@.contains(f) || effects_give_feature(cond.effects@.take(j + 1), atker_pid, f)) by {
                            lemma_push_contains(cond.effects@.take(j as int), e, ConditionEffect::TakeDmgFeatureFrom(f, atker_pid));
                        }
                    },
                    _ => {
                        assert(terms@ =~= old(terms)@ + effect_terms(cond.effects@.take(j + 1), atker_pid));
                    },
                }
            }
            j = j + 1;
        }
        proof {
            assert(cond.effects@.take(n as int) =~= cond.effects@);
        }
    }

    /// The damage features and bonus damage terms that the held conditions
    /// give to attacks by `atker_pid`: the features without repeats, the terms
    /// condition after condition in declaration order.
    pub fn overall_dmg_mods(&self, atker_pid: ParticipantId) -> (r: (Vec<DamageFeature>, Vec<DamageTerm>))
        requires
            self.wf(),
        ensures
            forall|f: DamageFeature| r.0@.contains(f) <==> gives_feature(self@.conditions, atker_pid, f),
            r.1@ == condition_terms(all_condition_names(), self@.conditions, atker_pid),
    {
        let ghost names = all_condition_names();
        let mut feats: Vec<DamageFeature> = Vec::new();
        let mut terms: Vec<DamageTerm> = Vec::new();
        let mut i: usize = 0;
        while i < 4
            invariant
                i <= 4,
                self.wf(),
                names == all_condition_names(),
                terms@ == condition_terms(names.take(i as int), self@.conditions, atker_pid),
                forall|f: DamageFeature| feats@.contains(f) <==> (exists|a: int| 0 <= a < i && #[trigger] self@.conditions.contains_key(names[a])
                    && effects_give_feature(self@.conditions[names[a]].effects@, atker_pid, f)),
            decreases 4 - i,
        {
            let ghost cn = names[i as int];
            proof {
                assert(names.take(i + 1).drop_last() =~= names.take(i as int));
                assert(names.take(i + 1).last() == cn);
                assert(cn_index(cn) == i);
                assert(self@.conditions.contains_key(cn) == (self.conditions@[i as int] is Some));
            }
            let ghost old_feats = feats@;
            match &self.conditions[i] {
                Some(cond) => {
                    ConditionManager::collect_dmg_mods(cond, atker_pid, &mut feats, &mut terms);
                },
                None => {},
            }
            proof {
                assert forall|f: DamageFeature| feats@.contains(f) <==> (exists|a: int| 0 <= a < i + 1 && #[trigger] self@.conditions.contains_key(names[a])
                    && effects_give_feature(self@.conditions[names[a]].effects@, atker_pid, f)) by {
                    if feats@.contains(f) && !old_feats.contains(f) {
                        assert(self@.conditions.contains_key(names[i as int]));
                    }
                }
            }
            i = i + 1;
        }
        proof {
            assert(names.take(4) =~= names);
            assert forall|f: DamageFeature| feats@.contains(f) <==> gives_feature(self@.conditions, atker_pid, f) by {
                if feats@.contains(f) {
                    let a = choose|a: int| 0 <= a < 4 && #[trigger] self@.conditions.contains_key(names[a])
                        && effects_give_feature(self@.conditions[names[a]].effects@, atker_pid, f);
                    let effs = self@.conditions[names[a]].effects@;
                    let k = choose|k: int| 0 <= k < effs.len() && effs[k] == ConditionEffect::TakeDmgFeatureFrom(f, atker_pid);
                    assert(self@.conditions[names[a]].effects@[k] == ConditionEffect::TakeDmgFeatureFrom(f, atker_pid));
                }
                if gives_feature(self@.conditions, atker_pid, f) {
                    let (cn, k) = choose|cn: ConditionName, k: int|
                        self@.conditions.contains_key(cn) && 0 <= k < self@.conditions[cn].effects@.len()
                            && #[trigger] self@.conditions[cn].effects@[k] == ConditionEffect::TakeDmgFeatureFrom(f, atker_pid);
                    lemma_cn_index_injective(cn, cn);
                    assert(names[cn_index(cn)] == cn);
                    assert(self@.conditions[cn].effects@.contains(ConditionEffect::TakeDmgFeatureFrom(f, atker_pid)));
                }
            }
        }
        (feats, terms)
    }
}
} // verus!
