use vstd::prelude::*;
use crate::combat_core::CCError;
use crate::combat_core::health::HitDice;
use crate::character_builder::classes::{ClassName, hit_die_of};
use crate::combat_core::ability_scores::{AbilityScores, modifier};
use crate::character_builder::combat::{
    ActionName, ActionType, AttackType, CombatAction, CombatOption, NUM_ACTION_NAMES, action_pos, lemma_action_pos,
};
use crate::character_builder::equipment::{ArmorType, Equipment, OffHand};
use crate::character_builder::resources::{
    ResourceManager, ResourceManagerModel, ResourceModel, ResourceName, create_resource_manager, starting_resources,
};
use crate::character_builder::weapon_attack::{HandType, NumHands, WeaponAttack, is_new_attack, primary_hands_of};
use crate::character_builder::feature::{AbilityScoreIncrease, ExtraAttack, SaveProficiencies};
use crate::character_builder::classes::fighter::{ImprovedCritical, Indomitable};
use crate::character_builder::feature::feats::{
    GreatWeaponMaster, PolearmMaster, Resilient, SharpShooter, gwm_applies_to, is_gwm_option, is_pam_option,
    is_ss_option, pam_applies_to, ss_applies_to,
};
use crate::character_builder::resources::{RefreshBy, RefreshTiming, Resource, ResourceCap};
use crate::combat_core::ability_scores::{Ability, AbilityScore, score_for, with_score};
use crate::combat_core::damage::DamageFeature;
use crate::character_builder::attributed_bonus::{
    AttributedBonus, AttributedBonusView, BonusTerm, BonusTermView, BonusType, bonus_total, sums_fit, terms_sum,
};
use crate::character_builder::feature::fighting_style::{FightingStyle, FightingStyles};
use crate::character_builder::feature::feats::{melee_attack, ranged_attack};

verus! {

/// Errors raised while building a character.
#[derive(Debug, Clone)]
pub enum CBError {
    NoCache,
    NoWeaponSet,
    NotImplemented,
    NoClassSet,
    NoSubClassSet,
    InvalidLevel,
    RequirementsNotMet,
    CCE(CCError),
    Other(String),
}

impl From<CCError> for CBError {
    fn from(value: CCError) -> (r: Self)
        ensures
            r matches CBError::CCE(e) && e == value,
    {
        CBError::CCE(value)
    }
}

// A combat error may hold a string, which no spec value can build: the
// contract is the `ensures` of `from` itself.
impl vstd::std_specs::convert::FromSpecImpl<CCError> for CBError {
    open spec fn obeys_from_spec() -> bool {
        false
    }

    open spec fn from_spec(v: CCError) -> CBError {
        arbitrary()
    }
}

/// The number of the first `k` class levels that are levels of `class`.
pub open spec fn count_class(lvls: Seq<ClassName>, class: ClassName, k: int) -> int
    decreases k,
{
    if k <= 0 {
        0
    } else {
        count_class(lvls, class, k - 1) + if lvls[k - 1] == class { 1int } else { 0 }
    }
}

/// How many of the class levels are levels of `class`.
pub fn class_level(class_lvls: &Vec<ClassName>, class: ClassName) -> (r: u8)
    requires
        class_lvls@.len() <= u8::MAX,
    ensures
        r == count_class(class_lvls@, class, class_lvls@.len() as int),
{
    let n = class_lvls.len();
    let mut count: u8 = 0;
    let mut i: usize = 0;
    while i < n
        invariant
            n == class_lvls@.len(),
            n <= u8::MAX,
            i <= n,
            count == count_class(class_lvls@, class, i as int),
            count <= i,
        decreases n - i,
    {
        if class_lvls[i] == class {
            count = count + 1;
        }
        i = i + 1;
    }
    count
}

/// The proficiency bonus at a character level: 2 from level 1, one more every four levels.
pub open spec fn prof_bonus_at(level: int) -> int {
    (level + 3) / 4 + 1
}

/// The proficiency bonus at a character level.
pub fn prof_bonus(level: u8) -> (r: u8)
    requires
        level <= 252,
    ensures
        r == prof_bonus_at(level as int),
{
    (level + 3) / 4 + 1
}

/// The largest roll of a hit die.
pub open spec fn die_max(hd: HitDice) -> int {
    match hd {
        HitDice::D6 => 6,
        HitDice::D8 => 8,
        HitDice::D10 => 10,
        HitDice::D12 => 12,
    }
}

/// The fixed hit points of a hit die per level after the first.
pub open spec fn die_per_level(hd: HitDice) -> int {
    match hd {
        HitDice::D6 => 4,
        HitDice::D8 => 5,
        HitDice::D10 => 6,
        HitDice::D12 => 7,
    }
}

/// The hit points of the dice of the first `k` class levels: the largest
/// roll of the first, and the fixed hit points of each of the others.
pub open spec fn dice_hp(lvls: Seq<ClassName>, k: int) -> int
    decreases k,
{
    if k <= 0 {
        0
    } else if k == 1 {
        die_max(hit_die_of(lvls[0]))
    } else {
        dice_hp(lvls, k - 1) + die_per_level(hit_die_of(lvls[k - 1]))
    }
}

/// The hit points of a character of the given class levels, character level
/// and constitution modifier.
pub open spec fn max_hp_of(lvls: Seq<ClassName>, level: int, con_mod: int) -> int {
    dice_hp(lvls, lvls.len() as int) + level * con_mod
}

/// The hit points of a character: the largest roll of the hit die of the
/// first class level, the fixed hit points of the others, and the
/// constitution modifier once per character level.
pub fn max_hp(class_lvls: &Vec<ClassName>, level: u8, con_mod: i8) -> (r: isize)
    requires
        class_lvls@.len() <= u8::MAX,
    ensures
        r == max_hp_of(class_lvls@, level as int, con_mod as int),
{
    let n = class_lvls.len();
    let mut hp: isize = 0;
    let mut i: usize = 0;
    while i < n
        invariant
            n == class_lvls@.len(),
            n <= u8::MAX,
            i <= n,
            hp == dice_hp(class_lvls@, i as int),
            0 <= hp <= 12 * i,
        decreases n - i,
    {
        let hd = class_lvls[i].get_hit_die();
        if i == 0 {
            hp = hp + hd.get_max();
        } else {
            hp = hp + hd.get_per_lvl();
        }
        i = i + 1;
    }
    assert(-128 * 255 <= (level as int) * (con_mod as int) <= 127 * 255) by (nonlinear_arith)
        requires
            0 <= level <= 255,
            -128 <= con_mod <= 127;
    hp + (level as isize) * (con_mod as isize)
}

/// The dexterity bonus to armor class under armor of a category: none under
/// heavy armor, at most two under medium armor, all of it otherwise.
pub open spec fn dex_contribution(t: ArmorType, dex_mod: int) -> int {
    match t {
        ArmorType::HeavyArmor => 0,
        ArmorType::MediumArmor => if dex_mod < 2 { dex_mod } else { 2 },
        _ => dex_mod,
    }
}

/// The armor class of the equipment for a dexterity modifier: the armor's
/// base and magic bonus, the shield's base and magic bonus, and the
/// dexterity contribution that the armor allows.
pub open spec fn armor_class_of(e: Equipment, dex_mod: int) -> int {
    let armor = e.armor_of().ac_of();
    let shield: int = match e.off_of() {
        OffHand::Shield(s) => s.base_of() + match s.bonus_of() { Some(b) => b as int, None => 0 },
        _ => 0,
    };
    armor.base_of() + (match armor.bonus_of() { Some(b) => b as int, None => 0 }) + shield
        + dex_contribution(e.armor_of().type_of(), dex_mod)
}

/// The armor class of a character with the equipment and dexterity modifier.
pub fn armor_class(equipment: &Equipment, dex_mod: i8) -> (r: i32)
    ensures
        r == armor_class_of(*equipment, dex_mod as int),
{
    let acs = equipment.get_armor().get_ac_source();
    let armor_ac = acs.get_base_ac() as i32;
    let armor_mb = match acs.get_magic_bonus() {
        Some(b) => b as i32,
        None => 0,
    };
    let (shield_ac, shield_mb) = match equipment.get_shield() {
        Some(s) => (s.get_base_ac() as i32, match s.get_magic_bonus() {
            Some(b) => b as i32,
            None => 0,
        }),
        None => (0, 0),
    };
    let dex_contr: i32 = match equipment.get_armor().get_armor_type() {
        ArmorType::HeavyArmor => 0,
        ArmorType::MediumArmor => if (dex_mod as i32) < 2 { dex_mod as i32 } else { 2 },
        _ => dex_mod as i32,
    };
    armor_ac + armor_mb + shield_ac + shield_mb + dex_contr
}

/// How dexterity enters the armor class: with no armor or light armor each
/// point of dexterity modifier adds one; under medium armor each point adds
/// one up to a modifier of two and nothing beyond; under heavy armor it adds
/// nothing. With a modifier of zero the armor class is the armor's base and
/// magic bonus plus the shield's, whatever the armor.
pub proof fn lemma_dexterity_in_armor_class(e: Equipment, d: int)
    ensures
        armor_class_of(e, 0) == e.armor_of().ac_of().base_of()
            + (match e.armor_of().ac_of().bonus_of() { Some(b) => b as int, None => 0 })
            + (match e.off_of() {
                OffHand::Shield(s) => s.base_of() + match s.bonus_of() { Some(b) => b as int, None => 0 },
                _ => 0,
            }),
        (e.armor_of().type_of() == ArmorType::NoArmor || e.armor_of().type_of() == ArmorType::LightArmor)
            ==> armor_class_of(e, d + 1) == armor_class_of(e, d) + 1,
        e.armor_of().type_of() == ArmorType::MediumArmor && d < 2 ==> armor_class_of(e, d + 1) == armor_class_of(e, d) + 1,
        e.armor_of().type_of() == ArmorType::MediumArmor && d >= 2 ==> armor_class_of(e, d) == armor_class_of(e, 2),
        e.armor_of().type_of() == ArmorType::MediumArmor && d <= 2 ==> armor_class_of(e, d) == armor_class_of(e, 0) + d,
        e.armor_of().type_of() == ArmorType::HeavyArmor ==> armor_class_of(e, d) == armor_class_of(e, 0),
{
}

/// The hit points of the class dice: the first level gives the largest roll
/// of the class's die, twelve for barbarians, ten for fighters, paladins and
/// rangers, six for sorcerers and wizards, eight for the others; each later
/// level of the class gives seven, six, four or five respectively. The
/// constitution modifier is added once per character level.
pub proof fn lemma_hit_points_by_class(c: ClassName, con: int)
    ensures
        max_hp_of(seq![c], 1, con) == first_level_hp(c) + con,
        max_hp_of(seq![c, c], 2, con) == first_level_hp(c) + later_level_hp(c) + 2 * con,
{
    let one = seq![c];
    let two = seq![c, c];
    assert(dice_hp(one, 1) == die_max(hit_die_of(c)));
    assert(dice_hp(two, 1) == die_max(hit_die_of(c)));
    assert(dice_hp(two, 2) == dice_hp(two, 1) + die_per_level(hit_die_of(two[1])));
}

/// The hit points of the first level of a class, by the rules.
pub open spec fn first_level_hp(c: ClassName) -> int {
    match c {
        ClassName::Barbarian => 12,
        ClassName::Fighter => 10,
        ClassName::Paladin => 10,
        ClassName::Ranger => 10,
        ClassName::Sorcerer => 6,
        ClassName::Wizard => 6,
        ClassName::Bard => 8,
        ClassName::Cleric => 8,
        ClassName::Druid => 8,
        ClassName::Monk => 8,
        ClassName::Rogue => 8,
        ClassName::Warlock => 8,
    }
}

/// The fixed hit points of each later level of a class, by the rules.
pub open spec fn later_level_hp(c: ClassName) -> int {
    match c {
        ClassName::Barbarian => 7,
        ClassName::Fighter => 6,
        ClassName::Paladin => 6,
        ClassName::Ranger => 6,
        ClassName::Sorcerer => 4,
        ClassName::Wizard => 4,
        ClassName::Bard => 5,
        ClassName::Cleric => 5,
        ClassName::Druid => 5,
        ClassName::Monk => 5,
        ClassName::Rogue => 5,
        ClassName::Warlock => 5,
    }
}

/// The proficiency bonus is two at level one and rises by one at levels
/// five, nine, thirteen and seventeen, staying the same on each block of four
/// levels: at level `l` it is two plus a quarter of `l - 1`, rounded down.
pub proof fn lemma_prof_bonus_steps(l: int)
    requires
        1 <= l,
    ensures
        prof_bonus_at(l) == 2 + (l - 1) / 4,
        prof_bonus_at(1) == 2,
        l % 4 == 0 ==> prof_bonus_at(l + 1) == prof_bonus_at(l) + 1,
        l % 4 != 0 ==> prof_bonus_at(l + 1) == prof_bonus_at(l),
{
}

/// More dexterity never lowers the armor class.
pub proof fn lemma_armor_class_monotone(e: Equipment, d1: int, d2: int)
    requires
        d1 <= d2,
    ensures
        armor_class_of(e, d1) <= armor_class_of(e, d2),
{
}

/// The options held in a table indexed by action name.
pub open spec fn action_table(v: Seq<Option<CombatOption>>) -> Map<ActionName, CombatOption> {
    Map::new(|a: ActionName| v[action_pos(a)] is Some, |a: ActionName| v[action_pos(a)]->0)
}

/// Writing one slot of the table changes the map at that name only.
proof fn lemma_action_table_update(v: Seq<Option<CombatOption>>, a: ActionName, val: Option<CombatOption>)
    requires
        v.len() == NUM_ACTION_NAMES,
    ensures
        action_table(v.update(action_pos(a), val)) == match val {
            Some(o) => action_table(v).insert(a, o),
            None => action_table(v).remove(a),
        },
{
    lemma_action_pos(a, a);
    assert forall|b: ActionName| #![trigger action_pos(b)] (action_pos(b) == action_pos(a)) == (b == a) by {
        lemma_action_pos(b, a);
    }
    match val {
        Some(o) => assert(action_table(v.update(action_pos(a), val)) =~= action_table(v).insert(a, o)),
        None => assert(action_table(v.update(action_pos(a), val)) =~= action_table(v).remove(a)),
    }
}

/// `o` is the option of attacking with `wa`, which `WeaponAttack::new` made
/// with weapon `w` held in `hand` with `hands` hands, at cost `at`.
pub open spec fn attack_option(o: CombatOption, at: ActionType, w: crate::character_builder::equipment::Weapon, hand: HandType, hands: NumHands) -> bool {
    &&& o.action_type == at
    &&& o.req_target
    &&& o.action matches CombatAction::WeaponAttack(wa) && is_new_attack(wa, w, hand, hands)
}

/// The options after great weapon master derives option `dst` from option `src`: when
/// `src` is held and great weapon master applies to it, `dst` is set to the derived
/// option; otherwise nothing changes.
pub open spec fn gwm_derived(new_m: Map<ActionName, CombatOption>, old_m: Map<ActionName, CombatOption>, src: ActionName, dst: ActionName) -> bool {
    if old_m.contains_key(src) && gwm_applies_to(old_m[src]) {
        new_m == old_m.insert(dst, new_m[dst]) && is_gwm_option(new_m[dst], old_m[src])
    } else {
        new_m == old_m
    }
}

/// The options after sharpshooter derives option `dst` from option `src`: when
/// `src` is held and sharpshooter applies to it, `dst` is set to the derived
/// option; otherwise nothing changes.
pub open spec fn ss_derived(new_m: Map<ActionName, CombatOption>, old_m: Map<ActionName, CombatOption>, src: ActionName, dst: ActionName) -> bool {
    if old_m.contains_key(src) && ss_applies_to(old_m[src]) {
        new_m == old_m.insert(dst, new_m[dst]) && is_ss_option(new_m[dst], old_m[src])
    } else {
        new_m == old_m
    }
}

/// The options after polearm master derives option `dst` from option `src`: when
/// `src` is held and polearm master applies to it, `dst` is set to the derived
/// option; otherwise nothing changes.
pub open spec fn pam_derived(new_m: Map<ActionName, CombatOption>, old_m: Map<ActionName, CombatOption>, src: ActionName, dst: ActionName) -> bool {
    if old_m.contains_key(src) && pam_applies_to(old_m[src]) {
        new_m == old_m.insert(dst, new_m[dst]) && is_pam_option(new_m[dst], old_m[src])
    } else {
        new_m == old_m
    }
}

/// The resource of the great weapon master bonus attack: soft cap one, none
/// held, emptied at the start and at the end of the character's turn.
pub open spec fn gwm_resource() -> ResourceModel {
    ResourceModel {
        max: ResourceCap::Soft(1),
        current: 0,
        refresh: map![RefreshTiming::StartMyTurn => RefreshBy::ToEmpty, RefreshTiming::EndMyTurn => RefreshBy::ToEmpty],
        expirations: Set::<RefreshTiming>::empty(),
    }
}

/// The same character with other options, other resources or other scores:
/// name, level, classes and equipment are kept.
pub open spec fn same_build(a: Character, b: Character) -> bool {
    &&& a.wf() == b.wf()
    &&& a.name_of() == b.name_of()
    &&& a.level_of() == b.level_of()
    &&& a.classes_of() == b.classes_of()
    &&& a.equipment_of() == b.equipment_of()
    &&& a.ac_bonus_of() == b.ac_bonus_of()
}

/// A character: name, ability scores, level and class levels, equipment,
/// combat options by name, and resources.
#[derive(Debug, Clone)]
pub struct Character {
    name: String,
    ability_scores: AbilityScores,
    level: u8,
    class_lvls: Vec<ClassName>,
    equipment: Equipment,
    armor_class: AttributedBonus,
    combat_actions: Vec<Option<CombatOption>>,
    resource_manager: ResourceManager,
}

impl Character {
    /// The name.
    pub closed spec fn name_of(self) -> Seq<char> {
        self.name@
    }

    /// The ability scores.
    pub closed spec fn scores_of(self) -> AbilityScores {
        self.ability_scores
    }

    /// The character level.
    pub closed spec fn level_of(self) -> u8 {
        self.level
    }

    /// The class of each level, in the order they were taken.
    pub closed spec fn classes_of(self) -> Seq<ClassName> {
        self.class_lvls@
    }

    /// The equipment.
    pub closed spec fn equipment_of(self) -> Equipment {
        self.equipment
    }

    /// The bonuses to armor class beyond those of the equipment and dexterity.
    pub closed spec fn ac_bonus_of(self) -> AttributedBonusView {
        self.armor_class@
    }

    /// The combat options, by name.
    pub closed spec fn actions_of(self) -> Map<ActionName, CombatOption> {
        action_table(self.combat_actions@)
    }

    /// The resources.
    pub closed spec fn resources_of(self) -> ResourceManagerModel {
        self.resource_manager@
    }

    /// The character is well formed: one slot per action name, a
    /// well-formed resource manager, and one class per level.
    pub closed spec fn wf(self) -> bool {
        &&& self.combat_actions@.len() == NUM_ACTION_NAMES
        &&& self.resource_manager.wf()
        &&& self.class_lvls@.len() == self.level
    }

    /// Sets the option of a name.
    fn insert_action(&mut self, an: ActionName, co: CombatOption)
        requires
            old(self).wf(),
        ensures
            final(self).wf(),
            final(self).actions_of() == old(self).actions_of().insert(an, co),
            final(self).ac_bonus_of() == old(self).ac_bonus_of(),
            final(self).name_of() == old(self).name_of(),
            final(self).scores_of() == old(self).scores_of(),
            final(self).level_of() == old(self).level_of(),
            final(self).classes_of() == old(self).classes_of(),
            final(self).equipment_of() == old(self).equipment_of(),
            final(self).resources_of() == old(self).resources_of(),
    {
        proof {
            lemma_action_table_update(self.combat_actions@, an, Some(co));
        }
        let i = an.index();
        self.combat_actions.set(i, Some(co));
    }

    /// Sets option `dst` to what great weapon master derives from option `src`, if anything.
    fn derive_gwm(&mut self, src: ActionName, dst: ActionName)
        requires
            old(self).wf(),
        ensures
            final(self).wf(),
            same_build(*final(self), *old(self)),
            final(self).scores_of() == old(self).scores_of(),
            final(self).resources_of() == old(self).resources_of(),
            gwm_derived(final(self).actions_of(), old(self).actions_of(), src, dst),
    {
        let new_co = match self.get_combat_option(src) {
            Some(co) => GreatWeaponMaster::get_new_co(co),
            None => None,
        };
        if let Some(c) = new_co {
            self.insert_action(dst, c);
        }
    }

    /// Sets option `dst` to what sharpshooter derives from option `src`, if anything.
    fn derive_ss(&mut self, src: ActionName, dst: ActionName)
        requires
            old(self).wf(),
        ensures
            final(self).wf(),
            same_build(*final(self), *old(self)),
            final(self).scores_of() == old(self).scores_of(),
            final(self).resources_of() == old(self).resources_of(),
            ss_derived(final(self).actions_of(), old(self).actions_of(), src, dst),
    {
        let new_co = match self.get_combat_option(src) {
            Some(co) => SharpShooter::get_new_co(co),
            None => None,
        };
        if let Some(c) = new_co {
            self.insert_action(dst, c);
        }
    }

    /// Sets option `dst` to what polearm master derives from option `src`, if anything.
    fn derive_pam(&mut self, src: ActionName, dst: ActionName)
        requires
            old(self).wf(),
        ensures
            final(self).wf(),
            same_build(*final(self), *old(self)),
            final(self).scores_of() == old(self).scores_of(),
            final(self).resources_of() == old(self).resources_of(),
            pam_derived(final(self).actions_of(), old(self).actions_of(), src, dst),
    {
        let new_co = match self.get_combat_option(src) {
            Some(co) => PolearmMaster::get_new_co(co),
            None => None,
        };
        if let Some(c) = new_co {
            self.insert_action(dst, c);
        }
    }

    /// A level-zero character with the equipment: one attack per attack
    /// action, a targeted attack with the main-hand weapon, a targeted
    /// bonus-action attack with the off-hand weapon if there is one, and the
    /// starting resources.
    pub fn new(name: String, ability_scores: AbilityScores, equipment: Equipment) -> (r: Self)
        ensures
            r.wf(),
            r.name_of() == name@,
            r.scores_of() == ability_scores,
            r.level_of() == 0,
            r.classes_of() == Seq::<ClassName>::empty(),
            r.equipment_of() == equipment,
            r.ac_bonus_of() == (AttributedBonusView { name: "AC"@, terms: Seq::empty(), temp_terms: Seq::empty() }),
            r.resources_of().perm == starting_resources(),
            r.resources_of().temp == Map::<ResourceName, ResourceModel>::empty(),
            r.actions_of().dom() == (match equipment.off_of() {
                OffHand::Weapon(_) => set![ActionName::AttackAction, ActionName::PrimaryAttack(AttackType::Normal), ActionName::OffhandAttack(AttackType::Normal)],
                _ => set![ActionName::AttackAction, ActionName::PrimaryAttack(AttackType::Normal)],
            }),
            r.actions_of()[ActionName::AttackAction] == CombatOption::new_spec(ActionType::Action, CombatAction::AdditionalAttacks(1)),
            attack_option(r.actions_of()[ActionName::PrimaryAttack(AttackType::Normal)], ActionType::SingleAttack,
                equipment.main_of(), HandType::MainHand, primary_hands_of(equipment)),
            match equipment.off_of() {
                OffHand::Weapon(w) => attack_option(r.actions_of()[ActionName::OffhandAttack(AttackType::Normal)],
                    ActionType::BonusAction, w, HandType::OffHand, NumHands::OneHand),
                _ => true,
            },
    {
        let mut table: Vec<Option<CombatOption>> = Vec::new();
        let mut i: usize = 0;
        while i < NUM_ACTION_NAMES
            invariant
                i <= NUM_ACTION_NAMES,
                table@.len() == i,
                forall|k: int| 0 <= k < i ==> table@[k] is None,
            decreases NUM_ACTION_NAMES - i,
        {
            table.push(None);
            i = i + 1;
        }
        assert(action_table(table@) =~= Map::<ActionName, CombatOption>::empty());
        let pa = WeaponAttack::primary_weapon(&equipment);
        let oa = WeaponAttack::offhand_weapon(&equipment);
        let mut c = Character {
            name,
            ability_scores,
            level: 0,
            class_lvls: Vec::new(),
            equipment,
            armor_class: AttributedBonus::new(String::from_str("AC")),
            combat_actions: table,
            resource_manager: create_resource_manager(),
        };
        c.insert_action(ActionName::AttackAction, CombatOption::new(ActionType::Action, CombatAction::AdditionalAttacks(1)));
        c.insert_action(ActionName::PrimaryAttack(AttackType::Normal), CombatOption::new_target(ActionType::SingleAttack, CombatAction::WeaponAttack(pa), true));
        if let Some(owa) = oa {
            c.insert_action(ActionName::OffhandAttack(AttackType::Normal), CombatOption::new_target(ActionType::BonusAction, CombatAction::WeaponAttack(owa), true));
        }
        assert(c.actions_of().dom() =~= (match c.equipment.off_of() {
            OffHand::Weapon(_) => set![ActionName::AttackAction, ActionName::PrimaryAttack(AttackType::Normal), ActionName::OffhandAttack(AttackType::Normal)],
            _ => set![ActionName::AttackAction, ActionName::PrimaryAttack(AttackType::Normal)],
        }));
        c
    }

    /// The name.
    pub fn get_name(&self) -> (r: &str)
        ensures
            r@ == self.name_of(),
    {
        self.name.as_str()
    }

    /// The ability scores.
    pub fn get_ability_scores(&self) -> (r: &AbilityScores)
        ensures
            *r == self.scores_of(),
    {
        &self.ability_scores
    }

    /// The class of each level.
    pub fn get_class_levels(&self) -> (r: &Vec<ClassName>)
        ensures
            r@ == self.classes_of(),
    {
        &self.class_lvls
    }

    /// The number of levels in `class`.
    pub fn get_class_level(&self, class: ClassName) -> (r: u8)
        requires
            self.wf(),
        ensures
            r == count_class(self.classes_of(), class, self.classes_of().len() as int),
    {
        class_level(&self.class_lvls, class)
    }

    /// The character level.
    pub fn get_level(&self) -> (r: u8)
        ensures
            r == self.level_of(),
    {
        self.level
    }

    /// The proficiency bonus of the character level.
    pub fn get_prof_bonus(&self) -> (r: u8)
        requires
            self.level_of() <= 252,
        ensures
            r == prof_bonus_at(self.level_of() as int),
    {
        prof_bonus(self.level)
    }

    /// The hit points: the hit dice of the class levels and the constitution
    /// modifier once per level.
    pub fn get_max_hp(&self) -> (r: isize)
        requires
            self.wf(),
        ensures
            r == max_hp_of(self.classes_of(), self.level_of() as int, modifier(self.scores_of().constitution.score_of() as int)),
    {
        max_hp(&self.class_lvls, self.level, self.ability_scores.constitution.get_mod())
    }

    /// The equipment.
    pub fn get_equipment(&self) -> (r: &Equipment)
        ensures
            *r == self.equipment_of(),
    {
        &self.equipment
    }

    /// The armor class of the equipment and dexterity.
    pub fn get_ac(&self) -> (r: i32)
        requires
            self.level_of() <= 252,
            sums_fit(self.ac_bonus_of().terms, self.scores_of(), prof_bonus_at(self.level_of() as int), 0),
            sums_fit(self.ac_bonus_of().temp_terms, self.scores_of(), prof_bonus_at(self.level_of() as int),
                terms_sum(self.ac_bonus_of().terms, self.scores_of(), prof_bonus_at(self.level_of() as int), self.ac_bonus_of().terms.len() as int)),
            i32::MIN <= armor_class_of(self.equipment_of(), modifier(self.scores_of().dexterity.score_of() as int))
                + bonus_total(self.ac_bonus_of(), self.scores_of(), prof_bonus_at(self.level_of() as int)) <= i32::MAX,
        ensures
            r == armor_class_of(self.equipment_of(), modifier(self.scores_of().dexterity.score_of() as int))
                + bonus_total(self.ac_bonus_of(), self.scores_of(), prof_bonus_at(self.level_of() as int)),
    {
        let base = armor_class(&self.equipment, self.ability_scores.dexterity.get_mod());
        let extra = self.armor_class.get_value(&self.ability_scores, prof_bonus(self.level));
        base + extra
    }

    /// The option of a name, if the character has one.
    pub fn get_combat_option(&self, an: ActionName) -> (r: Option<&CombatOption>)
        requires
            self.wf(),
        ensures
            match r {
                Some(o) => self.actions_of().contains_key(an) && *o == self.actions_of()[an],
                None => !self.actions_of().contains_key(an),
            },
    {
        proof {
            lemma_action_pos(an, an);
        }
        self.combat_actions[an.index()].as_ref()
    }

    /// Whether the character has an option of that name.
    pub fn has_combat_option(&self, an: ActionName) -> (r: bool)
        requires
            self.wf(),
        ensures
            r == self.actions_of().contains_key(an),
    {
        proof {
            lemma_action_pos(an, an);
        }
        self.combat_actions[an.index()].is_some()
    }

    /// The weapon attack of the normal main-hand attack, if there is one.
    pub fn get_weapon_attack(&self) -> (r: Option<&WeaponAttack>)
        requires
            self.wf(),
        ensures
            match r {
                Some(wa) => self.actions_of().contains_key(ActionName::PrimaryAttack(AttackType::Normal))
                    && self.actions_of()[ActionName::PrimaryAttack(AttackType::Normal)].action == CombatAction::WeaponAttack(*wa),
                None => !(self.actions_of().contains_key(ActionName::PrimaryAttack(AttackType::Normal))
                    && self.actions_of()[ActionName::PrimaryAttack(AttackType::Normal)].action is WeaponAttack),
            },
    {
        match self.get_combat_option(ActionName::PrimaryAttack(AttackType::Normal)) {
            Some(co) => match &co.action {
                CombatAction::WeaponAttack(wa) => Some(wa),
                _ => None,
            },
            None => None,
        }
    }

    /// The weapon attack of the normal off-hand attack, if there is one.
    pub fn get_offhand_attack(&self) -> (r: Option<&WeaponAttack>)
        requires
            self.wf(),
        ensures
            match r {
                Some(wa) => self.actions_of().contains_key(ActionName::OffhandAttack(AttackType::Normal))
                    && self.actions_of()[ActionName::OffhandAttack(AttackType::Normal)].action == CombatAction::WeaponAttack(*wa),
                None => !(self.actions_of().contains_key(ActionName::OffhandAttack(AttackType::Normal))
                    && self.actions_of()[ActionName::OffhandAttack(AttackType::Normal)].action is WeaponAttack),
            },
    {
        match self.get_combat_option(ActionName::OffhandAttack(AttackType::Normal)) {
            Some(co) => match &co.action {
                CombatAction::WeaponAttack(wa) => Some(wa),
                _ => None,
            },
            None => None,
        }
    }

    /// The resources.
    pub fn get_resource_manager(&self) -> (r: &ResourceManager)
        ensures
            r@ == self.resources_of(),
    {
        &self.resource_manager
    }
}


/// What great weapon master does to option `dst`, given option `src` of the options before:
/// when `src` is held and great weapon master applies to it, `dst` becomes the derived
/// option; otherwise `dst` stays as it was.
pub open spec fn gwm_slot(new_m: Map<ActionName, CombatOption>, old_m: Map<ActionName, CombatOption>, src: ActionName, dst: ActionName) -> bool {
    if old_m.contains_key(src) && gwm_applies_to(old_m[src]) {
        new_m.contains_key(dst) && is_gwm_option(new_m[dst], old_m[src])
    } else {
        new_m.contains_key(dst) == old_m.contains_key(dst) && (old_m.contains_key(dst) ==> new_m[dst] == old_m[dst])
    }
}

/// What sharpshooter does to option `dst`, given option `src` of the options before:
/// when `src` is held and sharpshooter applies to it, `dst` becomes the derived
/// option; otherwise `dst` stays as it was.
pub open spec fn ss_slot(new_m: Map<ActionName, CombatOption>, old_m: Map<ActionName, CombatOption>, src: ActionName, dst: ActionName) -> bool {
    if old_m.contains_key(src) && ss_applies_to(old_m[src]) {
        new_m.contains_key(dst) && is_ss_option(new_m[dst], old_m[src])
    } else {
        new_m.contains_key(dst) == old_m.contains_key(dst) && (old_m.contains_key(dst) ==> new_m[dst] == old_m[dst])
    }
}

/// What polearm master does to option `dst`, given option `src` of the options before:
/// when `src` is held and polearm master applies to it, `dst` becomes the derived
/// option; otherwise `dst` stays as it was.
pub open spec fn pam_slot(new_m: Map<ActionName, CombatOption>, old_m: Map<ActionName, CombatOption>, src: ActionName, dst: ActionName) -> bool {
    if old_m.contains_key(src) && pam_applies_to(old_m[src]) {
        new_m.contains_key(dst) && is_pam_option(new_m[dst], old_m[src])
    } else {
        new_m.contains_key(dst) == old_m.contains_key(dst) && (old_m.contains_key(dst) ==> new_m[dst] == old_m[dst])
    }
}

/// Every option other than those of `keys` is as it was.
pub open spec fn others_kept(new_m: Map<ActionName, CombatOption>, old_m: Map<ActionName, CombatOption>, keys: Set<ActionName>) -> bool {
    forall|a: ActionName| !keys.contains(a) ==> (#[trigger] new_m.contains_key(a) == old_m.contains_key(a)
        && (old_m.contains_key(a) ==> new_m[a] == old_m[a]))
}

/// The scores with the score of `a` raised by one (up to its cap).
pub open spec fn score_increased(s: AbilityScores, a: Ability) -> AbilityScores {
    with_score(s, a, score_for(s, a).increased())
}

/// The scores with save proficiency in the first `k` abilities of `abs`.
pub open spec fn saves_set(s: AbilityScores, abs: Seq<Ability>, k: int) -> AbilityScores
    decreases k,
{
    if k <= 0 {
        s
    } else {
        let p = saves_set(s, abs, k - 1);
        with_score(p, abs[k - 1], score_for(p, abs[k - 1]).with_prof_save(true))
    }
}

impl Character {
    /// Raises the score of an ability by one (up to its cap).
    fn increase_score(&mut self, a: Ability)
        ensures
            final(self).scores_of() == score_increased(old(self).scores_of(), a),
            same_build(*final(self), *old(self)),
            final(self).actions_of() == old(self).actions_of(),
            final(self).resources_of() == old(self).resources_of(),
    {
        self.ability_scores.get_score_mut(&a).increase();
    }

    /// Makes saves with an ability proficient.
    fn set_save_prof(&mut self, a: Ability)
        ensures
            final(self).scores_of() == with_score(old(self).scores_of(), a, score_for(old(self).scores_of(), a).with_prof_save(true)),
            same_build(*final(self), *old(self)),
            final(self).actions_of() == old(self).actions_of(),
            final(self).resources_of() == old(self).resources_of(),
    {
        self.ability_scores.get_score_mut(&a).set_prof_save(true);
    }
}

impl AbilityScoreIncrease {
    /// Raises the two abilities by one each (up to their caps); always succeeds.
    pub fn apply(&self, character: &mut Character) -> (r: Result<(), CBError>)
        ensures
            r is Ok,
            final(character).scores_of() == score_increased(score_increased(old(character).scores_of(), self.0), self.1),
            same_build(*final(character), *old(character)),
            final(character).actions_of() == old(character).actions_of(),
            final(character).resources_of() == old(character).resources_of(),
    {
        character.increase_score(self.0);
        character.increase_score(self.1);
        Ok(())
    }
}

impl SaveProficiencies {
    /// Makes saves with each of the abilities proficient; always succeeds.
    pub fn apply(&self, character: &mut Character) -> (r: Result<(), CBError>)
        ensures
            r is Ok,
            final(character).scores_of() == saves_set(old(character).scores_of(), self.abilities@, self.abilities@.len() as int),
            same_build(*final(character), *old(character)),
            final(character).actions_of() == old(character).actions_of(),
            final(character).resources_of() == old(character).resources_of(),
    {
        let mut i: usize = 0;
        while i < self.abilities.len()
            invariant
                i <= self.abilities@.len(),
                character.scores_of() == saves_set(old(character).scores_of(), self.abilities@, i as int),
                same_build(*character, *old(character)),
                character.actions_of() == old(character).actions_of(),
                character.resources_of() == old(character).resources_of(),
            decreases self.abilities@.len() - i,
        {
            character.set_save_prof(self.abilities[i]);
            i = i + 1;
        }
        Ok(())
    }
}

impl Resilient {
    /// Raises the ability by one (up to its cap) and makes its saves
    /// proficient; always succeeds.
    pub fn apply(&self, character: &mut Character) -> (r: Result<(), CBError>)
        ensures
            r is Ok,
            final(character).scores_of() == with_score(
                score_increased(old(character).scores_of(), self.0),
                self.0,
                score_for(old(character).scores_of(), self.0).increased().with_prof_save(true),
            ),
            same_build(*final(character), *old(character)),
            final(character).actions_of() == old(character).actions_of(),
            final(character).resources_of() == old(character).resources_of(),
    {
        character.increase_score(self.0);
        character.set_save_prof(self.0);
        Ok(())
    }
}

impl ExtraAttack {
    /// The attack action makes this many attacks; always succeeds.
    pub fn apply(&self, character: &mut Character) -> (r: Result<(), CBError>)
        requires
            old(character).wf(),
        ensures
            r is Ok,
            final(character).wf(),
            final(character).actions_of() == old(character).actions_of().insert(
                ActionName::AttackAction,
                CombatOption::new_spec(ActionType::Action, CombatAction::AdditionalAttacks(self.0)),
            ),
            same_build(*final(character), *old(character)),
            final(character).scores_of() == old(character).scores_of(),
            final(character).resources_of() == old(character).resources_of(),
    {
        character.insert_action(ActionName::AttackAction, CombatOption::new(ActionType::Action, CombatAction::AdditionalAttacks(self.0)));
        Ok(())
    }
}

impl GreatWeaponMaster {
    /// Gives every normal main-hand, off-hand and polearm-master attack with
    /// a heavy melee weapon its great weapon master version, adds the bonus
    /// great weapon master attack (one attack, as a bonus action) and its
    /// resource; always succeeds.
    pub fn apply(&self, character: &mut Character) -> (r: Result<(), CBError>)
        requires
            old(character).wf(),
        ensures
            r is Ok,
            final(character).wf(),
            gwm_slot(final(character).actions_of(), old(character).actions_of(),
                ActionName::PrimaryAttack(AttackType::Normal), ActionName::PrimaryAttack(AttackType::GWMAttack)),
            gwm_slot(final(character).actions_of(), old(character).actions_of(),
                ActionName::OffhandAttack(AttackType::Normal), ActionName::OffhandAttack(AttackType::GWMAttack)),
            gwm_slot(final(character).actions_of(), old(character).actions_of(),
                ActionName::BonusPAMAttack(AttackType::Normal), ActionName::BonusPAMAttack(AttackType::GWMAttack)),
            final(character).actions_of().contains_key(ActionName::BonusGWMAttack),
            final(character).actions_of()[ActionName::BonusGWMAttack]
                == CombatOption::new_spec(ActionType::BonusAction, CombatAction::AdditionalAttacks(1)),
            others_kept(final(character).actions_of(), old(character).actions_of(), set![
                ActionName::PrimaryAttack(AttackType::GWMAttack),
                ActionName::OffhandAttack(AttackType::GWMAttack),
                ActionName::BonusPAMAttack(AttackType::GWMAttack),
                ActionName::BonusGWMAttack,
            ]),
            final(character).resources_of().perm == old(character).resources_of().perm.insert(
                ResourceName::AN(ActionName::BonusGWMAttack), gwm_resource()),
            final(character).resources_of().temp == old(character).resources_of().temp,
            same_build(*final(character), *old(character)),
            final(character).scores_of() == old(character).scores_of(),
    {
        let ghost m0 = character.actions_of();
        character.derive_gwm(ActionName::PrimaryAttack(AttackType::Normal), ActionName::PrimaryAttack(AttackType::GWMAttack));
        character.derive_gwm(ActionName::OffhandAttack(AttackType::Normal), ActionName::OffhandAttack(AttackType::GWMAttack));
        character.derive_gwm(ActionName::BonusPAMAttack(AttackType::Normal), ActionName::BonusPAMAttack(AttackType::GWMAttack));
        character.insert_action(ActionName::BonusGWMAttack, CombatOption::new(ActionType::BonusAction, CombatAction::AdditionalAttacks(1)));
        let mut res = Resource::new(ResourceCap::Soft(1), 0);
        res.add_refresh(RefreshTiming::StartMyTurn, RefreshBy::ToEmpty);
        res.add_refresh(RefreshTiming::EndMyTurn, RefreshBy::ToEmpty);
        assert(res@.refresh =~= map![RefreshTiming::StartMyTurn => RefreshBy::ToEmpty, RefreshTiming::EndMyTurn => RefreshBy::ToEmpty]);
        assert(res@.expirations =~= Set::<RefreshTiming>::empty());
        character.resource_manager.add_perm(ResourceName::AN(ActionName::BonusGWMAttack), res);
        Ok(())
    }
}

impl SharpShooter {
    /// Gives every normal main-hand and off-hand attack with a ranged weapon
    /// its sharpshooter version; always succeeds.
    pub fn apply(&self, character: &mut Character) -> (r: Result<(), CBError>)
        requires
            old(character).wf(),
        ensures
            r is Ok,
            final(character).wf(),
            ss_slot(final(character).actions_of(), old(character).actions_of(),
                ActionName::PrimaryAttack(AttackType::Normal), ActionName::PrimaryAttack(AttackType::SSAttack)),
            ss_slot(final(character).actions_of(), old(character).actions_of(),
                ActionName::OffhandAttack(AttackType::Normal), ActionName::OffhandAttack(AttackType::SSAttack)),
            others_kept(final(character).actions_of(), old(character).actions_of(), set![
                ActionName::PrimaryAttack(AttackType::SSAttack),
                ActionName::OffhandAttack(AttackType::SSAttack),
            ]),
            same_build(*final(character), *old(character)),
            final(character).scores_of() == old(character).scores_of(),
            final(character).resources_of() == old(character).resources_of(),
    {
        character.derive_ss(ActionName::PrimaryAttack(AttackType::Normal), ActionName::PrimaryAttack(AttackType::SSAttack));
        character.derive_ss(ActionName::OffhandAttack(AttackType::Normal), ActionName::OffhandAttack(AttackType::SSAttack));
        Ok(())
    }
}

impl PolearmMaster {
    /// Gives every main-hand attack with a quarterstaff, halberd or glaive a
    /// bonus-action attack with the butt end, of the same attack type;
    /// always succeeds.
    pub fn apply(&self, character: &mut Character) -> (r: Result<(), CBError>)
        requires
            old(character).wf(),
        ensures
            r is Ok,
            final(character).wf(),
            pam_slot(final(character).actions_of(), old(character).actions_of(),
                ActionName::PrimaryAttack(AttackType::Normal), ActionName::BonusPAMAttack(AttackType::Normal)),
            pam_slot(final(character).actions_of(), old(character).actions_of(),
                ActionName::PrimaryAttack(AttackType::GWMAttack), ActionName::BonusPAMAttack(AttackType::GWMAttack)),
            pam_slot(final(character).actions_of(), old(character).actions_of(),
                ActionName::PrimaryAttack(AttackType::SSAttack), ActionName::BonusPAMAttack(AttackType::SSAttack)),
            others_kept(final(character).actions_of(), old(character).actions_of(), set![
                ActionName::BonusPAMAttack(AttackType::Normal),
                ActionName::BonusPAMAttack(AttackType::GWMAttack),
                ActionName::BonusPAMAttack(AttackType::SSAttack),
            ]),
            same_build(*final(character), *old(character)),
            final(character).scores_of() == old(character).scores_of(),
            final(character).resources_of() == old(character).resources_of(),
    {
        character.derive_pam(ActionName::PrimaryAttack(AttackType::Normal), ActionName::BonusPAMAttack(AttackType::Normal));
        character.derive_pam(ActionName::PrimaryAttack(AttackType::GWMAttack), ActionName::BonusPAMAttack(AttackType::GWMAttack));
        character.derive_pam(ActionName::PrimaryAttack(AttackType::SSAttack), ActionName::BonusPAMAttack(AttackType::SSAttack));
        Ok(())
    }
}

/// `new` is `old` with, when it is a weapon attack, its lowest critical roll
/// set to `lb` (when `lb` is between 2 and 20); nothing else changes.
pub open spec fn crit_changed(new: CombatOption, old: CombatOption, lb: isize) -> bool {
    &&& new.action_type == old.action_type
    &&& new.req_target == old.req_target
    &&& match old.action {
        CombatAction::WeaponAttack(wa) => new.action matches CombatAction::WeaponAttack(nw) && {
            &&& nw.crit_lb_of() == if 1 < lb <= 20 { lb } else { wa.crit_lb_of() }
            &&& nw.d20_of() == wa.d20_of()
            &&& nw.hit_bonus_of() == wa.hit_bonus_of()
            &&& nw.base_dmg_of() == wa.base_dmg_of()
            &&& nw.char_dmg_of() == wa.char_dmg_of()
            &&& nw.weapon_of() == wa.weapon_of()
            &&& nw.hands_of() == wa.hands_of()
            &&& nw.hand_of() == wa.hand_of()
            &&& nw.ability_of() == wa.ability_of()
            &&& nw.die_of() == wa.die_of()
            &&& nw.dmg_type_of() == wa.dmg_type_of()
        },
        _ => new.action == old.action,
    }
}

/// The resource of indomitable: `n` uses, hard-capped, refilled on a long rest.
pub open spec fn indomitable_resource(n: usize) -> ResourceModel {
    ResourceModel {
        max: ResourceCap::Hard(n),
        current: n,
        refresh: map![RefreshTiming::LongRest => RefreshBy::ToFull],
        expirations: Set::<RefreshTiming>::empty(),
    }
}

impl Indomitable {
    /// Adds the indomitable option (a free action, resolved by name) and its
    /// resource; the resource is kept under the action surge name, as the
    /// character's rules do. Always succeeds.
    pub fn apply(&self, character: &mut Character) -> (r: Result<(), CBError>)
        requires
            old(character).wf(),
        ensures
            r is Ok,
            final(character).wf(),
            final(character).actions_of() == old(character).actions_of().insert(
                ActionName::Indomitable,
                CombatOption::new_spec(ActionType::FreeAction, CombatAction::ByName),
            ),
            final(character).resources_of().perm == old(character).resources_of().perm.insert(
                ResourceName::AN(ActionName::ActionSurge), indomitable_resource(self.0)),
            final(character).resources_of().temp == old(character).resources_of().temp,
            same_build(*final(character), *old(character)),
            final(character).scores_of() == old(character).scores_of(),
    {
        character.insert_action(ActionName::Indomitable, CombatOption::new(ActionType::FreeAction, CombatAction::ByName));
        let mut res = Resource::from(ResourceCap::Hard(self.0));
        proof {
            Resource::lemma_full_of(ResourceCap::Hard(self.0));
        }
        res.add_refresh(RefreshTiming::LongRest, RefreshBy::ToFull);
        assert(res@.refresh =~= map![RefreshTiming::LongRest => RefreshBy::ToFull]);
        assert(res@.expirations =~= Set::<RefreshTiming>::empty());
        character.resource_manager.add_perm(ResourceName::AN(ActionName::ActionSurge), res);
        Ok(())
    }
}

impl ImprovedCritical {
    /// Sets the lowest critical roll of every weapon attack option to the
    /// given one (when it is between 2 and 20). Always succeeds.
    pub fn apply(&self, character: &mut Character) -> (r: Result<(), CBError>)
        requires
            old(character).wf(),
        ensures
            r is Ok,
            final(character).wf(),
            final(character).actions_of().dom() == old(character).actions_of().dom(),
            forall|a: ActionName| #[trigger] old(character).actions_of().contains_key(a)
                ==> crit_changed(final(character).actions_of()[a], old(character).actions_of()[a], self.0),
            same_build(*final(character), *old(character)),
            final(character).scores_of() == old(character).scores_of(),
            final(character).resources_of() == old(character).resources_of(),
    {
        let ghost old_table = character.combat_actions@;
        let mut i: usize = 0;
        while i < NUM_ACTION_NAMES
            invariant
                i <= NUM_ACTION_NAMES,
                character.wf(),
                same_build(*character, *old(character)),
                character.scores_of() == old(character).scores_of(),
                character.resources_of() == old(character).resources_of(),
                old_table == old(character).combat_actions@,
                forall|k: int| 0 <= k < NUM_ACTION_NAMES ==> (#[trigger] character.combat_actions@[k] is Some) == (old_table[k] is Some),
                forall|k: int| 0 <= k < i && old_table[k] is Some
                    ==> crit_changed((#[trigger] character.combat_actions@[k])->0, old_table[k]->0, self.0),
                forall|k: int| i <= k < NUM_ACTION_NAMES ==> #[trigger] character.combat_actions@[k] == old_table[k],
            decreases NUM_ACTION_NAMES - i,
        {
            let slot = character.combat_actions.remove(i);
            let new_slot = match slot {
                Some(mut co) => {
                    match co.action {
                        CombatAction::WeaponAttack(mut wa) => {
                            wa.set_crit_lb(self.0);
                            co.action = CombatAction::WeaponAttack(wa);
                        },
                        _ => {},
                    }
                    Some(co)
                },
                None => None,
            };
            character.combat_actions.insert(i, new_slot);
            i = i + 1;
        }
        proof {
            assert forall|a: ActionName| #![trigger action_pos(a)] 0 <= action_pos(a) < NUM_ACTION_NAMES by {
                lemma_action_pos(a, a);
            }
            assert(character.actions_of().dom() =~= old(character).actions_of().dom());
        }
        Ok(())
    }
}

/// Whether a fighting style changes an attack: archery ranged attacks,
/// dueling one-handed melee attacks, great weapon fighting two-handed melee
/// attacks, two-weapon fighting off-hand attacks; defense none.
pub open spec fn style_applies(wa: WeaponAttack, style: FightingStyles) -> bool {
    match style {
        FightingStyles::Archery => ranged_attack(wa),
        FightingStyles::Dueling => wa.hands_of() == NumHands::OneHand && melee_attack(wa),
        FightingStyles::GreatWeaponFighting => wa.hands_of() == NumHands::TwoHand && melee_attack(wa),
        FightingStyles::TwoWeaponFighting => wa.hand_of() == HandType::OffHand,
        FightingStyles::Defense => false,
    }
}

/// `nw` is `wa` changed by a fighting style that applies to it: archery adds
/// two to hit, dueling adds `duel` damage, great weapon fighting adds its
/// damage feature, two-weapon fighting adds the ability modifier to damage;
/// each attributed to the style. Nothing else changes.
pub open spec fn styled(nw: WeaponAttack, wa: WeaponAttack, style: FightingStyles, duel: i32) -> bool {
    &&& nw.weapon_of() == wa.weapon_of()
    &&& nw.hands_of() == wa.hands_of()
    &&& nw.hand_of() == wa.hand_of()
    &&& nw.ability_of() == wa.ability_of()
    &&& nw.die_of() == wa.die_of()
    &&& nw.dmg_type_of() == wa.dmg_type_of()
    &&& nw.crit_lb_of() == wa.crit_lb_of()
    &&& nw.d20_of() == wa.d20_of()
    &&& nw.base_dmg_of() == wa.base_dmg_of()
    &&& nw.hit_bonus_of() == if style == FightingStyles::Archery {
        AttributedBonusView {
            terms: wa.hit_bonus_of().terms.push(BonusTermView { bonus: BonusType::Constant(2i32), name: None, attribution: Some("archery FS"@) }),
            ..wa.hit_bonus_of()
        }
    } else {
        wa.hit_bonus_of()
    }
    &&& nw.char_dmg_of() == match style {
        FightingStyles::Dueling => wa.char_dmg_of().push(BonusTermView { bonus: BonusType::Constant(duel), name: None, attribution: Some("dueling FS"@) }),
        FightingStyles::TwoWeaponFighting => wa.char_dmg_of().push(BonusTermView { bonus: BonusType::Modifier(wa.ability_of()), name: None, attribution: Some("twf FS"@) }),
        _ => wa.char_dmg_of(),
    }
    &&& nw.features_of() == if style == FightingStyles::GreatWeaponFighting { wa.features_of().insert(DamageFeature::GWF) } else { wa.features_of() }
}

/// `new` is option `old` after a fighting style: a weapon attack that the
/// style applies to is changed by it; any other option stays as it was.
pub open spec fn style_option(new: CombatOption, old: CombatOption, style: FightingStyles, duel: i32) -> bool {
    match old.action {
        CombatAction::WeaponAttack(wa) => if style_applies(wa, style) {
            &&& new.action_type == old.action_type
            &&& new.req_target == old.req_target
            &&& new.action matches CombatAction::WeaponAttack(nw) && styled(nw, wa, style, duel)
        } else {
            new == old
        },
        _ => new == old,
    }
}

/// The damage that dueling adds: two when there is no off-hand weapon.
pub open spec fn dueling_damage(e: Equipment) -> i32 {
    if e.off_of() is Weapon { 0 } else { 2 }
}

/// Dueling adds two damage exactly when no off-hand weapon is held: with a
/// free off hand or a shield it adds two, with an off-hand weapon nothing.
pub proof fn lemma_dueling_needs_free_off_hand(e: Equipment)
    ensures
        e.off_of() is Free ==> dueling_damage(e) == 2,
        e.off_of() is Shield ==> dueling_damage(e) == 2,
        e.off_of() is Weapon ==> dueling_damage(e) == 0,
{
}

/// Changes an attack by a fighting style when the style applies to it.
fn style_attack(wa: &mut WeaponAttack, style: FightingStyles, duel: i32)
    ensures
        style_applies(*old(wa), style) ==> styled(*final(wa), *old(wa), style, duel),
        !style_applies(*old(wa), style) ==> *final(wa) == *old(wa),
{
    match style {
        FightingStyles::Archery => {
            if wa.get_weapon().get_type().is_ranged() {
                wa.add_accuracy_bonus(BonusTerm::new_attr(BonusType::Constant(2), String::from_str("archery FS")));
            }
        },
        FightingStyles::Dueling => {
            if *wa.get_num_hands() == NumHands::OneHand && wa.get_weapon().get_type().is_melee() {
                wa.add_char_dmg(BonusTerm::new_attr(BonusType::Constant(duel), String::from_str("dueling FS")));
            }
        },
        FightingStyles::GreatWeaponFighting => {
            if *wa.get_num_hands() == NumHands::TwoHand && wa.get_weapon().get_type().is_melee() {
                wa.add_damage_feature(DamageFeature::GWF);
            }
        },
        FightingStyles::TwoWeaponFighting => {
            if *wa.get_hand_type() == HandType::OffHand {
                let ability = *wa.get_ability();
                wa.add_char_dmg(BonusTerm::new_attr(BonusType::Modifier(ability), String::from_str("twf FS")));
            }
        },
        FightingStyles::Defense => {},
    }
}

impl Character {
    /// Changes every weapon attack option by a fighting style.
    fn style_attacks(&mut self, style: FightingStyles, duel: i32)
        requires
            old(self).wf(),
        ensures
            final(self).wf(),
            same_build(*final(self), *old(self)),
            final(self).scores_of() == old(self).scores_of(),
            final(self).resources_of() == old(self).resources_of(),
            final(self).actions_of().dom() == old(self).actions_of().dom(),
            forall|a: ActionName| #[trigger] old(self).actions_of().contains_key(a)
                ==> style_option(final(self).actions_of()[a], old(self).actions_of()[a], style, duel),
    {
        let ghost old_table = self.combat_actions@;
        let mut i: usize = 0;
        while i < NUM_ACTION_NAMES
            invariant
                i <= NUM_ACTION_NAMES,
                self.wf(),
                same_build(*self, *old(self)),
                self.scores_of() == old(self).scores_of(),
                self.resources_of() == old(self).resources_of(),
                old_table == old(self).combat_actions@,
                forall|k: int| 0 <= k < NUM_ACTION_NAMES ==> (#[trigger] self.combat_actions@[k] is Some) == (old_table[k] is Some),
                forall|k: int| 0 <= k < i && old_table[k] is Some
                    ==> style_option((#[trigger] self.combat_actions@[k])->0, old_table[k]->0, style, duel),
                forall|k: int| i <= k < NUM_ACTION_NAMES ==> #[trigger] self.combat_actions@[k] == old_table[k],
            decreases NUM_ACTION_NAMES - i,
        {
            let slot = self.combat_actions.remove(i);
            let new_slot = match slot {
                Some(mut co) => {
                    match co.action {
                        CombatAction::WeaponAttack(mut wa) => {
                            style_attack(&mut wa, style, duel);
                            co.action = CombatAction::WeaponAttack(wa);
                        },
                        _ => {},
                    }
                    Some(co)
                },
                None => None,
            };
            self.combat_actions.insert(i, new_slot);
            i = i + 1;
        }
        proof {
            assert forall|a: ActionName| #![trigger action_pos(a)] 0 <= action_pos(a) < NUM_ACTION_NAMES by {
                lemma_action_pos(a, a);
            }
            assert(self.actions_of().dom() =~= old(self).actions_of().dom());
        }
    }
}

impl FightingStyle {
    /// Archery: two more to hit with every ranged weapon attack.
    pub fn archery(character: &mut Character)
        requires
            old(character).wf(),
        ensures
            final(character).wf(),
            same_build(*final(character), *old(character)),
            final(character).scores_of() == old(character).scores_of(),
            final(character).resources_of() == old(character).resources_of(),
            final(character).actions_of().dom() == old(character).actions_of().dom(),
            forall|a: ActionName| #[trigger] old(character).actions_of().contains_key(a)
                ==> style_option(final(character).actions_of()[a], old(character).actions_of()[a], FightingStyles::Archery, 0),
    {
        character.style_attacks(FightingStyles::Archery, 0);
    }

    /// Dueling: two more damage with every one-handed melee weapon attack,
    /// when the character holds no off-hand weapon (none otherwise).
    pub fn dueling(character: &mut Character)
        requires
            old(character).wf(),
        ensures
            final(character).wf(),
            same_build(*final(character), *old(character)),
            final(character).scores_of() == old(character).scores_of(),
            final(character).resources_of() == old(character).resources_of(),
            final(character).actions_of().dom() == old(character).actions_of().dom(),
            forall|a: ActionName| #[trigger] old(character).actions_of().contains_key(a)
                ==> style_option(final(character).actions_of()[a], old(character).actions_of()[a], FightingStyles::Dueling,
                    dueling_damage(old(character).equipment_of())),
    {
        let duel: i32 = if character.get_equipment().get_secondary_weapon().is_none() { 2 } else { 0 };
        character.style_attacks(FightingStyles::Dueling, duel);
    }

    /// Great weapon fighting: the great weapon fighting damage feature on
    /// every two-handed melee weapon attack.
    pub fn gwf(character: &mut Character)
        requires
            old(character).wf(),
        ensures
            final(character).wf(),
            same_build(*final(character), *old(character)),
            final(character).scores_of() == old(character).scores_of(),
            final(character).resources_of() == old(character).resources_of(),
            final(character).actions_of().dom() == old(character).actions_of().dom(),
            forall|a: ActionName| #[trigger] old(character).actions_of().contains_key(a)
                ==> style_option(final(character).actions_of()[a], old(character).actions_of()[a], FightingStyles::GreatWeaponFighting, 0),
    {
        character.style_attacks(FightingStyles::GreatWeaponFighting, 0);
    }

    /// Two-weapon fighting: the ability modifier to the damage of every
    /// off-hand weapon attack.
    pub fn twf(character: &mut Character)
        requires
            old(character).wf(),
        ensures
            final(character).wf(),
            same_build(*final(character), *old(character)),
            final(character).scores_of() == old(character).scores_of(),
            final(character).resources_of() == old(character).resources_of(),
            final(character).actions_of().dom() == old(character).actions_of().dom(),
            forall|a: ActionName| #[trigger] old(character).actions_of().contains_key(a)
                ==> style_option(final(character).actions_of()[a], old(character).actions_of()[a], FightingStyles::TwoWeaponFighting, 0),
    {
        character.style_attacks(FightingStyles::TwoWeaponFighting, 0);
    }

    /// Defense: one more armor class while wearing armor.
    pub fn defense(character: &mut Character)
        ensures
            final(character).ac_bonus_of() == if old(character).equipment_of().armor_of().type_of() != ArmorType::NoArmor {
                AttributedBonusView {
                    terms: old(character).ac_bonus_of().terms.push(BonusTermView { bonus: BonusType::Constant(1i32), name: None, attribution: Some("defense FS"@) }),
                    ..old(character).ac_bonus_of()
                }
            } else {
                old(character).ac_bonus_of()
            },
            final(character).wf() == old(character).wf(),
            final(character).name_of() == old(character).name_of(),
            final(character).level_of() == old(character).level_of(),
            final(character).classes_of() == old(character).classes_of(),
            final(character).equipment_of() == old(character).equipment_of(),
            final(character).scores_of() == old(character).scores_of(),
            final(character).resources_of() == old(character).resources_of(),
            final(character).actions_of() == old(character).actions_of(),
    {
        if *character.equipment.get_armor().get_armor_type() != ArmorType::NoArmor {
            character.armor_class.add_term(BonusTerm::new_attr(BonusType::Constant(1), String::from_str("defense FS")));
        }
    }

    /// Applies the fighting style; always succeeds.
    pub fn apply(&self, character: &mut Character) -> (r: Result<(), CBError>)
        requires
            old(character).wf(),
        ensures
            r is Ok,
            final(character).wf(),
            final(character).name_of() == old(character).name_of(),
            final(character).level_of() == old(character).level_of(),
            final(character).classes_of() == old(character).classes_of(),
            final(character).equipment_of() == old(character).equipment_of(),
            final(character).scores_of() == old(character).scores_of(),
            final(character).resources_of() == old(character).resources_of(),
            self.0 == FightingStyles::Defense ==> final(character).actions_of() == old(character).actions_of(),
            self.0 != FightingStyles::Defense ==> {
                &&& final(character).ac_bonus_of() == old(character).ac_bonus_of()
                &&& final(character).actions_of().dom() == old(character).actions_of().dom()
                &&& forall|a: ActionName| #[trigger] old(character).actions_of().contains_key(a)
                    ==> style_option(final(character).actions_of()[a], old(character).actions_of()[a], self.0,
                        if self.0 == FightingStyles::Dueling { dueling_damage(old(character).equipment_of()) } else { 0 })
            },
    {
        match self.0 {
            FightingStyles::Archery => FightingStyle::archery(character),
            FightingStyles::Defense => FightingStyle::defense(character),
            FightingStyles::Dueling => FightingStyle::dueling(character),
            FightingStyles::GreatWeaponFighting => FightingStyle::gwf(character),
            FightingStyles::TwoWeaponFighting => FightingStyle::twf(character),
        }
        Ok(())
    }
}

} // verus!
