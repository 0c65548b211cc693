use vstd::prelude::*;
use crate::combat_core::ability_scores::Ability;
use crate::combat_core::damage::dice_expr::DiceExprTerm;
use crate::character_builder::combat::{ActionType, CombatAction, CombatOption};
use crate::combat_core::damage::{DamageTerm, ExtendedDamageType};
use crate::character_builder::attributed_bonus::{AttributedBonusView, BonusTerm, BonusTermView, BonusType};
use crate::character_builder::equipment::{Weapon, WeaponProperty, WeaponType};
use crate::character_builder::weapon_attack::WeaponAttack;

verus! {

/// A combat option of a character.
pub type CharacterCO = CombatOption;

/// The great weapon master feat.
#[derive(Debug, Clone, Copy)]
pub struct GreatWeaponMaster;

/// Whether the weapon of an attack is a melee weapon.
pub open spec fn melee_attack(wa: WeaponAttack) -> bool {
    wa.weapon_of().type_of() == WeaponType::SimpleMelee || wa.weapon_of().type_of() == WeaponType::MartialMelee
}

/// Whether the weapon of an attack is a ranged weapon.
pub open spec fn ranged_attack(wa: WeaponAttack) -> bool {
    wa.weapon_of().type_of() == WeaponType::SimpleRanged || wa.weapon_of().type_of() == WeaponType::MartialRanged
}

/// `new` is `old` traded for power: five less to hit (a term attributed to
/// `tag`) and ten more weapon damage; nothing else changes.
pub open spec fn power_attack_of(new: WeaponAttack, old: WeaponAttack, tag: Seq<char>) -> bool {
    &&& new.hit_bonus_of() == (AttributedBonusView {
        terms: old.hit_bonus_of().terms.push(BonusTermView { bonus: BonusType::Constant(-5i32), name: None, attribution: Some(tag) }),
        ..old.hit_bonus_of()
    })
    &&& new.base_dmg_of() == old.base_dmg_of().push(DamageTerm { expr: DiceExprTerm::Const(10), dmg_type: ExtendedDamageType::WeaponDamage })
    &&& new.weapon_of().name_of() == old.weapon_of().name_of()
    &&& new.weapon_of().type_of() == old.weapon_of().type_of()
    &&& new.weapon_of().props_of() == old.weapon_of().props_of()
    &&& new.weapon_of().bonus_of() == old.weapon_of().bonus_of()
    &&& new.die_of() == old.die_of()
    &&& new.dmg_type_of() == old.dmg_type_of()
    &&& new.hands_of() == old.hands_of()
    &&& new.hand_of() == old.hand_of()
    &&& new.ability_of() == old.ability_of()
    &&& new.char_dmg_of() == old.char_dmg_of()
    &&& new.crit_lb_of() == old.crit_lb_of()
    &&& new.d20_of() == old.d20_of()
}

/// Whether great weapon master makes a new option of `co`: an attack with a
/// heavy melee weapon.
pub open spec fn gwm_applies_to(co: CombatOption) -> bool {
    co.action matches CombatAction::WeaponAttack(wa) && melee_attack(wa) && wa.weapon_of().props_of().contains(WeaponProperty::Heavy)
}

/// `new` is the great weapon master option of `old`.
pub open spec fn is_gwm_option(new: CombatOption, old: CombatOption) -> bool {
    &&& new.action_type == old.action_type
    &&& !new.req_target
    &&& new.action matches CombatAction::WeaponAttack(nw) && old.action matches CombatAction::WeaponAttack(wa)
        && power_attack_of(nw, wa, "gwm"@)
}

/// Whether sharpshooter makes a new option of `co`: an attack with a ranged weapon.
pub open spec fn ss_applies_to(co: CombatOption) -> bool {
    co.action matches CombatAction::WeaponAttack(wa) && ranged_attack(wa)
}

/// `new` is the sharpshooter option of `old`.
pub open spec fn is_ss_option(new: CombatOption, old: CombatOption) -> bool {
    &&& new.action_type == old.action_type
    &&& !new.req_target
    &&& new.action matches CombatAction::WeaponAttack(nw) && old.action matches CombatAction::WeaponAttack(wa)
        && power_attack_of(nw, wa, "ss"@)
}

/// Whether polearm master makes a new option of `co`: an attack with a
/// quarterstaff, halberd or glaive.
pub open spec fn pam_applies_to(co: CombatOption) -> bool {
    co.action matches CombatAction::WeaponAttack(wa) && (wa.weapon_of().name_of() == Weapon::QUARTERSTAFF@
        || wa.weapon_of().name_of() == Weapon::HALBERD@ || wa.weapon_of().name_of() == Weapon::GLAIVE@)
}

/// `new` is the polearm master option of `old`: the same attack with the
/// butt end, as a bonus action.
pub open spec fn is_pam_option(new: CombatOption, old: CombatOption) -> bool {
    &&& new.action_type == ActionType::BonusAction
    &&& !new.req_target
    &&& new.action matches CombatAction::WeaponAttack(nw) && old.action matches CombatAction::WeaponAttack(wa) && {
        &&& nw.weapon_of().name_of() == wa.weapon_of().name_of() + " PAM"@
        &&& nw.die_of() == crate::combat_core::damage::DamageDice::D4
        &&& nw.dmg_type_of() == crate::combat_core::damage::DamageType::Bludgeoning
        &&& nw.hit_bonus_of() == wa.hit_bonus_of()
        &&& nw.base_dmg_of() == wa.base_dmg_of()
        &&& nw.char_dmg_of() == wa.char_dmg_of()
        &&& nw.ability_of() == wa.ability_of()
        &&& nw.hand_of() == wa.hand_of()
        &&& nw.hands_of() == wa.hands_of()
    }
}

/// The attack traded for power, tagged `tag`.
fn power_attack(wa: &WeaponAttack, tag: &str) -> (r: WeaponAttack)
    ensures
        power_attack_of(r, *wa, tag@),
{
    let mut new_wa = wa.duplicate();
    new_wa.add_accuracy_bonus(BonusTerm::new_attr(BonusType::Constant(-5), String::from_str(tag)));
    new_wa.add_base_dmg(DamageTerm::new(DiceExprTerm::Const(10), ExtendedDamageType::WeaponDamage));
    new_wa
}

impl GreatWeaponMaster {
    /// The great weapon master version of an option: for an attack with a
    /// heavy melee weapon, the same attack at five less to hit and ten more
    /// damage, at the same cost and needing no target; none otherwise.
    pub fn get_new_co(co: &CharacterCO) -> (r: Option<CharacterCO>)
        ensures
            gwm_applies_to(*co) ==> (r matches Some(c) && is_gwm_option(c, *co)),
            !gwm_applies_to(*co) ==> r is None,
    {
        if let CombatAction::WeaponAttack(wa) = &co.action {
            if wa.get_weapon().get_type().is_melee() && wa.get_weapon().has_property(WeaponProperty::Heavy) {
                let new_wa = power_attack(wa, "gwm");
                return Some(CombatOption::new(co.action_type, CombatAction::WeaponAttack(new_wa)));
            }
        }
        None
    }
}

/// The polearm master feat.
#[derive(Debug, Clone, Copy)]
pub struct PolearmMaster;

/// Whether two names are the same text.
fn same_name(a: &str, b: &str) -> (r: bool)
    ensures
        r == (a@ == b@),
{
    let x = a.to_owned();
    let y = b.to_owned();
    x == y
}

impl PolearmMaster {
    /// Whether a polearm master can use the weapon's butt end: a
    /// quarterstaff, a halberd or a glaive, by name.
    pub fn is_valid_weapon(weapon: &Weapon) -> (r: bool)
        ensures
            r == (weapon.name_of() == Weapon::QUARTERSTAFF@ || weapon.name_of() == Weapon::HALBERD@
                || weapon.name_of() == Weapon::GLAIVE@),
    {
        let name = weapon.get_name();
        if same_name(name, Weapon::QUARTERSTAFF) || same_name(name, Weapon::HALBERD) || same_name(name, Weapon::GLAIVE) {
            true
        } else {
            false
        }
    }

    /// The polearm master bonus attack of an option: for an attack with a
    /// quarterstaff, halberd or glaive, the same attack with the butt end,
    /// as a bonus action needing no target; none otherwise.
    pub fn get_new_co(co: &CharacterCO) -> (r: Option<CharacterCO>)
        ensures
            pam_applies_to(*co) ==> (r matches Some(c) && is_pam_option(c, *co)),
            !pam_applies_to(*co) ==> r is None,
    {
        if let CombatAction::WeaponAttack(wa) = &co.action {
            if PolearmMaster::is_valid_weapon(wa.get_weapon()) {
                let new_wa = wa.as_pam_attack();
                return Some(CombatOption::new(ActionType::BonusAction, CombatAction::WeaponAttack(new_wa)));
            }
        }
        None
    }
}

/// The resilient feat: one point and save proficiency in an ability.
#[derive(Debug, Clone, Copy)]
pub struct Resilient(pub Ability);

/// The sharpshooter feat.
#[derive(Debug, Clone, Copy)]
pub struct SharpShooter;

impl SharpShooter {
    /// The sharpshooter version of an option: for an attack with a ranged
    /// weapon, the same attack at five less to hit and ten more damage, at
    /// the same cost and needing no target; none otherwise.
    pub fn get_new_co(co: &CharacterCO) -> (r: Option<CharacterCO>)
        ensures
            ss_applies_to(*co) ==> (r matches Some(c) && is_ss_option(c, *co)),
            !ss_applies_to(*co) ==> r is None,
    {
        if let CombatAction::WeaponAttack(wa) = &co.action {
            if wa.get_weapon().get_type().is_ranged() {
                let new_wa = power_attack(wa, "ss");
                return Some(CombatOption::new(co.action_type, CombatAction::WeaponAttack(new_wa)));
            }
        }
        None
    }
}

} // verus!
