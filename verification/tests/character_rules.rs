use dnd_stats::character_builder::character::Character;
use dnd_stats::character_builder::classes::fighter::{ImprovedCritical, Indomitable};
use dnd_stats::character_builder::combat::{ActionName, ActionType, AttackType, CombatAction};
use dnd_stats::character_builder::equipment::{Armor, Equipment, OffHand, Weapon};
use dnd_stats::character_builder::feature::feats::{GreatWeaponMaster, PolearmMaster, Resilient, SharpShooter};
use dnd_stats::character_builder::feature::fighting_style::{FightingStyle, FightingStyles};
use dnd_stats::character_builder::feature::{AbilityScoreIncrease, ExtraAttack, SaveProficiencies};
use dnd_stats::combat_core::damage::DamageFeature;
use dnd_stats::character_builder::resources::ResourceName;
use dnd_stats::combat_core::ability_scores::{Ability, AbilityScores};
use dnd_stats::combat_core::damage::DamageDice;

fn str_based() -> AbilityScores {
    AbilityScores::new(16, 12, 16, 8, 13, 10)
}

fn attack_of(c: &Character, an: ActionName) -> String {
    match &c.get_combat_option(an).unwrap().action {
        CombatAction::WeaponAttack(wa) => wa.get_hit_bonus().to_string(),
        _ => panic!("not a weapon attack"),
    }
}

#[test]
fn new_character_has_basic_options() {
    let c = Character::new(
        String::from("Fighter"),
        str_based(),
        Equipment::new(Armor::chain_mail(), Weapon::greatsword(), OffHand::Free),
    );
    assert_eq!("Fighter", c.get_name());
    assert_eq!(0, c.get_level());
    assert!(c.get_class_levels().is_empty());
    assert_eq!(16, c.get_ac());
    assert_eq!(0, c.get_max_hp());
    assert!(c.has_combat_option(ActionName::AttackAction));
    assert!(c.has_combat_option(ActionName::PrimaryAttack(AttackType::Normal)));
    assert!(!c.has_combat_option(ActionName::OffhandAttack(AttackType::Normal)));
    assert!(matches!(c.get_combat_option(ActionName::AttackAction).unwrap().action, CombatAction::AdditionalAttacks(1)));
    let pa = c.get_combat_option(ActionName::PrimaryAttack(AttackType::Normal)).unwrap();
    assert_eq!(ActionType::SingleAttack, pa.action_type);
    assert!(pa.req_target);
    assert_eq!(DamageDice::TwoD6, c.get_weapon_attack().unwrap().get_weapon_die());
    assert!(c.get_offhand_attack().is_none());
    assert!(c.get_resource_manager().has_resource(ResourceName::AT(ActionType::Action)));

    let dual = Character::new(
        String::from("Dual"),
        AbilityScores::new(10, 16, 12, 10, 10, 10),
        Equipment::new(Armor::leather(), Weapon::shortsword(), OffHand::Weapon(Weapon::dagger())),
    );
    assert_eq!(14, dual.get_ac());
    let off = dual.get_combat_option(ActionName::OffhandAttack(AttackType::Normal)).unwrap();
    assert_eq!(ActionType::BonusAction, off.action_type);
    assert_eq!("Dagger", dual.get_offhand_attack().unwrap().get_weapon().get_name());
}

#[test]
fn great_weapon_master_adds_power_attacks() {
    let mut c = Character::new(
        String::from("gwm"),
        str_based(),
        Equipment::new(Armor::chain_mail(), Weapon::greatsword(), OffHand::Free),
    );
    assert!(GreatWeaponMaster.apply(&mut c).is_ok());
    assert_eq!("Hit Bonus = prof + STRmod + -5 (From: gwm)", attack_of(&c, ActionName::PrimaryAttack(AttackType::GWMAttack)));
    assert_eq!("Hit Bonus = prof + STRmod", attack_of(&c, ActionName::PrimaryAttack(AttackType::Normal)));
    let bonus = c.get_combat_option(ActionName::BonusGWMAttack).unwrap();
    assert_eq!(ActionType::BonusAction, bonus.action_type);
    assert!(matches!(bonus.action, CombatAction::AdditionalAttacks(1)));
    let rm = c.get_resource_manager();
    let rn = ResourceName::AN(ActionName::BonusGWMAttack);
    assert!(rm.has_resource(rn));
    assert_eq!(0, rm.get_current(rn));
    assert!(!c.has_combat_option(ActionName::OffhandAttack(AttackType::GWMAttack)));

    // a light weapon gets no power attack
    let mut d = Character::new(
        String::from("rapier"),
        str_based(),
        Equipment::new(Armor::leather(), Weapon::rapier(), OffHand::Free),
    );
    GreatWeaponMaster.apply(&mut d).unwrap();
    assert!(!d.has_combat_option(ActionName::PrimaryAttack(AttackType::GWMAttack)));
    assert!(d.has_combat_option(ActionName::BonusGWMAttack));
}

#[test]
fn polearm_master_and_great_weapon_master_in_either_order() {
    let equip = || Equipment::new(Armor::chain_mail(), Weapon::glaive(), OffHand::Free);
    let mut a = Character::new(String::from("pam first"), str_based(), equip());
    PolearmMaster.apply(&mut a).unwrap();
    assert!(a.has_combat_option(ActionName::BonusPAMAttack(AttackType::Normal)));
    assert!(!a.has_combat_option(ActionName::BonusPAMAttack(AttackType::GWMAttack)));
    GreatWeaponMaster.apply(&mut a).unwrap();
    let mut b = Character::new(String::from("gwm first"), str_based(), equip());
    GreatWeaponMaster.apply(&mut b).unwrap();
    PolearmMaster.apply(&mut b).unwrap();
    for c in [&a, &b] {
        for t in [AttackType::Normal, AttackType::GWMAttack] {
            let o = c.get_combat_option(ActionName::BonusPAMAttack(t)).unwrap();
            assert_eq!(ActionType::BonusAction, o.action_type);
            if let CombatAction::WeaponAttack(wa) = &o.action {
                assert_eq!(DamageDice::D4, wa.get_weapon_die());
                assert_eq!("Glaive PAM", wa.get_weapon().get_name());
            } else {
                panic!("not a weapon attack");
            }
        }
        assert_eq!(
            "Hit Bonus = prof + STRmod + -5 (From: gwm)",
            attack_of(c, ActionName::BonusPAMAttack(AttackType::GWMAttack))
        );
    }
}

#[test]
fn sharpshooter_on_ranged_weapons() {
    let mut c = Character::new(
        String::from("archer"),
        AbilityScores::new(10, 16, 12, 10, 10, 10),
        Equipment::new(Armor::leather(), Weapon::longbow(), OffHand::Free),
    );
    SharpShooter.apply(&mut c).unwrap();
    assert_eq!("Hit Bonus = prof + DEXmod + -5 (From: ss)", attack_of(&c, ActionName::PrimaryAttack(AttackType::SSAttack)));
    let mut m = Character::new(
        String::from("melee"),
        str_based(),
        Equipment::new(Armor::leather(), Weapon::greatsword(), OffHand::Free),
    );
    SharpShooter.apply(&mut m).unwrap();
    assert!(!m.has_combat_option(ActionName::PrimaryAttack(AttackType::SSAttack)));
}

#[test]
fn score_features_and_fighter_features() {
    let mut c = Character::new(
        String::from("gwf"),
        str_based(),
        Equipment::new(Armor::chain_mail(), Weapon::greatsword(), OffHand::Free),
    );
    Resilient(Ability::WIS).apply(&mut c).unwrap();
    let wis = c.get_ability_scores().wisdom;
    assert_eq!(14, wis.get_score());
    assert!(wis.is_prof_save());

    AbilityScoreIncrease(Ability::STR, Ability::STR).apply(&mut c).unwrap();
    assert_eq!(18, c.get_ability_scores().strength.get_score());
    AbilityScoreIncrease::from(Ability::STR).apply(&mut c).unwrap();
    AbilityScoreIncrease::from(Ability::STR).apply(&mut c).unwrap();
    // capped at twenty
    assert_eq!(20, c.get_ability_scores().strength.get_score());

    SaveProficiencies::from((Ability::STR, Ability::CON)).apply(&mut c).unwrap();
    assert!(c.get_ability_scores().strength.is_prof_save());
    assert!(c.get_ability_scores().constitution.is_prof_save());
    assert!(!c.get_ability_scores().dexterity.is_prof_save());

    ExtraAttack(2).apply(&mut c).unwrap();
    assert!(matches!(c.get_combat_option(ActionName::AttackAction).unwrap().action, CombatAction::AdditionalAttacks(2)));

    ImprovedCritical(19).apply(&mut c).unwrap();
    assert_eq!(19, c.get_weapon_attack().unwrap().get_crit_lb());
    ImprovedCritical(30).apply(&mut c).unwrap();
    assert_eq!(19, c.get_weapon_attack().unwrap().get_crit_lb());

    Indomitable(1).apply(&mut c).unwrap();
    let o = c.get_combat_option(ActionName::Indomitable).unwrap();
    assert_eq!(ActionType::FreeAction, o.action_type);
    assert!(matches!(o.action, CombatAction::ByName));
    assert_eq!(1, c.get_resource_manager().get_current(ResourceName::AN(ActionName::ActionSurge)));
}

#[test]
fn fighting_styles_change_attacks_and_armor() {
    let mut archer = Character::new(
        String::from("archer"),
        AbilityScores::new(10, 16, 12, 10, 10, 10),
        Equipment::new(Armor::leather(), Weapon::longbow(), OffHand::Free),
    );
    FightingStyle(FightingStyles::Archery).apply(&mut archer).unwrap();
    assert_eq!("Hit Bonus = prof + DEXmod + 2 (From: archery FS)", attack_of(&archer, ActionName::PrimaryAttack(AttackType::Normal)));

    let mut tank = Character::new(
        String::from("tank"),
        str_based(),
        Equipment::new(Armor::chain_mail(), Weapon::longsword(), OffHand::Shield(dnd_stats::character_builder::equipment::ACSource::shield())),
    );
    assert_eq!(18, tank.get_ac());
    FightingStyle(FightingStyles::Defense).apply(&mut tank).unwrap();
    assert_eq!(19, tank.get_ac());
    // a longsword with a shield is held in one hand
    FightingStyle(FightingStyles::Dueling).apply(&mut tank).unwrap();
    let wa = tank.get_weapon_attack().unwrap();
    assert_eq!(2, wa.get_char_dmg().len());
    assert_eq!("2 (From: dueling FS)", wa.get_char_dmg()[1].to_string());

    let mut unarmored = Character::new(
        String::from("monk"),
        str_based(),
        Equipment::new(Armor::no_armor(), Weapon::quarterstaff(), OffHand::Free),
    );
    let before = unarmored.get_ac();
    FightingStyle(FightingStyles::Defense).apply(&mut unarmored).unwrap();
    assert_eq!(before, unarmored.get_ac());
    FightingStyle(FightingStyles::GreatWeaponFighting).apply(&mut unarmored).unwrap();
    assert!(unarmored.get_weapon_attack().unwrap().has_damage_feature(DamageFeature::GWF));

    let mut dual = Character::new(
        String::from("dual"),
        AbilityScores::new(10, 16, 12, 10, 10, 10),
        Equipment::new(Armor::leather(), Weapon::shortsword(), OffHand::Weapon(Weapon::dagger())),
    );
    FightingStyle(FightingStyles::Dueling).apply(&mut dual).unwrap();
    assert_eq!("0 (From: dueling FS)", dual.get_weapon_attack().unwrap().get_char_dmg()[1].to_string());
    // the off-hand dagger is a one-handed melee weapon too
    assert_eq!("0 (From: dueling FS)", dual.get_offhand_attack().unwrap().get_char_dmg()[0].to_string());
    FightingStyle(FightingStyles::TwoWeaponFighting).apply(&mut dual).unwrap();
    let off = dual.get_offhand_attack().unwrap();
    assert_eq!(2, off.get_char_dmg().len());
    assert_eq!("DEXmod (From: twf FS)", off.get_char_dmg()[1].to_string());
    // the main hand gets nothing from two-weapon fighting
    assert_eq!(2, dual.get_weapon_attack().unwrap().get_char_dmg().len());
}
