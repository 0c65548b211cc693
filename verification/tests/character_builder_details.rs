use dnd_stats::character_builder::attributed_bonus::{AttributedBonus, BonusTerm, BonusType};
use dnd_stats::combat_core::ability_scores::{Ability, AbilityScores};
use dnd_stats::character_builder::weapon_attack::{HandType, NumHands, WeaponAttack};
use dnd_stats::combat_core::damage::dice_expr::DiceExprTerm;
use dnd_stats::combat_core::damage::{DamageTerm, ExtendedDamageDice, ExtendedDamageType};
use dnd_stats::combat_core::D20Type;
use dnd_stats::character_builder::feature::feats::{CharacterCO, GreatWeaponMaster, PolearmMaster, SharpShooter};
use dnd_stats::character_builder::combat::{ActionType as CcActionType, CombatAction, CombatOption};
use dnd_stats::character_builder::ability_scores::AbilityScore;
use dnd_stats::character_builder::combat::ActionType;
use dnd_stats::character_builder::equipment::{ACSource, Armor, ArmorType, Equipment, OffHand, Weapon, WeaponType};
use dnd_stats::character_builder::resources::{RefreshTiming, Resource, ResourceCap, ResourceName};
use dnd_stats::character_builder::spellcasting::{
    eighth_level_slots, fifth_level_slots, fourth_level_slots, second_level_slots, seventh_level_slots,
    sixth_level_slots, spell_slots_by_caster_level, third_level_slots,
};
use dnd_stats::combat_core::damage::DamageDice;

#[test]
fn saving_throw_settings() {
    let mut s = AbilityScore::new(14);
    assert!(!s.is_prof_save());
    assert_eq!(0, s.get_save_bonus());
    s.set_prof_save(true);
    s.set_save_bonus(2);
    assert!(s.is_prof_save());
    assert_eq!(2, s.get_save_bonus());
    assert_eq!(14, s.get_score());
    s.increase();
    assert_eq!(15, s.get_score());
    assert_eq!(2, s.get_mod());
    assert!(s.is_prof_save());
}

#[test]
fn more_armor_and_weapons() {
    let shirt = Armor::chain_shirt();
    assert_eq!(ArmorType::MediumArmor, *shirt.get_armor_type());
    assert_eq!("Chain Shirt", shirt.get_armor_name());
    assert_eq!(13, shirt.get_ac_source().get_base_ac());
    assert_eq!(14, Armor::scale_mail().get_ac_source().get_base_ac());
    assert_eq!(ArmorType::HeavyArmor, *Armor::ring_mail().get_armor_type());
    assert_eq!(14, Armor::ring_mail().get_ac_source().get_base_ac());
    assert_eq!(13, Armor::mage_armor().get_ac_source().get_base_ac());
    assert_eq!(ArmorType::NoArmor, *Armor::mage_armor().get_armor_type());

    let mut plate = Armor::plate();
    plate.set_magic_bonus(2);
    assert_eq!(Some(2), plate.get_ac_source().get_magic_bonus());
    plate.unset_magic_bonus();
    assert_eq!(None, plate.get_ac_source().get_magic_bonus());
    assert_eq!(18, plate.get_ac_source().get_base_ac());

    let mut src = ACSource::plain(12);
    src.set_magic_bonus(1);
    assert_eq!(Some(1), src.get_magic_bonus());
    src.unset_magic_bonus();
    assert_eq!(None, src.get_magic_bonus());
    assert_eq!(12, src.get_base_ac());

    assert!(WeaponType::SimpleRanged.is_ranged());
    assert!(WeaponType::MartialRanged.is_ranged());
    assert!(!WeaponType::MartialMelee.is_ranged());
    assert!(WeaponType::SimpleMelee.is_melee());
    assert!(!WeaponType::SimpleRanged.is_melee());

    assert_eq!(Some(&DamageDice::D10), Weapon::longsword().is_versatile());
    assert_eq!(Some(&DamageDice::D8), Weapon::quarterstaff().is_versatile());
    assert_eq!(None, Weapon::rapier().is_versatile());

    let mut sword = Weapon::greatsword();
    sword.set_magic_bonus(3);
    assert_eq!(Some(3), sword.get_magic_bonus());
    sword.unset_magic_bonus();
    assert_eq!(None, sword.get_magic_bonus());
    assert_eq!("Greatsword", sword.get_name());

    let mut equip = Equipment::new(Armor::leather(), Weapon::dagger(), OffHand::Free);
    equip.set_primary_weapon(Weapon::longbow());
    assert_eq!("Longbow", equip.get_primary_weapon().get_name());
    assert_eq!(WeaponType::MartialRanged, *equip.get_primary_weapon().get_type());
}

#[test]
fn spell_slots_per_level() {
    assert_eq!(0, second_level_slots(2));
    assert_eq!(2, second_level_slots(3));
    assert_eq!(3, second_level_slots(4));
    assert_eq!(2, third_level_slots(5));
    assert_eq!(3, third_level_slots(6));
    assert_eq!(1, fourth_level_slots(7));
    assert_eq!(2, fourth_level_slots(8));
    assert_eq!(3, fourth_level_slots(9));
    assert_eq!(1, fifth_level_slots(9));
    assert_eq!(2, fifth_level_slots(10));
    assert_eq!(3, fifth_level_slots(18));
    assert_eq!(0, sixth_level_slots(10));
    assert_eq!(1, sixth_level_slots(11));
    assert_eq!(2, sixth_level_slots(19));
    assert_eq!(1, seventh_level_slots(13));
    assert_eq!(2, seventh_level_slots(20));
    assert_eq!(0, eighth_level_slots(14));
    assert_eq!(1, eighth_level_slots(15));
    // past level twenty nothing changes
    assert_eq!(spell_slots_by_caster_level(20), spell_slots_by_caster_level(25));
}

#[test]
fn resource_caps_and_positions() {
    let mut r = Resource::new(ResourceCap::Hard(2), 1);
    assert_eq!(ResourceCap::Hard(2), r.get_max());
    r.set_max(ResourceCap::Soft(4));
    assert_eq!(ResourceCap::Soft(4), r.get_max());
    assert_eq!(1, r.get_current());
    assert_eq!(4, r.get_max().cap());

    assert_eq!(0, ResourceName::AT(ActionType::Action).index());
    assert_eq!(1, ResourceName::AT(ActionType::SingleAttack).index());
    assert_eq!(0, RefreshTiming::StartRound.index());
    assert_eq!(7, RefreshTiming::LongRest.index());
}

#[test]
fn attributed_bonus_sums_and_prints_terms() {
    let scores = AbilityScores::new(16, 12, 16, 8, 13, 10);
    let mut to_hit = AttributedBonus::new(String::from("To Hit Bonus"));
    to_hit.add_term(BonusTerm::new(BonusType::Modifier(Ability::STR)));
    to_hit.add_term(BonusTerm::new(BonusType::Proficiency));
    assert_eq!(5, to_hit.get_value(&scores, 2));
    assert_eq!("To Hit Bonus = STRmod + prof", to_hit.to_string());

    let gwm = BonusTerm::new_attr(BonusType::Constant(-5), String::from("gwm"));
    assert_eq!("-5 (From: gwm)", gwm.to_string());
    assert_eq!(Some("gwm"), gwm.get_attr());
    assert_eq!(None, gwm.get_name());
    assert_eq!(BonusType::Constant(-5), *gwm.get_bonus());
    to_hit.add_temp_term(gwm);
    assert_eq!(0, to_hit.get_value(&scores, 2));
    assert_eq!("To Hit Bonus = STRmod + prof + -5 (From: gwm)", to_hit.to_string());
    to_hit.clear_temp_terms();
    assert_eq!(5, to_hit.get_value(&scores, 2));
    to_hit.reset();
    assert_eq!(0, to_hit.get_value(&scores, 2));
    assert_eq!("To Hit Bonus = ", to_hit.to_string());

    let named = BonusTerm::new_name_attr(BonusType::Constant(12), String::from("base ac"), String::from("armor"));
    assert_eq!(Some("base ac"), named.get_name());
    assert_eq!("12 (From: armor)", named.to_string());
    assert_eq!(12, named.get_value(&scores, 2));
    assert_eq!(None, BonusTerm::new_name(BonusType::Proficiency, String::from("p")).get_attr());
}

#[test]
fn weapon_attacks_from_weapons_and_equipment() {

    let sword = WeaponAttack::new(&Weapon::longsword(), HandType::MainHand, NumHands::TwoHand);
    assert_eq!(Ability::STR, *sword.get_ability());
    assert_eq!(DamageDice::D10, sword.get_weapon_die());
    assert_eq!(20, sword.get_crit_lb());
    assert_eq!(D20Type::D20, *sword.get_d20_type());
    assert_eq!(HandType::MainHand, *sword.get_hand_type());
    assert_eq!(NumHands::TwoHand, *sword.get_num_hands());
    assert_eq!(
        &vec![DamageTerm::new(DiceExprTerm::Die(ExtendedDamageDice::WeaponDice), ExtendedDamageType::WeaponDamage)],
        sword.get_base_dmg()
    );
    assert_eq!(1, sword.get_char_dmg().len());
    assert_eq!("Hit Bonus = prof + STRmod", sword.get_hit_bonus().to_string());

    let mut rapier = Weapon::rapier();
    rapier.set_magic_bonus(1);
    let mut off = WeaponAttack::new(&rapier, HandType::OffHand, NumHands::OneHand);
    assert_eq!(Ability::DEX, *off.get_ability());
    assert_eq!("Hit Bonus = prof + DEXmod + 1 (From: magic bonus)", off.get_hit_bonus().to_string());
    assert_eq!(2, off.get_base_dmg().len());
    assert_eq!(DiceExprTerm::Const(1), off.get_base_dmg()[1].expr);
    assert!(off.get_char_dmg().is_empty());
    off.set_crit_lb(19);
    assert_eq!(19, off.get_crit_lb());
    off.set_crit_lb(25);
    assert_eq!(19, off.get_crit_lb());
    off.set_d20_type(D20Type::D20R1);
    assert_eq!(D20Type::D20R1, *off.get_d20_type());

    let equip = Equipment::new(Armor::leather(), Weapon::quarterstaff(), OffHand::Free);
    let staff = WeaponAttack::primary_weapon(&equip);
    assert_eq!(NumHands::TwoHand, *staff.get_num_hands());
    assert_eq!(DamageDice::D8, staff.get_weapon_die());
    assert!(WeaponAttack::offhand_weapon(&equip).is_none());
    let pam = staff.as_pam_attack();
    assert_eq!("Quarterstaff PAM", pam.get_weapon().get_name());
    assert_eq!(DamageDice::D4, pam.get_weapon_die());

    let dual = Equipment::new(Armor::leather(), Weapon::shortsword(), OffHand::Weapon(Weapon::dagger()));
    let second = WeaponAttack::offhand_weapon(&dual).unwrap();
    assert_eq!("Dagger", second.get_weapon().get_name());
    assert_eq!(HandType::OffHand, *second.get_hand_type());
    assert_eq!(NumHands::OneHand, *WeaponAttack::primary_weapon(&dual).get_num_hands());
}

#[test]
fn feats_make_new_attack_options() {

    let attack = |w: Weapon| -> CharacterCO {
        CombatOption::new_target(CcActionType::SingleAttack, CombatAction::WeaponAttack(WeaponAttack::new(&w, HandType::MainHand, NumHands::TwoHand)), true)
    };
    let gwm = GreatWeaponMaster::get_new_co(&attack(Weapon::greatsword())).unwrap();
    assert_eq!(CcActionType::SingleAttack, gwm.action_type);
    assert!(!gwm.req_target);
    if let CombatAction::WeaponAttack(wa) = &gwm.action {
        assert_eq!("Hit Bonus = prof + STRmod + -5 (From: gwm)", wa.get_hit_bonus().to_string());
        assert_eq!(DiceExprTerm::Const(10), wa.get_base_dmg()[1].expr);
    } else {
        panic!("not an attack");
    }
    assert!(GreatWeaponMaster::get_new_co(&attack(Weapon::rapier())).is_none());
    assert!(GreatWeaponMaster::get_new_co(&attack(Weapon::longbow())).is_none());

    let ss = SharpShooter::get_new_co(&attack(Weapon::longbow())).unwrap();
    if let CombatAction::WeaponAttack(wa) = &ss.action {
        assert_eq!("Hit Bonus = prof + DEXmod + -5 (From: ss)", wa.get_hit_bonus().to_string());
    } else {
        panic!("not an attack");
    }
    assert!(SharpShooter::get_new_co(&attack(Weapon::greatsword())).is_none());

    let pam = PolearmMaster::get_new_co(&attack(Weapon::glaive())).unwrap();
    assert_eq!(CcActionType::BonusAction, pam.action_type);
    if let CombatAction::WeaponAttack(wa) = &pam.action {
        assert_eq!(DamageDice::D4, wa.get_weapon_die());
    } else {
        panic!("not an attack");
    }
    assert!(PolearmMaster::get_new_co(&attack(Weapon::longsword())).is_none());
    assert!(PolearmMaster::get_new_co(&CombatOption::new(CcActionType::Action, CombatAction::ByName)).is_none());
}
