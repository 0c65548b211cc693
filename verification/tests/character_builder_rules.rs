use dnd_stats::character_builder::ability_scores::Ability as CbAbility;
use dnd_stats::character_builder::character::{armor_class, class_level, max_hp, prof_bonus};
use dnd_stats::character_builder::classes::fighter::{ChampionFighter, FighterClass};
use dnd_stats::character_builder::classes::ranger::{HorizonWalkerRanger, VariantRangerClass};
use dnd_stats::character_builder::classes::rogue::{RogueClass, ScoutRogue};
use dnd_stats::character_builder::classes::wizard::{ConjurationWizard, WizardClass};
use dnd_stats::character_builder::classes::{ClassFeature, ClassName, SpellCasterType, SubclassFeatures, get_subclass_features};
use dnd_stats::character_builder::combat::attack::AttackResult as CbAttackResult;
use dnd_stats::character_builder::combat::{ActionName as CbActionName, ActionType as CbActionType};
use dnd_stats::character_builder::damage::{DamageDice as CbDice, DamageInstance, DamageTerm as CbTerm, ExtendedDamageDice, ExtendedDamageType};
use dnd_stats::character_builder::equipment::{ACSource, Armor, ArmorName, Equipment, OffHand, Weapon, WeaponName};
use dnd_stats::character_builder::feature::feats::PolearmMaster;
use dnd_stats::character_builder::feature::{AbilityScoreIncrease, SaveProficiencies};
use dnd_stats::character_builder::resources::{
    create_resource_manager, RefreshBy, RefreshTiming, Resource, ResourceCap, ResourceManager, ResourceName,
};
use dnd_stats::character_builder::serialization::{CharacterDescription, EquipmentDescription, LevelUp, OffHandDescription, FeatureName};
use dnd_stats::character_builder::spellcasting::cantrips::get_cantrip_dice;
use dnd_stats::character_builder::spellcasting::{character_caster_level, first_level_slots, ninth_level_slots};
use dnd_stats::character_builder::weapon_attack::{attack_ability, get_weapon_die, primary_num_hands, NumHands};
use dnd_stats::combat_core::ability_scores::Ability;
use dnd_stats::combat_core::damage::{DamageDice, DamageType};
use dnd_stats::combat_core::health::HitDice;

#[test]
fn armor_class_follows_armor_shield_and_dexterity() {
    // a dexterity of 16 gives a modifier of 3
    let mut equip = Equipment::new(Armor::leather(), Weapon::rapier(), OffHand::Free);
    assert_eq!(14, armor_class(&equip, 3));
    equip.set_armor(Armor::chain_mail());
    assert_eq!(16, armor_class(&equip, 3));
    equip.set_armor(Armor::half_plate());
    assert_eq!(17, armor_class(&equip, 3));
    equip.set_off_hand(OffHand::Shield(ACSource::shield()));
    assert_eq!(19, armor_class(&equip, 3));
    if let OffHand::Shield(shield) = equip.get_off_hand_mut() {
        shield.set_magic_bonus(1);
    }
    assert_eq!(20, armor_class(&equip, 3));
    assert_eq!(12, armor_class(&Equipment::new(Armor::no_armor(), Weapon::dagger(), OffHand::Free), 2));
    assert_eq!(16, armor_class(&Equipment::new(Armor::hide_armor(), Weapon::dagger(), OffHand::Shield(ACSource::shield())), 5));
}

#[test]
fn character_level_rules() {
    let lvls = vec![ClassName::Fighter];
    assert_eq!(13, max_hp(&lvls, 1, 3));
    let lvls = vec![ClassName::Fighter, ClassName::Fighter, ClassName::Rogue];
    assert_eq!(10 + 6 + 5 + 3 * 2, max_hp(&lvls, 3, 2));
    assert_eq!(0, max_hp(&vec![], 0, 4));
    assert_eq!(2, class_level(&lvls, ClassName::Fighter));
    assert_eq!(0, class_level(&lvls, ClassName::Wizard));
    assert_eq!(2, prof_bonus(1));
    assert_eq!(3, prof_bonus(5));
    assert_eq!(6, prof_bonus(20));
}

#[test]
fn class_tables() {
    assert_eq!(HitDice::D10, ClassName::Fighter.get_hit_die());
    assert_eq!(HitDice::D6, ClassName::Wizard.get_hit_die());
    assert_eq!(vec![Ability::DEX, Ability::INT], ClassName::Rogue.get_save_profs().abilities);
    assert_eq!(SpellCasterType::HalfCaster, ClassName::Ranger.get_default_spellcasting());
    assert_eq!("Sorcerer", ClassName::Sorcerer.to_string());
}

#[test]
fn class_features_by_level() {
    assert_eq!(vec![ClassFeature::SecondWind], FighterClass.get_static_features(1).unwrap());
    assert_eq!(
        vec![ClassFeature::Indomitable(3), ClassFeature::ActionSurge(2)],
        FighterClass.get_static_features(17).unwrap()
    );
    assert!(FighterClass.get_static_features(21).is_err());
    assert!(FighterClass.get_static_features(0).is_err());
    assert_eq!(vec![ClassFeature::ImprovedCritical(19)], ChampionFighter.get_static_features(3).unwrap());
    assert!(ChampionFighter.get_static_features(4).is_err());
    assert_eq!(
        vec![
            ClassFeature::Subclass(SubclassFeatures { class_name: ClassName::Rogue, class_lvl: 3 }),
            ClassFeature::SneakAttack(2),
        ],
        RogueClass.get_static_features(3).unwrap()
    );
    assert_eq!(
        vec![ClassFeature::SneakAttack(8), ClassFeature::SaveProficiency(Ability::WIS)],
        RogueClass.get_static_features(15).unwrap()
    );
    assert_eq!(Vec::<ClassFeature>::new(), RogueClass.get_static_features(20).unwrap());
    assert_eq!(10, RogueClass.sneak_attack(20).0);
    assert_eq!(10, RogueClass.sneak_attack(19).0);
    assert_eq!(Vec::<ClassFeature>::new(), ScoutRogue.get_static_features(9).unwrap());
    assert_eq!(vec![ClassFeature::FavoredFoe], VariantRangerClass.get_static_features(1).unwrap());
    assert_eq!(vec![ClassFeature::PlanarWarrior], HorizonWalkerRanger.get_static_features(3).unwrap());
    assert_eq!(get_subclass_features(ClassName::Wizard, 2), WizardClass.get_static_features(2).unwrap());
    assert!(ConjurationWizard.get_static_features(3).is_err());
    assert_eq!(ClassName::Wizard, ConjurationWizard.get_class_name());
}

#[test]
fn caster_levels_and_cantrips() {
    assert_eq!(0, character_caster_level(&vec![SpellCasterType::HalfCaster]));
    assert_eq!(1, character_caster_level(&vec![SpellCasterType::HalfCaster, SpellCasterType::HalfCaster]));
    assert_eq!(2, character_caster_level(&vec![SpellCasterType::HalfCaster, SpellCasterType::HalfCaster, SpellCasterType::HalfCaster]));
    assert_eq!(0, character_caster_level(&vec![SpellCasterType::ThirdCaster, SpellCasterType::ThirdCaster]));
    assert_eq!(1, character_caster_level(&vec![SpellCasterType::ThirdCaster, SpellCasterType::ThirdCaster, SpellCasterType::ThirdCaster]));
    assert_eq!(2, character_caster_level(&vec![SpellCasterType::FullCaster, SpellCasterType::Martial, SpellCasterType::FullCaster]));
    assert_eq!(4, character_caster_level(&vec![SpellCasterType::FullCaster, SpellCasterType::FullCaster, SpellCasterType::FullCaster, SpellCasterType::HalfCaster]));
    assert_eq!(0, first_level_slots(0));
    assert_eq!(1, ninth_level_slots(20));
    assert_eq!(1, get_cantrip_dice(1));
    assert_eq!(2, get_cantrip_dice(5));
    assert_eq!(3, get_cantrip_dice(16));
    assert_eq!(4, get_cantrip_dice(17));
}

#[test]
fn weapon_rules() {
    let longsword = Weapon::longsword();
    assert_eq!(DamageDice::D10, get_weapon_die(&longsword, NumHands::TwoHand));
    assert_eq!(DamageDice::D8, get_weapon_die(&longsword, NumHands::OneHand));
    assert_eq!(DamageDice::TwoD6, get_weapon_die(&Weapon::greatsword(), NumHands::TwoHand));
    assert_eq!(Ability::DEX, attack_ability(&Weapon::rapier()));
    assert_eq!(Ability::DEX, attack_ability(&Weapon::longbow()));
    assert_eq!(Ability::STR, attack_ability(&Weapon::halberd()));
    assert_eq!(NumHands::TwoHand, primary_num_hands(&Equipment::new(Armor::plate(), Weapon::quarterstaff(), OffHand::Free)));
    assert_eq!(
        NumHands::OneHand,
        primary_num_hands(&Equipment::new(Armor::plate(), Weapon::longsword(), OffHand::Shield(ACSource::shield())))
    );
    assert_eq!(NumHands::OneHand, primary_num_hands(&Equipment::new(Armor::plate(), Weapon::rapier(), OffHand::Free)));
    assert!(Weapon::glaive().has_property(dnd_stats::character_builder::equipment::WeaponProperty::Reach));

    let pam = Weapon::halberd().as_pam();
    assert_eq!("Halberd PAM", pam.get_name());
    assert_eq!(&DamageDice::D4, pam.get_dice());
    assert_eq!(&DamageType::Bludgeoning, pam.get_dmg_type());
    assert!(PolearmMaster::is_valid_weapon(&Weapon::quarterstaff()));
    assert!(PolearmMaster::is_valid_weapon(&Weapon::glaive()));
    assert!(!PolearmMaster::is_valid_weapon(&pam));
    assert!(!PolearmMaster::is_valid_weapon(&Weapon::longsword()));
}

#[test]
fn descriptions_build_equipment() {
    let mut desc = EquipmentDescription::new(
        ArmorName::MageArmor,
        WeaponName::Rapier,
        OffHandDescription::Weapon(WeaponName::Dagger, Some(1)),
    );
    desc.weapon_mb = Some(2);
    let equip = desc.to_equipment();
    assert_eq!("Mage Armor", equip.get_armor().get_armor_name());
    assert_eq!(13, equip.get_armor().get_ac_source().get_base_ac());
    assert_eq!("Rapier", equip.get_primary_weapon().get_name());
    assert_eq!(Some(2), equip.get_primary_weapon().get_magic_bonus());
    assert_eq!(Some(1), equip.get_secondary_weapon().unwrap().get_magic_bonus());
    assert_eq!("Dagger", equip.get_secondary_weapon().unwrap().get_name());
    assert_eq!(OffHand::Free, OffHandDescription::Free.to_offhand());

    let mut cd = CharacterDescription::new(String::from("harry"), [10, 12, 14, 16, 12, 8], desc);
    cd.lvl_up(LevelUp::from(ClassName::Wizard));
    cd.lvl_up(LevelUp::feature(ClassName::Wizard, FeatureName::Haste));
    assert_eq!(2, cd.level_ups.len());
    assert_eq!(1, cd.level_ups[1].features.len());
    assert_eq!(0, LevelUp::new(ClassName::Rogue, vec![]).features.len());
}

#[test]
fn builder_resources() {
    let mut rm = create_resource_manager();
    let action = ResourceName::AT(CbActionType::Action);
    let single = ResourceName::AT(CbActionType::SingleAttack);
    assert_eq!(1, rm.get_current(action));
    assert_eq!(0, rm.get_current(single));
    rm.spend(action);
    assert_eq!(0, rm.get_current(action));
    rm.gain(single, 2);
    assert_eq!(2, rm.get_current(single));
    rm.handle_timing(RefreshTiming::StartMyTurn);
    assert_eq!(1, rm.get_current(action));
    assert_eq!(0, rm.get_current(single));

    let mut fresh = ResourceManager::new();
    let surge = ResourceName::from(CbActionName::ActionSurge);
    assert!(!fresh.has_resource(surge));
    let mut r = Resource::new(ResourceCap::Hard(2), 0);
    r.add_refresh(RefreshTiming::ShortRest, RefreshBy::Const(1));
    fresh.add_perm(surge, r);
    fresh.handle_timing(RefreshTiming::ShortRest);
    fresh.handle_timing(RefreshTiming::ShortRest);
    fresh.handle_timing(RefreshTiming::ShortRest);
    assert_eq!(2, fresh.get_current(surge));
    let mut temp = Resource::from(ResourceCap::Soft(1));
    temp.add_expiration(RefreshTiming::EndRound);
    fresh.add_temp(surge, temp);
    assert_eq!(3, fresh.get_current(surge));
    fresh.spend(surge);
    assert_eq!(2, fresh.get_current(surge));
    fresh.add_temp(surge, Resource::from(ResourceCap::Soft(1)));
    fresh.handle_timing(RefreshTiming::EndRound);
    assert_eq!(3, fresh.get_current(surge));
    assert_eq!(2, ResourceCap::Hard(2).cap());
}

#[test]
fn builder_damage_and_attacks() {
    assert_eq!(CbDice::D6, ExtendedDamageDice::get_single_die(CbDice::TwoD6));
    assert_eq!(CbDice::D12, ExtendedDamageDice::get_single_die(CbDice::D12));
    let t = CbTerm::new(DamageInstance::Dice(2, ExtendedDamageDice::WeaponDice), ExtendedDamageType::WeaponDamage);
    assert_eq!(&DamageInstance::Dice(2, ExtendedDamageDice::WeaponDice), t.get_dmg());
    assert_eq!(&ExtendedDamageType::WeaponDamage, t.get_dmg_type());
    assert_eq!(CbAttackResult::Hit, CbAttackResult::from((10, 15), 15, 20));
    assert_eq!(CbAttackResult::Crit, CbAttackResult::from((19, 15), 15, 19));
    assert_eq!(CbAttackResult::Miss, CbAttackResult::from((19, 14), 15, 19));
    assert_eq!("Miss", CbAttackResult::Miss.to_string());
    assert_eq!("WIS", CbAbility::WIS.to_string());
    let asi = AbilityScoreIncrease::from(Ability::STR);
    assert_eq!(Ability::STR, asi.1);
    assert_eq!(vec![Ability::CON], SaveProficiencies::from(Ability::CON).abilities);
}

#[test]
fn caster_level_grows_with_class_levels() {
    // a wizard gains a caster level with each level
    let full = ClassName::Wizard.get_default_spellcasting();
    for n in 1..=6usize {
        assert_eq!(n as u8, character_caster_level(&vec![full; n]));
    }
    // a ranger casts from its second level, then rounds up
    let half = ClassName::Ranger.get_default_spellcasting();
    let ranger = [0u8, 1, 2, 2, 3, 3, 4, 4, 5];
    for (k, expected) in ranger.iter().enumerate() {
        assert_eq!(*expected, character_caster_level(&vec![half; k + 1]));
    }
    // a rogue has no spells until its subclass makes every rogue level a third caster
    let martial = ClassName::Rogue.get_default_spellcasting();
    assert_eq!(0, character_caster_level(&vec![martial; 2]));
    let trickster = [1u8, 2, 2, 2, 3, 3, 3, 4];
    for (k, expected) in trickster.iter().enumerate() {
        assert_eq!(*expected, character_caster_level(&vec![SpellCasterType::ThirdCaster; k + 3]));
    }
}
