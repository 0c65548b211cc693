use dnd_stats::character_builder::ability_scores::{
    Ability as CbAbility, AbilityScore as CbAbilityScore, AbilityScores as CbAbilityScores,
};
use dnd_stats::character_builder::equipment::{
    ACSource, Armor, ArmorType, Equipment, OffHand, Weapon, WeaponProperty, WeaponRange, WeaponType,
};
use dnd_stats::character_builder::spellcasting::spell_slots_by_caster_level;
use dnd_stats::combat_core::ability_scores::{Ability, AbilityScore, AbilityScores};
use dnd_stats::combat_core::damage::{DamageDice, DamageType};
use dnd_stats::combat_core::movement::Feet;
use dnd_stats::combat_core::D20RollType;

#[test]
fn ability_scores_basic_ability_test() {
    // scores of the combat model, capped at 20
    let ability = AbilityScore::new(1);
    assert_eq!(ability.get_mod(), -5);
    let ability = AbilityScore::new(10);
    assert_eq!(ability.get_mod(), 0);
    let ability = AbilityScore::new(13);
    assert_eq!(ability.get_mod(), 1);
    let mut ability = AbilityScore::new(16);
    assert_eq!(ability.get_mod(), 3);
    ability.increase(); // 17
    assert_eq!(ability.get_mod(), 3);
    ability.increase(); // 18
    assert_eq!(ability.get_mod(), 4);
    ability = AbilityScore::new(20);
    assert_eq!(ability.get_mod(), 5);
    ability.increase(); // doesn't work because cap is 20
    assert_eq!(20, ability.get_score());

    // scores of the character builder
    let ability = CbAbilityScore::new(1);
    assert_eq!(ability.get_mod(), -5);
    let ability = CbAbilityScore::new(10);
    assert_eq!(ability.get_mod(), 0);
    let ability = CbAbilityScore::new(13);
    assert_eq!(ability.get_mod(), 1);
    let mut ability = CbAbilityScore::new(16);
    assert_eq!(ability.get_mod(), 3);
    ability.increase(); // 17
    assert_eq!(ability.get_mod(), 3);
    ability.increase(); // 18
    assert_eq!(ability.get_mod(), 4);
    let ability = CbAbilityScore::new(20);
    assert_eq!(ability.get_mod(), 5);
}

#[test]
fn ability_scores_ability_scores_test() {
    let mut ability_scores = AbilityScores {
        strength: AbilityScore::new(15),
        dexterity: AbilityScore::new(12),
        constitution: AbilityScore::new(14),
        intelligence: AbilityScore::new(8),
        wisdom: AbilityScore::new(13),
        charisma: AbilityScore::new(10),
    };

    let str = ability_scores.get_score_mut(&Ability::STR);
    str.increase();
    let con = ability_scores.get_score_mut(&Ability::CON);
    con.increase();
    con.increase();
    let scores = ability_scores;
    assert_eq!(16, scores.get_score(&Ability::STR).get_score());
    assert_eq!(16, scores.get_score(&Ability::CON).get_score());
    assert_eq!(13, scores.get_score(&Ability::WIS).get_score());

    let other_scores = AbilityScores::new(16, 12, 16, 8, 13, 10);
    assert_eq!(scores, other_scores);

    let mut ability_scores = CbAbilityScores {
        strength: CbAbilityScore::new(15),
        dexterity: CbAbilityScore::new(12),
        constitution: CbAbilityScore::new(14),
        intelligence: CbAbilityScore::new(8),
        wisdom: CbAbilityScore::new(13),
        charisma: CbAbilityScore::new(10),
    };

    let str = ability_scores.get_score_mut(&CbAbility::STR);
    str.increase();
    let con = ability_scores.get_score_mut(&CbAbility::CON);
    con.increase();
    con.increase();
    let scores = ability_scores;
    assert_eq!(16, scores.get_score(&CbAbility::STR).get_score());
    assert_eq!(16, scores.get_score(&CbAbility::CON).get_score());
    assert_eq!(13, scores.get_score(&CbAbility::WIS).get_score());

    let other_scores = CbAbilityScores::new(16, 12, 16, 8, 13, 10);
    assert_eq!(scores, other_scores);
}

#[test]
fn basic_equip_test() {
    let equip = Equipment::new(Armor::studded_leather(), Weapon::longbow(), OffHand::Free);
    assert_eq!(12, equip.get_armor().get_ac_source().get_base_ac());
    assert_eq!(None, equip.get_armor().get_ac_source().get_magic_bonus());
    assert_eq!(&ArmorType::LightArmor, equip.get_armor().get_armor_type());

    assert_eq!(&WeaponType::MartialRanged, equip.get_primary_weapon().get_type());
    assert_eq!(&DamageDice::D8, equip.get_primary_weapon().get_dice());
    assert_eq!(&DamageType::Piercing, equip.get_primary_weapon().get_dmg_type());
    assert_eq!(None, equip.get_primary_weapon().get_magic_bonus());
    let properties = equip.get_primary_weapon().get_properties();
    assert_eq!(4, properties.len());
    assert!(properties.contains(&WeaponProperty::Ammunition));
    assert!(properties.contains(&WeaponProperty::Heavy));
    assert!(properties.contains(&WeaponProperty::TwoHanded));
    assert!(properties.contains(&WeaponProperty::Range(Feet(150), Feet(600))));
    assert_eq!(WeaponRange::Ranged(Feet(150), Feet(600)), equip.get_primary_weapon().get_range());

    assert_eq!(&OffHand::Free, equip.get_off_hand());
    assert_eq!(None, equip.get_secondary_weapon());
}

#[test]
fn magic_upgrade_test() {
    let mut equip = Equipment::new(Armor::plate(), Weapon::longsword(), OffHand::Shield(ACSource::shield()));
    assert_eq!(None, equip.get_armor().get_ac_source().get_magic_bonus());
    equip.get_armor_mut().set_magic_bonus(3);
    assert_eq!(3, equip.get_armor().get_ac_source().get_magic_bonus().unwrap());
    assert_eq!(None, equip.get_primary_weapon().get_magic_bonus());
    equip.get_primary_weapon_mut().set_magic_bonus(1);
    assert_eq!(1, equip.get_primary_weapon().get_magic_bonus().unwrap());
    assert_eq!(None, equip.get_secondary_weapon());
    if let OffHand::Shield(shield) = equip.get_off_hand_mut() {
        assert_eq!(None, shield.get_magic_bonus());
        shield.set_magic_bonus(2);
        assert_eq!(2, shield.get_magic_bonus().unwrap());
    }
    assert_eq!(2, equip.get_shield().unwrap().get_magic_bonus().unwrap());
}

#[test]
fn range_test() {
    let equip1 = Equipment::new(Armor::leather(), Weapon::shortsword(), OffHand::Weapon(Weapon::dagger()));
    assert_eq!(WeaponRange::Melee(Feet(5)), equip1.get_primary_weapon().get_range());
    assert_eq!(
        WeaponRange::Thrown(Feet(5), Feet(20), Feet(60)),
        equip1.get_secondary_weapon().unwrap().get_range()
    );

    let equip2 = Equipment::new(Armor::chain_mail(), Weapon::glaive(), OffHand::Free);
    assert_eq!(WeaponRange::Melee(Feet(10)), equip2.get_primary_weapon().get_range());

    let equip3 = Equipment::new(Armor::padded(), Weapon::shortbow(), OffHand::Free);
    assert_eq!(WeaponRange::Ranged(Feet(80), Feet(320)), equip3.get_primary_weapon().get_range());
}

#[test]
fn versatile_test() {
    let equip1 = Equipment::new(Armor::splint(), Weapon::longsword(), OffHand::Shield(ACSource::shield()));
    assert_eq!(&DamageDice::D8, equip1.get_primary_dmg_dice());

    let equip2 = Equipment::new(Armor::breastplate(), Weapon::longsword(), OffHand::Free);
    assert_eq!(&DamageDice::D10, equip2.get_primary_dmg_dice());
}

#[test]
fn spell_slots() {
    assert_eq!(spell_slots_by_caster_level(1), [0, 2, 0, 0, 0, 0, 0, 0, 0, 0]);
    assert_eq!(spell_slots_by_caster_level(2), [0, 3, 0, 0, 0, 0, 0, 0, 0, 0]);
    assert_eq!(spell_slots_by_caster_level(3), [0, 4, 2, 0, 0, 0, 0, 0, 0, 0]);
    assert_eq!(spell_slots_by_caster_level(4), [0, 4, 3, 0, 0, 0, 0, 0, 0, 0]);
    assert_eq!(spell_slots_by_caster_level(5), [0, 4, 3, 2, 0, 0, 0, 0, 0, 0]);
    assert_eq!(spell_slots_by_caster_level(6), [0, 4, 3, 3, 0, 0, 0, 0, 0, 0]);
    assert_eq!(spell_slots_by_caster_level(7), [0, 4, 3, 3, 1, 0, 0, 0, 0, 0]);
    assert_eq!(spell_slots_by_caster_level(8), [0, 4, 3, 3, 2, 0, 0, 0, 0, 0]);
    assert_eq!(spell_slots_by_caster_level(9), [0, 4, 3, 3, 3, 1, 0, 0, 0, 0]);
    assert_eq!(spell_slots_by_caster_level(10), [0, 4, 3, 3, 3, 2, 0, 0, 0, 0]);
    assert_eq!(spell_slots_by_caster_level(11), [0, 4, 3, 3, 3, 2, 1, 0, 0, 0]);
    assert_eq!(spell_slots_by_caster_level(12), [0, 4, 3, 3, 3, 2, 1, 0, 0, 0]);
    assert_eq!(spell_slots_by_caster_level(13), [0, 4, 3, 3, 3, 2, 1, 1, 0, 0]);
    assert_eq!(spell_slots_by_caster_level(14), [0, 4, 3, 3, 3, 2, 1, 1, 0, 0]);
    assert_eq!(spell_slots_by_caster_level(15), [0, 4, 3, 3, 3, 2, 1, 1, 1, 0]);
    assert_eq!(spell_slots_by_caster_level(16), [0, 4, 3, 3, 3, 2, 1, 1, 1, 0]);
    assert_eq!(spell_slots_by_caster_level(17), [0, 4, 3, 3, 3, 2, 1, 1, 1, 1]);
    assert_eq!(spell_slots_by_caster_level(18), [0, 4, 3, 3, 3, 3, 1, 1, 1, 1]);
    assert_eq!(spell_slots_by_caster_level(19), [0, 4, 3, 3, 3, 3, 2, 1, 1, 1]);
    assert_eq!(spell_slots_by_caster_level(20), [0, 4, 3, 3, 3, 3, 2, 2, 1, 1]);
}

#[test]
fn roll_type_add() {
    assert_eq!(D20RollType::FixedNormal, D20RollType::Disadvantage + D20RollType::Advantage);
    assert_eq!(D20RollType::FixedNormal, D20RollType::Disadvantage + D20RollType::SuperAdvantage);
    assert_eq!(D20RollType::SuperAdvantage, D20RollType::Advantage + D20RollType::SuperAdvantage);
    assert_eq!(D20RollType::SuperAdvantage, D20RollType::Normal + D20RollType::SuperAdvantage);
    assert_eq!(D20RollType::FixedNormal, D20RollType::FixedNormal + D20RollType::Disadvantage);
}

#[test]
fn better_d20_roll() {
    assert_eq!(D20RollType::Advantage, D20RollType::Disadvantage.choose_better(&D20RollType::Advantage));
    assert_eq!(D20RollType::SuperAdvantage, D20RollType::SuperAdvantage.choose_better(&D20RollType::Advantage));
    assert_eq!(D20RollType::Normal, D20RollType::Normal.choose_better(&D20RollType::Disadvantage));
}
