use dnd_stats::combat_core::ability_scores::{Ability, AbilityScore, AbilityScores, ForceSave};
use dnd_stats::combat_core::actions::ActionType;
use dnd_stats::combat_core::combat_event::{CombatTiming, RoundId};
use dnd_stats::combat_core::conditions::{
    AttackDistance, Condition, ConditionEffect, ConditionLifetime, ConditionManager, ConditionName,
};
use dnd_stats::combat_core::damage::dice_expr::DiceExprTerm;
use dnd_stats::combat_core::damage::{DamageDice, DamageFeature, DamageTerm, DamageType, ExtendedDamageDice, ExtendedDamageType};
use dnd_stats::combat_core::health::{Health, HitDice};
use dnd_stats::combat_core::movement::{Feet, Square};
use dnd_stats::combat_core::participant::ParticipantId;
use dnd_stats::combat_core::resources::resource_amounts::{ResourceCap, ResourceCount};
use dnd_stats::combat_core::resources::{
    create_basic_rm, RefreshTiming, Resource, ResourceActionType, ResourceManager, ResourceName,
};
use dnd_stats::combat_core::skills::{contest_result, ContestResult, ProfType, SkillManager, SkillName};
use dnd_stats::combat_core::{CCError, D20RollType};

#[test]
fn bloodied_threshold_and_health_bands() {
    assert_eq!(5, Health::calc_bloodied(10));
    assert_eq!(6, Health::calc_bloodied(11));
    assert_eq!(0, Health::calc_bloodied(0));
    // hit points below zero: half toward zero, one more when odd
    assert_eq!(0, Health::calc_bloodied(-3));
    assert_eq!(-1, Health::calc_bloodied(-2));
    assert_eq!(1, Health::calc_bloodied(-1));

    assert_eq!(Health::Healthy, Health::classify_hp(&4, 5, 10, false));
    assert_eq!(Health::Bloodied, Health::classify_hp(&5, 5, 10, false));
    assert_eq!(Health::Bloodied, Health::classify_hp(&9, 5, 10, true));
    assert_eq!(Health::ZeroHP, Health::classify_hp(&10, 5, 10, false));
    assert_eq!(Health::Dead, Health::classify_hp(&12, 5, 10, true));

    assert_eq!((Health::Healthy, Health::Bloodied), Health::classify_bounds(2, 8, 11, true));
    assert_eq!((Health::Bloodied, Health::Dead), Health::classify_bounds(6, 20, 11, true));
    assert_eq!((Health::Healthy, Health::ZeroHP), Health::classify_bounds(0, 11, 11, false));

    assert_eq!(10, HitDice::D10.get_max());
    assert_eq!(6, HitDice::D10.get_per_lvl());
    assert_eq!(4, HitDice::D6.get_per_lvl());
    assert_eq!(12, HitDice::D12.get_max());
}

#[test]
fn ability_score_mutators() {
    let mut s = AbilityScore::new(19);
    assert_eq!(20, s.get_cap());
    assert_eq!(4, s.get_mod());
    s.increase();
    assert_eq!(20, s.get_score());
    s.increase();
    assert_eq!(20, s.get_score());
    s.increase_cap();
    s.increase();
    assert_eq!(21, s.get_score());
    s.set_score(30);
    assert_eq!(21, s.get_score());
    s.set_score(8);
    assert_eq!(-1, s.get_mod());

    assert!(!s.is_prof_save());
    assert_eq!(-1, s.get_save_bonus_total(3));
    s.set_prof_save(true);
    assert!(s.is_prof_save());
    assert_eq!(2, s.get_save_bonus_total(3));
    s.set_save_bonus(1);
    assert_eq!(1, s.get_save_bonus());
    s.add_save_bonus(2);
    assert_eq!(3, s.get_save_bonus());
    assert_eq!(5, s.get_save_bonus_total(3));
    assert_eq!(D20RollType::Normal, *s.get_d20_roll_type());

    let scores = AbilityScores::from_array([8, 10, 12, 14, 16, 18]);
    assert_eq!(AbilityScores::new(8, 10, 12, 14, 16, 18), scores);
    assert_eq!(4, scores.get_score(&Ability::CHA).get_mod());
    assert_eq!(-1, scores.get_score(&Ability::STR).get_mod());

    let save = ForceSave::new(Ability::DEX, 15);
    assert_eq!(Ability::DEX, save.ability);
    assert_eq!(15, save.save_dc);
}

#[test]
fn skill_checks_and_contests() {
    assert_eq!(Ability::DEX, SkillName::Acrobatics.get_ability());
    assert_eq!(Ability::STR, SkillName::Athletics.get_ability());
    assert_eq!(Ability::WIS, SkillName::Perception.get_ability());
    assert_eq!(Ability::DEX, SkillName::Stealth.get_ability());

    assert_eq!(0, ProfType::Normal.get_bonus(3));
    assert_eq!(1, ProfType::HalfProf.get_bonus(3));
    assert_eq!(3, ProfType::Proficient.get_bonus(3));
    assert_eq!(6, ProfType::Expert.get_bonus(3));

    let scores = AbilityScores::new(16, 14, 10, 10, 12, 10);
    let mut skills = SkillManager::new();
    assert_eq!(3, skills.get_check_bonus(SkillName::Athletics, &scores, 2));
    skills.get_skill_check_mut(SkillName::Athletics).prof_type = ProfType::Expert;
    assert_eq!(ProfType::Expert, skills.get_skill_check(SkillName::Athletics).prof_type);
    assert_eq!(7, skills.get_check_bonus(SkillName::Athletics, &scores, 2));
    skills.get_skill_check_mut(SkillName::Stealth).override_ability = Some(Ability::WIS);
    assert_eq!(1, skills.get_check_bonus(SkillName::Stealth, &scores, 2));

    assert_eq!(ContestResult::InitiatorWins, contest_result(12, 12));
    assert_eq!(ContestResult::InitiatorWins, contest_result(13, 12));
    assert_eq!(ContestResult::DefenderWins, contest_result(11, 12));
}

#[test]
fn roll_types_rank_and_combine() {
    assert_eq!(0, D20RollType::Disadvantage.rank());
    assert_eq!(4, D20RollType::SuperAdvantage.rank());
    assert_eq!(D20RollType::FixedNormal, D20RollType::Advantage.combine(D20RollType::Disadvantage));
    assert_eq!(D20RollType::Advantage, D20RollType::Normal.combine(D20RollType::Advantage));
    assert_eq!(D20RollType::SuperAdvantage, D20RollType::Advantage.combine(D20RollType::SuperAdvantage));
    assert_eq!(D20RollType::FixedNormal, D20RollType::FixedNormal.combine(D20RollType::SuperAdvantage));
    assert_eq!(D20RollType::Advantage, D20RollType::Disadvantage.choose_better(&D20RollType::Advantage));
}

#[test]
fn condition_modifiers_by_distance() {
    assert!(AttackDistance::Any.applies_to(&AttackDistance::Within5Ft));
    assert!(AttackDistance::Beyond5Ft.applies_to(&AttackDistance::Any));
    assert!(!AttackDistance::Within5Ft.applies_to(&AttackDistance::Beyond5Ft));

    let prone = ConditionName::Prone.get_basic_cond().unwrap();
    assert_eq!(3, prone.effects.len());
    assert_eq!(vec![ConditionLifetime::UntilSpendAT(ActionType::HalfMove)], prone.lifetimes);
    assert!(matches!(ConditionName::Invisible.get_basic_cond(), Err(CCError::UnknownCondition)));

    let mut attacker = ConditionManager::new();
    let mut target = ConditionManager::new();
    target.add_basic_condition(ConditionName::Prone).unwrap();
    assert_eq!(3, target.get_condition(&ConditionName::Prone).effects.len());
    // prone: advantage within five feet, disadvantage beyond
    assert_eq!(D20RollType::Advantage, target.get_atk_target_mod(AttackDistance::Within5Ft));
    assert_eq!(D20RollType::Disadvantage, target.get_atk_target_mod(AttackDistance::Beyond5Ft));
    assert_eq!(D20RollType::Advantage, attacker.overall_atk_mod(&target, AttackDistance::Within5Ft));
    assert_eq!(D20RollType::Disadvantage, attacker.overall_atk_mod(&target, AttackDistance::Beyond5Ft));
    // at any distance the attacker takes the better of the two
    assert_eq!(D20RollType::Advantage, attacker.overall_atk_mod(&target, AttackDistance::Any));

    let invisible = Condition {
        effects: vec![ConditionEffect::AttackerMod(AttackDistance::Any, D20RollType::Advantage)],
        lifetimes: vec![ConditionLifetime::Permanent],
    };
    attacker.add_condition(ConditionName::Invisible, invisible);
    assert_eq!(D20RollType::Advantage, attacker.get_atk_mod(AttackDistance::Beyond5Ft));
    assert_eq!(D20RollType::FixedNormal, attacker.overall_atk_mod(&target, AttackDistance::Beyond5Ft));
    assert_eq!(D20RollType::Advantage, attacker.overall_atk_mod(&target, AttackDistance::Within5Ft));
}

#[test]
fn damage_modifiers_of_conditions() {
    let fire = DamageTerm::new(
        DiceExprTerm::Die(ExtendedDamageDice::Basic(DamageDice::D6)),
        ExtendedDamageType::Basic(DamageType::Fire),
    );
    assert_eq!(DiceExprTerm::Die(ExtendedDamageDice::Basic(DamageDice::D6)), *fire.get_expr());
    assert_eq!(ExtendedDamageType::Basic(DamageType::Fire), *fire.get_dmg_type());
    let marked = Condition {
        effects: vec![
            ConditionEffect::TakeBonusDmgFrom(fire, ParticipantId(1)),
            ConditionEffect::TakeDmgFeatureFrom(DamageFeature::DmgTypeConversion(DamageType::Force), ParticipantId(1)),
            ConditionEffect::TakeDmgFeatureFrom(DamageFeature::GWF, ParticipantId(2)),
        ],
        lifetimes: vec![ConditionLifetime::Permanent],
    };
    let mut cm = ConditionManager::new();
    cm.add_condition(ConditionName::PlanarWarriorTarget, marked);
    let (feats, terms) = cm.overall_dmg_mods(ParticipantId(1));
    assert_eq!(vec![DamageFeature::DmgTypeConversion(DamageType::Force)], feats);
    assert_eq!(vec![fire], terms);
    let (feats2, terms2) = cm.overall_dmg_mods(ParticipantId(2));
    assert_eq!(vec![DamageFeature::GWF], feats2);
    assert!(terms2.is_empty());
    let (feats3, terms3) = cm.overall_dmg_mods(ParticipantId(3));
    assert!(feats3.is_empty() && terms3.is_empty());

    let copy = cm.get_condition(&ConditionName::PlanarWarriorTarget).duplicate();
    assert!(copy.same_as(cm.get_condition(&ConditionName::PlanarWarriorTarget)));
    let mut other = ConditionManager::new();
    assert!(!cm.same_as(&other));
    other.add_condition(ConditionName::PlanarWarriorTarget, copy);
    assert!(cm.same_as(&other));
}

#[test]
fn resource_amounts_arithmetic() {
    assert_eq!(Some(3), ResourceCap::Hard(3).cap());
    assert_eq!(None, ResourceCap::UnCapped.cap());
    assert!(ResourceCap::UnCapped.is_uncapped());
    assert!(!ResourceCap::Soft(0).is_uncapped());

    let mut c = ResourceCount::Count(2);
    assert_eq!(Some(2), c.count());
    assert!(c.eq_num(2));
    assert!(c.ge_num(2));
    assert!(!c.gt_num(2));
    assert!(c.eq_cap(&ResourceCap::Soft(2)));
    assert!(!c.eq_cap(&ResourceCap::UnCapped));
    c.add_num(3);
    assert_eq!(ResourceCount::Count(5), c);
    c.sub_num(7);
    assert_eq!(ResourceCount::Count(0), c);
    c.set_count(4);
    assert_eq!(ResourceCount::Count(4), c);

    let mut u = ResourceCount::UnCapped;
    assert!(u.is_uncapped());
    assert_eq!(None, u.count());
    assert!(!u.eq_num(0));
    assert!(u.ge_num(1000) && u.gt_num(1000));
    assert!(u.eq_cap(&ResourceCap::UnCapped));
    u.add_num(3);
    u.sub_num(3);
    u.set_count(1);
    assert_eq!(ResourceCount::UnCapped, u);
}

#[test]
fn resources_compare_by_content() {
    let mut a = Resource::new(ResourceCap::Hard(2), ResourceCount::Count(1));
    let b = Resource::new(ResourceCap::Hard(2), ResourceCount::Count(1));
    assert!(a.same_as(&b));
    assert_eq!(ResourceCap::Hard(2), a.get_max());
    a.set_max(ResourceCap::Hard(3));
    assert_eq!(ResourceCap::Hard(3), a.get_max());
    assert!(!a.same_as(&b));
    a.set_max(ResourceCap::Hard(2));
    assert!(a.same_as(&b));
    a.add_expiration(RefreshTiming::EndRound);
    assert!(!a.same_as(&b));

    let action = ResourceName::RAT(ResourceActionType::Action);
    let mut m1 = create_basic_rm(Feet(30));
    let m2 = create_basic_rm(Feet(30));
    assert!(m1.same_as(&m2));
    assert!(!m1.same_as(&create_basic_rm(Feet(25))));
    m1.spend(action);
    assert!(!m1.same_as(&m2));
    m1.gain(action, 1);
    assert!(m1.same_as(&m2));
    assert!(!ResourceManager::new().same_as(&m2));
}

#[test]
fn distances_timings_and_action_types() {
    assert_eq!(Feet(15), Feet::from_square(Square(3)));
    assert_eq!(Feet(-5), Feet::from_square(Square(-1)));

    assert_eq!(None, CombatTiming::EncounterBegin.get_refresh_timing(ParticipantId(0)));
    assert_eq!(Some(RefreshTiming::StartRound), CombatTiming::BeginRound(RoundId(2)).get_refresh_timing(ParticipantId(0)));
    assert_eq!(Some(RefreshTiming::StartMyTurn), CombatTiming::BeginTurn(ParticipantId(1)).get_refresh_timing(ParticipantId(1)));
    assert_eq!(Some(RefreshTiming::StartOtherTurn), CombatTiming::BeginTurn(ParticipantId(1)).get_refresh_timing(ParticipantId(0)));
    assert_eq!(Some(RefreshTiming::EndMyTurn), CombatTiming::EndTurn(ParticipantId(0)).get_refresh_timing(ParticipantId(0)));
    assert_eq!(Some(RefreshTiming::EndOtherTurn), CombatTiming::EndTurn(ParticipantId(2)).get_refresh_timing(ParticipantId(0)));

    assert_eq!(
        vec![
            ActionType::Action,
            ActionType::SingleAttack,
            ActionType::BonusAction,
            ActionType::Reaction,
            ActionType::Movement,
            ActionType::HalfMove,
            ActionType::FreeAction,
        ],
        ActionType::iterator()
    );
}
