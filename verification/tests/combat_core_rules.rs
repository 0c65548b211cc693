use dnd_stats::combat_core::damage::dice_expr::{DiceExprTerm, DiceExpression};
use dnd_stats::combat_core::damage::{DamageDice, ExtendedDamageDice};
use dnd_stats::combat_core::CCError;
use dnd_stats::combat_core::actions::{ActionName, ActionType, AttackType};
use dnd_stats::combat_core::attack::AttackResult;
use dnd_stats::combat_core::combat_event::{CombatEvent, CombatTiming, RoundId};
use dnd_stats::combat_core::combat_state::combat_log::CombatLog;
use dnd_stats::combat_core::combat_state::CombatState;
use dnd_stats::combat_core::conditions::{Condition, ConditionLifetime, ConditionManager, ConditionName};
use dnd_stats::combat_core::health::Health;
use dnd_stats::combat_core::movement::Feet;
use dnd_stats::combat_core::participant::{ParticipantId, Team};
use dnd_stats::combat_core::resources::resource_amounts::{RefreshBy, ResourceCap, ResourceCount};
use dnd_stats::combat_core::resources::{
    create_basic_rm, RefreshTiming, Resource, ResourceActionType, ResourceManager, ResourceName,
};
use dnd_stats::combat_core::spells::SpellSlot;
use dnd_stats::combat_core::strategy::action_surge_str::ActionSurgeStrBuilder;
use dnd_stats::combat_core::strategy::basic_strategies::RemoveCondBuilder;
use dnd_stats::combat_core::strategy::get_first_target;
use dnd_stats::combat_core::strategy::gwm_str::GWMStrBldr;
use dnd_stats::combat_core::strategy::linear_str::{LinearStrategy, NamedStrategy};
use dnd_stats::combat_core::strategy::second_wind_str::SecondWindStrBuilder;
use dnd_stats::combat_core::strategy::serialization::{StrategyBuilderDescription, StrategyBuilderName};
use dnd_stats::combat_core::strategy::sneak_atk_str::SneakAttackStrBuilder;
use dnd_stats::combat_core::strategy::{StrategicAction, StrategyDecision, Target};
use dnd_stats::combat_core::triggers::{
    TriggerAction, TriggerContext, TriggerInfo, TriggerManager, TriggerName, TriggerResponse, TriggerType,
};
use dnd_stats::combat_core::D20RollType;

const ACTION: ResourceName = ResourceName::RAT(ResourceActionType::Action);
const BONUS: ResourceName = ResourceName::RAT(ResourceActionType::BonusAction);
const SINGLE: ResourceName = ResourceName::RAT(ResourceActionType::SingleAttack);

#[test]
fn roll_types_combine_in_either_order() {
    let all = [
        D20RollType::Disadvantage,
        D20RollType::FixedNormal,
        D20RollType::Normal,
        D20RollType::Advantage,
        D20RollType::SuperAdvantage,
    ];
    for a in all {
        for b in all {
            assert_eq!(a + b, b + a);
            assert_eq!(D20RollType::Normal + a, a);
            assert_eq!(D20RollType::FixedNormal + a, D20RollType::FixedNormal);
        }
    }
    assert_eq!(D20RollType::Disadvantage, D20RollType::Disadvantage + D20RollType::Disadvantage);
}

#[test]
fn attack_results() {
    assert_eq!(AttackResult::Crit, AttackResult::from((20, 5), 30, 20));
    assert_eq!(AttackResult::Miss, AttackResult::from((1, 40), 10, 20));
    assert_eq!(AttackResult::Hit, AttackResult::from((12, 17), 17, 20));
    assert_eq!(AttackResult::Miss, AttackResult::from((12, 16), 17, 20));
    assert_eq!(AttackResult::Crit, AttackResult::from((19, 25), 17, 19));
    assert_eq!("Crit", AttackResult::Crit.to_string());
}

#[test]
fn resource_counts_and_caps() {
    assert_eq!(ResourceCount::Count(5), ResourceCount::Count(2) + ResourceCount::Count(3));
    assert_eq!(ResourceCount::UnCapped, ResourceCount::Count(2) + ResourceCount::UnCapped);
    assert_eq!(ResourceCount::Count(0), ResourceCount::Count(2) - 5);
    assert_eq!(ResourceCount::Count(1), ResourceCount::Count(3) - 2);
    assert_eq!(ResourceCap::Soft(5), ResourceCap::Hard(2) + ResourceCap::Soft(3));
    assert_eq!(ResourceCap::Hard(5), ResourceCap::Hard(2) + ResourceCap::Hard(3));
    assert_eq!(Some(ResourceCap::Hard(2)), ResourceCap::Hard(5) / 2);
    assert_eq!(None, ResourceCap::Hard(5) / 0);
    assert!(ResourceCount::UnCapped.gt_num(1000));
    assert!(ResourceCount::Count(3).eq_cap(&ResourceCap::Hard(3)));
    assert!(!ResourceCount::Count(3).eq_cap(&ResourceCap::UnCapped));
}

#[test]
fn resource_spending_and_gaining() {
    let mut r = Resource::new(ResourceCap::Hard(3), ResourceCount::Count(2));
    assert_eq!(0, r.spend_many(1));
    assert_eq!(ResourceCount::Count(1), r.get_current());
    assert_eq!(4, r.spend_many(5));
    assert_eq!(ResourceCount::Count(0), r.get_current());
    r.spend();
    assert_eq!(ResourceCount::Count(0), r.get_current());
    r.gain(10);
    assert_eq!(ResourceCount::Count(3), r.get_current());

    let mut soft = Resource::from(ResourceCap::Soft(2));
    soft.gain(3);
    assert_eq!(ResourceCount::Count(5), soft.get_current());
    soft.drain();
    assert_eq!(ResourceCount::Count(0), soft.get_current());
    soft.gain_to_full();
    assert_eq!(ResourceCount::Count(2), soft.get_current());

    let mut unlimited = Resource::refill_lr(ResourceCap::UnCapped);
    assert_eq!(0, unlimited.spend_many(100));
    assert_eq!(ResourceCount::UnCapped, unlimited.get_current());
}

#[test]
fn resource_refreshes_and_expirations() {
    let mut r = Resource::new(ResourceCap::Hard(4), ResourceCount::Count(1));
    r.add_refresh(RefreshTiming::StartMyTurn, RefreshBy::Const(2));
    r.add_refresh(RefreshTiming::LongRest, RefreshBy::ToFull);
    r.refresh(RefreshTiming::StartMyTurn);
    assert_eq!(ResourceCount::Count(3), r.get_current());
    r.refresh(RefreshTiming::StartMyTurn);
    assert_eq!(ResourceCount::Count(4), r.get_current());
    r.refresh(RefreshTiming::EndRound);
    assert_eq!(ResourceCount::Count(4), r.get_current());
    r.add_expiration(RefreshTiming::StartMyTurn);
    assert!(r.expires(RefreshTiming::StartMyTurn));
    r.spend();
    r.refresh(RefreshTiming::StartMyTurn);
    assert_eq!(ResourceCount::Count(3), r.get_current());
    r.add_refresh(RefreshTiming::StartMyTurn, RefreshBy::ToEmpty);
    assert!(!r.expires(RefreshTiming::StartMyTurn));
    r.refresh(RefreshTiming::StartMyTurn);
    assert_eq!(ResourceCount::Count(0), r.get_current());
    r.refresh(RefreshTiming::LongRest);
    assert_eq!(ResourceCount::Count(4), r.get_current());
}

#[test]
fn basic_resource_manager_turn_cycle() {
    let mut rm = create_basic_rm(Feet(-30));
    assert_eq!(ResourceCount::Count(1), rm.get_current(ACTION));
    assert_eq!(ResourceCount::Count(30), rm.get_current(ResourceName::Movement));
    assert_eq!(ResourceCount::Count(0), rm.get_current(SINGLE));
    assert!(!rm.has_resource(ResourceName::AN(ActionName::ActionSurge)));
    assert_eq!(ResourceCount::Count(0), rm.get_current(ResourceName::AN(ActionName::ActionSurge)));
    assert_eq!(ResourceCap::Hard(0), rm.get_cap(ResourceName::AN(ActionName::ActionSurge)));
    assert!(rm.is_full(ACTION));

    rm.spend(ACTION);
    assert_eq!(ResourceCount::Count(0), rm.get_current(ACTION));
    assert!(!rm.is_full(ACTION));
    rm.gain(SINGLE, 2);
    assert_eq!(ResourceCount::Count(2), rm.get_current(SINGLE));
    rm.handle_timing(RefreshTiming::EndMyTurn);
    assert_eq!(ResourceCount::Count(0), rm.get_current(SINGLE));
    assert_eq!(ResourceCount::Count(0), rm.get_current(ResourceName::Movement));
    rm.handle_timing(RefreshTiming::StartMyTurn);
    assert_eq!(ResourceCount::Count(1), rm.get_current(ACTION));
    assert_eq!(ResourceCount::Count(30), rm.get_current(ResourceName::Movement));
    assert_eq!(ResourceCount::Count(1), rm.get_current(ResourceName::RAT(ResourceActionType::Reaction)));

    let same = ResourceManager::just_action_types();
    assert_eq!(ResourceCount::Count(30), same.get_current(ResourceName::Movement));
}

#[test]
fn temporary_resources_are_spent_first() {
    let mut rm = ResourceManager::new();
    rm.add_perm(BONUS, Resource::from(ResourceCap::Hard(1)));
    let mut temp = Resource::new(ResourceCap::Soft(2), ResourceCount::Count(2));
    temp.add_expiration(RefreshTiming::EndRound);
    rm.add_temp(BONUS, temp);
    rm.add_temp(ACTION, Resource::new(ResourceCap::Soft(2), ResourceCount::Count(0)));
    assert!(!rm.has_resource(ACTION));
    assert_eq!(ResourceCount::Count(3), rm.get_current(BONUS));
    assert_eq!(ResourceCap::Soft(3), rm.get_cap(BONUS));
    assert!(rm.check_counts(&vec![(BONUS, 3)]));
    assert!(!rm.check_counts(&vec![(BONUS, 4)]));
    assert!(!rm.check_counts(&vec![(BONUS, 1), (ACTION, 1)]));

    rm.spend(BONUS);
    assert_eq!(ResourceCount::Count(2), rm.get_current(BONUS));
    rm.spend_many(BONUS, 2);
    assert_eq!(ResourceCount::Count(0), rm.get_current(BONUS));

    let mut rm2 = ResourceManager::new();
    rm2.add_perm(BONUS, Resource::from(ResourceCap::Hard(1)));
    let mut temp2 = Resource::new(ResourceCap::Soft(2), ResourceCount::Count(2));
    temp2.add_expiration(RefreshTiming::EndRound);
    rm2.add_temp(BONUS, temp2);
    rm2.handle_timing(RefreshTiming::EndRound);
    assert_eq!(ResourceCount::Count(1), rm2.get_current(BONUS));
    rm2.add_temp(BONUS, Resource::new(ResourceCap::Soft(2), ResourceCount::Count(2)));
    rm2.drain(BONUS);
    assert_eq!(ResourceCount::Count(0), rm2.get_current(BONUS));
    rm2.set_cap(&BONUS, ResourceCap::Hard(2));
    assert!(rm2.is_full(BONUS));
    assert_eq!(ResourceCount::Count(2), rm2.get_current(BONUS));
}

#[test]
fn spell_slots_refill_on_long_rests() {
    let mut rm = ResourceManager::new();
    rm.set_spell_slots([0, 4, 3, 2, 0, 0, 0, 0, 0, 0]);
    assert_eq!(ResourceCount::UnCapped, rm.get_current(ResourceName::SS(SpellSlot::Cantrip)));
    assert_eq!(ResourceCount::Count(3), rm.get_current(ResourceName::SS(SpellSlot::Second)));
    rm.spend(ResourceName::SS(SpellSlot::Second));
    rm.gain(ResourceName::SS(SpellSlot::Second), 5);
    assert_eq!(ResourceCount::Count(3), rm.get_current(ResourceName::SS(SpellSlot::Second)));
    rm.spend(ResourceName::SS(SpellSlot::First));
    rm.handle_timing(RefreshTiming::ShortRest);
    assert_eq!(ResourceCount::Count(3), rm.get_current(ResourceName::SS(SpellSlot::First)));
    rm.handle_timing(RefreshTiming::LongRest);
    assert_eq!(ResourceCount::Count(4), rm.get_current(ResourceName::SS(SpellSlot::First)));
}

#[test]
fn conditions_end_with_their_lifetimes() {
    let mut cm = ConditionManager::new();
    assert!(cm.add_basic_condition(ConditionName::Invisible).is_err());
    cm.add_basic_condition(ConditionName::Prone).unwrap();
    let end_turn = ConditionLifetime::UntilTime(CombatTiming::EndTurn(ParticipantId(1)));
    cm.add_condition(ConditionName::Invisible, Condition { effects: vec![], lifetimes: vec![end_turn] });
    cm.add_condition(ConditionName::Concentration, Condition { effects: vec![], lifetimes: vec![end_turn] });
    assert_eq!(3, cm.len());
    assert_eq!(vec![ConditionName::Concentration, ConditionName::Invisible], cm.get_cns_for_lifetime(&end_turn));
    assert_eq!(D20RollType::Disadvantage, cm.get_atk_mod(dnd_stats::combat_core::conditions::AttackDistance::Within5Ft));
    let removed = cm.remove_conditions_by_lifetime(&end_turn);
    assert_eq!(vec![ConditionName::Concentration, ConditionName::Invisible], removed);
    assert_eq!(1, cm.len());
    assert!(cm.has_condition(&ConditionName::Prone));
    assert!(!cm.has_lifetime(&end_turn));
    cm.remove_condition_by_name(&ConditionName::Prone);
    assert_eq!(0, cm.len());
}

#[test]
fn trigger_manager_registrations() {
    let mut tm = TriggerManager::new();
    let hit = TriggerInfo::new(TriggerType::SuccessfulAttack, TriggerContext::AR(AttackResult::Hit));
    assert!(!tm.has_triggers(hit));
    tm.add_auto_trigger(hit, TriggerName::HasteLethargy);
    tm.add_auto_trigger(hit, TriggerName::SneakAttack);
    assert!(tm.has_auto_triggers(hit));
    assert!(!tm.has_manual_triggers(hit));
    assert_eq!(Some(vec![TriggerName::SneakAttack, TriggerName::HasteLethargy]), tm.get_auto_trigger_names(hit));
    tm.add_manual_triggers(hit, vec![TriggerName::GWMBonusAtk, TriggerName::GWMBonusAtk]);
    assert_eq!(Some(vec![TriggerName::GWMBonusAtk]), tm.get_manual_trigger_names(hit));
    tm.replace_manual_trigger(hit, vec![]);
    assert_eq!(Some(vec![]), tm.get_manual_trigger_names(hit));
    assert!(tm.has_manual_triggers(hit));

    let resp = TriggerResponse::from((TriggerAction::AddResource(ACTION, 1), ResourceName::TN(TriggerName::SneakAttack)));
    tm.set_response(TriggerName::SneakAttack, resp);
    assert!(tm.get_response(TriggerName::GWMBonusAtk).is_none());
    let got = tm.get_response(TriggerName::SneakAttack).unwrap();
    assert_eq!(vec![ResourceName::TN(TriggerName::SneakAttack)], got.resources);
    let responses = tm.get_auto_responses(hit);
    assert_eq!(1, responses.len());
    assert!(matches!(responses[0].action, TriggerAction::AddResource(ACTION, 1)));
    assert_eq!(0, tm.get_manual_responses(hit).len());
}

#[test]
fn trigger_responses_register_their_participant() {
    let mut tm = TriggerManager::new();
    let lt = ConditionLifetime::UntilTime(CombatTiming::EndTurn(ParticipantId::me()));
    let cond = Condition { effects: vec![], lifetimes: vec![lt] };
    tm.set_response(TriggerName::HasteLethargy, TriggerResponse::from(TriggerAction::GiveCondition(ConditionName::Prone, cond)));
    tm.register_pid(ParticipantId(3));
    let resp = tm.get_response(TriggerName::HasteLethargy).unwrap();
    match resp.action {
        TriggerAction::GiveCondition(_, c) => {
            assert_eq!(vec![ConditionLifetime::UntilTime(CombatTiming::EndTurn(ParticipantId(3)))], c.lifetimes)
        },
        _ => panic!("the response changed its kind"),
    }
}

#[test]
fn combat_logs_keep_their_history() {
    let mut log = CombatLog::new();
    assert_eq!(None, log.get_last_event());
    log.push(CombatEvent::Timing(CombatTiming::EncounterBegin));
    log.push(CombatEvent::AR(AttackResult::Hit));
    let mut child = log.into_child();
    assert!(child.has_parent());
    assert_eq!(0, child.get_local_events().len());
    assert_eq!(Some(CombatEvent::AR(AttackResult::Hit)), child.get_last_event());
    child.push(CombatEvent::Timing(CombatTiming::BeginRound(RoundId(1))));
    assert_eq!(
        vec![
            CombatEvent::Timing(CombatTiming::EncounterBegin),
            CombatEvent::AR(AttackResult::Hit),
            CombatEvent::Timing(CombatTiming::BeginRound(RoundId(1))),
        ],
        child.get_all_events()
    );
    assert_eq!(2, child.get_first_parent().unwrap().get_local_events().len());
}

#[test]
fn merged_logs_keep_the_left_history() {
    let mut a = CombatLog::new();
    a.push(CombatEvent::AR(AttackResult::Hit));
    a.push(CombatEvent::Timing(CombatTiming::EndRound(RoundId(1))));
    let mut b = CombatLog::new();
    b.push(CombatEvent::AR(AttackResult::Miss));
    b.push(CombatEvent::Timing(CombatTiming::EndRound(RoundId(1))));
    assert!(a.is_transposition(&b));
    let c = CombatLog::new();
    assert!(!a.is_transposition(&c));
    a.merge_left(b);
    assert_eq!(0, a.get_local_events().len());
    assert_eq!(
        vec![
            CombatEvent::AR(AttackResult::Hit),
            CombatEvent::Timing(CombatTiming::EndRound(RoundId(1))),
            CombatEvent::AR(AttackResult::Miss),
            CombatEvent::Timing(CombatTiming::EndRound(RoundId(1))),
        ],
        a.get_all_events()
    );
    assert_eq!(Some(CombatEvent::Timing(CombatTiming::EndRound(RoundId(1)))), a.get_last_event());
}

#[test]
fn combat_state_timing_ends_conditions() {
    let mut cm = ConditionManager::new();
    let end_turn = ConditionLifetime::UntilTime(CombatTiming::EndTurn(ParticipantId(0)));
    cm.add_condition(ConditionName::Invisible, Condition { effects: vec![], lifetimes: vec![end_turn] });
    let mut state = CombatState::new(vec![create_basic_rm(Feet(30)), create_basic_rm(Feet(25))], vec![ConditionManager::new(), cm]);
    assert_eq!(Health::Healthy, state.get_health(ParticipantId(1)));
    assert!(state.is_alive(ParticipantId(1)));
    state.set_health(ParticipantId(1), Health::Dead);
    assert!(state.is_dead(ParticipantId(1)));
    assert!(state.is_alive(ParticipantId(7)));
    state.push(CombatEvent::Timing(CombatTiming::EndTurn(ParticipantId(0))));
    assert_eq!(Some(CombatTiming::EndTurn(ParticipantId(0))), state.get_last_combat_timing());
    assert!(!state.get_cm(ParticipantId(1)).has_condition(&ConditionName::Invisible));
    assert_eq!(
        vec![
            CombatEvent::HP(ParticipantId(1), Health::Dead),
            CombatEvent::RemoveCond(ConditionName::Invisible, ParticipantId(1)),
            CombatEvent::Timing(CombatTiming::EndTurn(ParticipantId(0))),
        ],
        state.get_logs().get_all_events()
    );
    state.get_rm_mut(ParticipantId(0)).spend(ACTION);
    assert_eq!(ResourceCount::Count(0), state.get_rm(ParticipantId(0)).get_current(ACTION));
    let child = state.into_child();
    assert_eq!(Some(CombatEvent::Timing(CombatTiming::EndTurn(ParticipantId(0)))), child.get_last_event());
}

#[test]
fn strategies_decide_from_resources() {
    let teams = vec![Team::Players, Team::Enemies, Team::Enemies];
    let mut rms = vec![create_basic_rm(Feet(30)), create_basic_rm(Feet(30)), create_basic_rm(Feet(30))];
    rms[0].add_perm(ResourceName::AN(ActionName::ActionSurge), Resource::from(ResourceCap::Hard(1)));
    let mut state = CombatState::new(rms, vec![ConditionManager::new(), ConditionManager::new(), ConditionManager::new()]);
    state.set_health(ParticipantId(1), Health::Dead);
    assert_eq!(Some(Target::Participant(ParticipantId(2))), get_first_target(&teams, ParticipantId(0), &state));
    assert_eq!(Some(Target::Participant(ParticipantId(0))), get_first_target(&teams, ParticipantId(2), &state));

    let surge = ActionSurgeStrBuilder.build_strategy(ParticipantId(0));
    assert_eq!(StrategyDecision::from(ActionName::ActionSurge), surge.choose_action(&state));
    let no_surge = ActionSurgeStrBuilder.build_strategy(ParticipantId(2));
    assert_eq!(StrategyDecision::DoNothing, no_surge.choose_action(&state));

    let gwm = GWMStrBldr::new(true).build_strategy(teams.clone(), ParticipantId(0));
    assert_eq!(StrategyDecision::from(ActionName::AttackAction), gwm.choose_action(&state));
    state.get_rm_mut(ParticipantId(0)).spend(ACTION);
    state.get_rm_mut(ParticipantId(0)).gain(SINGLE, 1);
    assert_eq!(
        StrategyDecision::MyAction(StrategicAction {
            action_name: ActionName::PrimaryAttack(AttackType::GWMAttack),
            target: Some(Target::Participant(ParticipantId(2))),
        }),
        gwm.choose_action(&state)
    );

    let sw = SecondWindStrBuilder.build_strategy(ParticipantId(0));
    assert_eq!(StrategyDecision::DoNothing, sw.choose_action(&state));
    assert!(StrategyDecision::DoNothing.is_none());
    assert!(StrategyDecision::from(Some(StrategicAction::from(ActionName::Indomitable))).is_some());
}

#[test]
fn remove_conditions_spends_the_first_action_type() {
    let mut cm = ConditionManager::new();
    cm.add_basic_condition(ConditionName::Prone).unwrap();
    let state = CombatState::new(vec![create_basic_rm(Feet(30))], vec![cm]);
    let s = RemoveCondBuilder.build_strategy(ParticipantId(0));
    assert_eq!(StrategyDecision::RemoveCondition(ConditionName::Prone, ActionType::HalfMove), s.choose_action(&state));
}

#[test]
fn sneak_attack_is_kept_for_crits_when_greedy() {
    let mut rm = create_basic_rm(Feet(30));
    rm.add_perm(ResourceName::TN(TriggerName::SneakAttack), Resource::from(ResourceCap::Hard(1)));
    let state = CombatState::new(vec![rm], vec![ConditionManager::new()]);
    let resp = TriggerResponse::from(TriggerAction::IncreaseAC(1));
    let greedy = SneakAttackStrBuilder::new(true).build_strategy(ParticipantId(0), false, resp.clone());
    let hit = TriggerInfo::new(TriggerType::SuccessfulAttack, TriggerContext::AR(AttackResult::Hit));
    let crit = TriggerInfo::new(TriggerType::SuccessfulAttack, TriggerContext::AR(AttackResult::Crit));
    assert_eq!(0, greedy.choose_triggers(hit, &state).len());
    assert_eq!(1, greedy.choose_triggers(crit, &state).len());
    let eager = SneakAttackStrBuilder::new(false).build_strategy(ParticipantId(0), false, resp);
    assert_eq!(1, eager.choose_triggers(hit, &state).len());
    assert_eq!(0, eager.choose_triggers(TriggerInfo::from(TriggerType::WasHit), &state).len());
}

#[test]
fn linear_strategies_take_the_first_decision() {
    let teams = vec![Team::Players, Team::Enemies];
    let state = CombatState::new(
        vec![create_basic_rm(Feet(30)), create_basic_rm(Feet(30))],
        vec![ConditionManager::new(), ConditionManager::new()],
    );
    let desc = StrategyBuilderDescription::List(vec![
        StrategyBuilderName::ActionSurgeSB,
        StrategyBuilderName::SecondWindSB,
        StrategyBuilderName::BasicAtkSB,
    ]);
    let ls = desc.build_strategy(&teams, ParticipantId(0), false, &None).unwrap();
    assert_eq!(StrategyDecision::from(ActionName::AttackAction), ls.choose_action(&state));
    assert_eq!(0, ls.choose_triggers(TriggerInfo::from(TriggerType::OnKill), &state).len());
    assert!(StrategyBuilderDescription::Basic(StrategyBuilderName::HasteSB).build_strategy(&teams, ParticipantId(0), false, &None).is_none());
    assert!(StrategyBuilderName::SneakAttackSB(true).build_strategy(&teams, ParticipantId(0), false, &None).is_none());
    let empty = LinearStrategy::new(vec![NamedStrategy::DoNothing(dnd_stats::combat_core::strategy::basic_strategies::DoNothing)]);
    assert_eq!(StrategyDecision::DoNothing, empty.choose_action(&state));
}

#[test]
fn states_reached_two_ways_are_transpositions() {
    let fresh = || {
        let mut cm = ConditionManager::new();
        cm.add_basic_condition(ConditionName::Prone).unwrap();
        CombatState::new(vec![create_basic_rm(Feet(30)), create_basic_rm(Feet(25))], vec![cm, ConditionManager::new()])
    };
    let mut a = fresh();
    let mut b = fresh();
    // no timing yet: never a transposition
    assert!(!a.is_transposition(&b));
    a.push(CombatEvent::Timing(CombatTiming::EncounterBegin));
    b.push(CombatEvent::Timing(CombatTiming::EncounterBegin));
    assert!(a.is_transposition(&b));
    assert!(b.is_transposition(&a));

    // different health
    let mut c = fresh();
    c.set_health(ParticipantId(1), Health::Bloodied);
    c.push(CombatEvent::Timing(CombatTiming::EncounterBegin));
    assert!(!a.is_transposition(&c));

    // different resources
    let mut d = fresh();
    d.get_rm_mut(ParticipantId(0)).spend(ACTION);
    d.push(CombatEvent::Timing(CombatTiming::EncounterBegin));
    assert!(!a.is_transposition(&d));

    // different conditions
    let mut e = CombatState::new(
        vec![create_basic_rm(Feet(30)), create_basic_rm(Feet(25))],
        vec![ConditionManager::new(), ConditionManager::new()],
    );
    e.push(CombatEvent::Timing(CombatTiming::EncounterBegin));
    assert!(!a.is_transposition(&e));

    // a later timing
    b.push(CombatEvent::Timing(CombatTiming::BeginRound(RoundId(1))));
    assert!(!a.is_transposition(&b));
}

#[test]
fn dice_expressions_collect_dice_and_constants() {
    let d6 = ExtendedDamageDice::Basic(DamageDice::D6);
    let mut de = DiceExpression::from(DiceExprTerm::Dice(3, d6));
    assert_eq!(&vec![d6, d6, d6], de.get_dice());
    assert_eq!(0, de.get_const());
    de.add_term(DiceExprTerm::Const(4));
    de.add_term(DiceExprTerm::Const(-1));
    de.add_term(DiceExprTerm::Die(ExtendedDamageDice::WeaponDice));
    assert_eq!(3, de.get_const_term());
    assert_eq!(&vec![d6, d6, d6, ExtendedDamageDice::WeaponDice], de.get_dice());

    let parts = DiceExpression::from((vec![ExtendedDamageDice::SingleWeaponDie], 2));
    assert_eq!(2, parts.get_const());
    assert_eq!(1, parts.get_dice().len());
    let c = DiceExpression::from(DiceExprTerm::Const(5));
    assert_eq!(5, c.get_const());
    assert!(c.get_dice().is_empty());

    assert_eq!(Ok(DamageDice::D6), DiceExpression::get_die(&ExtendedDamageDice::SingleWeaponDie, Some(DamageDice::TwoD6)));
    assert_eq!(Ok(DamageDice::TwoD6), DiceExpression::get_die(&ExtendedDamageDice::WeaponDice, Some(DamageDice::TwoD6)));
    assert_eq!(Ok(DamageDice::D4), DiceExpression::get_die(&ExtendedDamageDice::Basic(DamageDice::D4), None));
    assert_eq!(Err(CCError::NoWeaponSet), DiceExpression::get_die(&ExtendedDamageDice::WeaponDice, None));
}

#[test]
fn merged_logs_hold_both_sides() {
    let mut a = CombatLog::new();
    a.push(CombatEvent::Timing(CombatTiming::EncounterBegin));
    let mut b = CombatLog::new();
    b.push(CombatEvent::AN(ActionName::AttackAction));
    a.merge_left(b);
    assert_eq!(
        vec![CombatEvent::Timing(CombatTiming::EncounterBegin), CombatEvent::AN(ActionName::AttackAction)],
        a.get_all_events()
    );
    assert!(a.get_local_events().is_empty());
    assert!(a.has_parent());
    assert_eq!(Some(CombatEvent::AN(ActionName::AttackAction)), a.get_last_event());

    // an empty log on either side changes nothing
    let mut c = CombatLog::new();
    c.push(CombatEvent::Timing(CombatTiming::EncounterEnd));
    let before = c.get_all_events();
    c.merge_left(CombatLog::new());
    assert_eq!(before, c.get_all_events());
    assert_eq!(Some(CombatEvent::Timing(CombatTiming::EncounterEnd)), c.get_last_event());
    let mut d = CombatLog::new();
    d.merge_left(c);
    assert_eq!(before, d.get_all_events());
    assert_eq!(Some(CombatEvent::Timing(CombatTiming::EncounterEnd)), d.get_last_event());
}
