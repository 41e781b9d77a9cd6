#![allow(unused_imports)]

use poke_engine::abilities::Abilities;
use poke_engine::checks::multiply_boost;
use poke_engine::choices::Choices;
use poke_engine::end_of_turn::{item_end_of_turn, on_weather_end};
use poke_engine::generate::{
    ability_on_switch_out, add_remove_status_instructions, apply_boost_instruction, chance_to_wake_up,
    get_boost_amount, immune_to_status,
};
use poke_engine::choices::MoveTarget;
use poke_engine::instruction::{
    BoostInstruction, ChangeSideConditionInstruction, ChangeStatusInstruction, HealInstruction, Instruction,
    RemoveVolatileStatusInstruction, StateInstructions,
};
use poke_engine::items::Items;
use poke_engine::options::{is_none_action, MoveChoice};
use poke_engine::state::{
    BattlePosition, PokemonBoostableStat, PokemonIndex, PokemonMoveIndex, PokemonSideCondition, PokemonStatus,
    PokemonType, PokemonVolatileStatus, SideReference, State, Terrain, Weather,
};

#[test]
fn boost_stages_scale_stats() {
    assert_eq!(multiply_boost(0, 100), 100);
    assert_eq!(multiply_boost(1, 100), 150);
    assert_eq!(multiply_boost(6, 100), 400);
    assert_eq!(multiply_boost(-1, 100), 66);
    assert_eq!(multiply_boost(-6, 100), 25);
}

#[test]
fn waking_up_grows_likelier_each_turn() {
    assert_eq!(chance_to_wake_up(0), (0, 1));
    assert_eq!(chance_to_wake_up(1), (1, 3));
    assert_eq!(chance_to_wake_up(2), (1, 2));
    assert_eq!(chance_to_wake_up(3), (1, 1));
}

#[test]
fn boosts_stop_at_six_stages() {
    let mut state = State::default();
    state.side_one.get_active().attack_boost = 5;
    assert_eq!(get_boost_amount(&state.side_one, 0, &PokemonBoostableStat::Attack, 2), 1);
    state.side_one.get_active().attack_boost = -5;
    assert_eq!(get_boost_amount(&state.side_one, 0, &PokemonBoostableStat::Attack, -2), -1);
    assert_eq!(get_boost_amount(&state.side_one, 0, &PokemonBoostableStat::Attack, 0), 0);
}

#[test]
fn defiant_answers_a_drop_from_the_foe() {
    let mut state = State::default();
    state.side_two.get_active().ability = Abilities::DEFIANT;
    let mut instructions = StateInstructions::default();
    let applied = apply_boost_instruction(
        &mut state.side_two,
        0,
        &PokemonBoostableStat::Attack,
        &-1,
        &SideReference::SideOne,
        &SideReference::SideTwo,
        &mut instructions,
    );
    assert!(applied);
    assert_eq!(
        instructions.instruction_list,
        vec![
            Instruction::Boost(BoostInstruction::new(SideReference::SideTwo, 0, PokemonBoostableStat::Attack, -1)),
            Instruction::Boost(BoostInstruction::new(SideReference::SideTwo, 0, PokemonBoostableStat::Attack, 2)),
        ]
    );
    assert_eq!(state.side_two.get_active().attack_boost, 1);
}

#[test]
fn status_immunities() {
    let mut state = State::default();
    assert!(!immune_to_status(&state, &MoveTarget::Opponent, &SideReference::SideTwo, &PokemonStatus::BURN));
    state.side_two.get_active().types.0 = PokemonType::FIRE;
    assert!(immune_to_status(&state, &MoveTarget::Opponent, &SideReference::SideTwo, &PokemonStatus::BURN));
    state.side_two.get_active().types.0 = PokemonType::ELECTRIC;
    assert!(immune_to_status(&state, &MoveTarget::Opponent, &SideReference::SideTwo, &PokemonStatus::PARALYZE));
    state.terrain.terrain_type = Terrain::MISTYTERRAIN;
    assert!(immune_to_status(&state, &MoveTarget::Opponent, &SideReference::SideTwo, &PokemonStatus::SLEEP));
}

#[test]
fn grounding_and_types() {
    let mut state = State::default();
    let p = state.side_one.get_active();
    assert!(p.is_grounded());
    p.types.1 = PokemonType::FLYING;
    assert!(p.has_type(&PokemonType::FLYING));
    assert!(!p.is_grounded());
    p.item = Items::IRONBALL;
    assert!(p.is_grounded());
}

#[test]
fn weather_is_suppressed_by_cloud_nine() {
    let mut state = State::default();
    state.weather.weather_type = Weather::RAIN;
    assert!(state.weather_is_active(&Weather::RAIN));
    state.side_two.get_active().ability = Abilities::CLOUDNINE;
    assert!(!state.weather_is_active(&Weather::RAIN));
}

#[test]
fn switches_list_living_benched_pokemon() {
    let mut state = State::default();
    state.side_one.pokemon.get_mut(PokemonIndex::P3).hp = 0;
    let mut options: Vec<MoveChoice> = vec![];
    state.side_one.add_switches(&mut options);
    assert_eq!(
        options,
        vec![
            MoveChoice::Switch(PokemonIndex::P1),
            MoveChoice::Switch(PokemonIndex::P2),
            MoveChoice::Switch(PokemonIndex::P4),
            MoveChoice::Switch(PokemonIndex::P5),
        ]
    );
    assert_eq!(state.side_one.num_fainted_pkmn(), 1);
}

#[test]
fn a_side_with_no_one_to_switch_to_does_nothing() {
    let mut state = State::default();
    for i in [PokemonIndex::P1, PokemonIndex::P2, PokemonIndex::P3, PokemonIndex::P4, PokemonIndex::P5] {
        state.side_one.pokemon.get_mut(i).hp = 0;
    }
    let mut options: Vec<MoveChoice> = vec![];
    state.side_one.add_switches(&mut options);
    assert_eq!(options, vec![MoveChoice::Nothing]);
    assert!(is_none_action(&options[0]));
}

#[test]
fn shadow_tag_traps_but_a_ghost_escapes() {
    let mut state = State::default();
    let mut foe = *state.side_two.get_active();
    foe.ability = Abilities::SHADOWTAG;
    assert!(state.side_one.trapped(&foe));
    state.side_one.get_active().types.1 = PokemonType::GHOST;
    assert!(!state.side_one.trapped(&foe));
}

#[test]
fn every_move_and_switch_is_an_option_at_first() {
    let state = State::default();
    let (s1, s2) = state.get_all_options();
    assert_eq!(s1.len(), 9);
    assert_eq!(s2.len(), 9);
    assert_eq!(
        s1[0],
        MoveChoice::Move { move_index: PokemonMoveIndex::M0, target: BattlePosition::new(SideReference::SideTwo, 0) }
    );
    assert_eq!(s1[4], MoveChoice::Switch(PokemonIndex::P1));
}

#[test]
fn a_forced_switch_leaves_the_foe_waiting() {
    let mut state = State::default();
    state.side_one.force_switch = true;
    let (s1, s2) = state.get_all_options();
    assert_eq!(s1.len(), 5);
    assert!(s1.iter().all(|c| matches!(c, MoveChoice::Switch(_))));
    assert_eq!(s2, vec![MoveChoice::Nothing]);
}

#[test]
fn recharging_and_charging_limit_the_options() {
    let mut state = State::default();
    state.side_one.get_active().volatile_statuses.insert(PokemonVolatileStatus::MUSTRECHARGE);
    state.side_two.get_active().volatile_statuses.insert(PokemonVolatileStatus::FLY);
    state.side_two.get_active().moves.m2.id = Choices::FLY;
    let (s1, s2) = state.get_all_options();
    assert_eq!(s1, vec![MoveChoice::Nothing]);
    assert_eq!(
        s2,
        vec![MoveChoice::Move { move_index: PokemonMoveIndex::M2, target: BattlePosition::new(SideReference::SideOne, 0) }]
    );
}

#[test]
fn team_preview_offers_every_living_pokemon() {
    let mut state = State::default();
    state.team_preview = true;
    state.side_two.pokemon.get_mut(PokemonIndex::P5).hp = 0;
    let (s1, s2) = state.root_get_all_options();
    assert_eq!(s1.len(), 6);
    assert_eq!(s2.len(), 5);
    assert_eq!(s1[0], MoveChoice::Switch(PokemonIndex::P0));
}

#[test]
fn a_trapped_side_cannot_switch_at_the_root() {
    let mut state = State::default();
    state.side_one.force_trapped = true;
    let (s1, _) = state.root_get_all_options();
    assert_eq!(s1.len(), 4);
    assert!(s1.iter().all(|c| !matches!(c, MoveChoice::Switch(_))));
}

#[test]
fn last_used_move_tracking_follows_the_moves_known() {
    let mut state = State::default();
    state.set_conditional_mechanics();
    assert!(!state.use_last_used_move);
    state.side_two.pokemon.get_mut(PokemonIndex::P3).moves.m1.id = Choices::FAKEOUT;
    state.set_conditional_mechanics();
    assert!(state.use_last_used_move);
    assert!(!state.use_damage_dealt);
}

#[test]
fn team_preview_lists_living_pokemon_in_party_order() {
    let mut state = State::default();
    state.team_preview = true;
    state.side_one.pokemon.get_mut(PokemonIndex::P1).hp = 0;
    state.side_one.pokemon.get_mut(PokemonIndex::P4).hp = 0;
    let (s1, _) = state.root_get_all_options();
    assert_eq!(
        s1,
        vec![
            MoveChoice::Switch(PokemonIndex::P0),
            MoveChoice::Switch(PokemonIndex::P2),
            MoveChoice::Switch(PokemonIndex::P3),
            MoveChoice::Switch(PokemonIndex::P5),
        ]
    );
}

#[test]
fn damage_dealt_tracking_follows_the_moves_known() {
    let mut state = State::default();
    state.use_damage_dealt = false;
    state.set_damage_dealt_flag();
    assert!(!state.use_damage_dealt);
    state.side_one.pokemon.get_mut(PokemonIndex::P2).moves.m3.id = Choices::COUNTER;
    state.set_damage_dealt_flag();
    assert!(state.use_damage_dealt);
}

#[test]
fn lowered_boosts_are_reset_in_stat_order() {
    let mut state = State::default();
    state.side_one.get_active().speed_boost = -2;
    state.side_one.get_active().attack_boost = -1;
    state.side_one.get_active().defense_boost = 3;
    let mut instructions = StateInstructions::default();
    let changed = state.side_one.reset_negative_boosts(SideReference::SideOne, &mut instructions);
    assert!(changed);
    assert_eq!(
        instructions.instruction_list,
        vec![
            Instruction::Boost(BoostInstruction::new(SideReference::SideOne, 0, PokemonBoostableStat::Attack, 1)),
            Instruction::Boost(BoostInstruction::new(SideReference::SideOne, 0, PokemonBoostableStat::Speed, 2)),
        ]
    );
    assert_eq!(state.side_one.get_active().attack_boost, 0);
    assert_eq!(state.side_one.get_active().speed_boost, 0);
    assert_eq!(state.side_one.get_active().defense_boost, 3);
    let mut again = StateInstructions::default();
    assert!(!state.side_one.reset_negative_boosts(SideReference::SideOne, &mut again));
    assert!(again.instruction_list.is_empty());
}

#[test]
fn contrary_turns_a_boost_round() {
    let mut state = State::default();
    state.side_one.get_active().ability = Abilities::CONTRARY;
    let mut instructions = StateInstructions::default();
    let applied = apply_boost_instruction(
        &mut state.side_one,
        0,
        &PokemonBoostableStat::Attack,
        &2,
        &SideReference::SideOne,
        &SideReference::SideOne,
        &mut instructions,
    );
    assert!(applied);
    assert_eq!(
        instructions.instruction_list,
        vec![Instruction::Boost(BoostInstruction::new(SideReference::SideOne, 0, PokemonBoostableStat::Attack, -2))]
    );
    assert_eq!(state.side_one.get_active().attack_boost, -2);
}

#[test]
fn a_zero_boost_is_not_applied() {
    let mut state = State::default();
    let mut instructions = StateInstructions::default();
    let applied = apply_boost_instruction(
        &mut state.side_one,
        0,
        &PokemonBoostableStat::Speed,
        &0,
        &SideReference::SideTwo,
        &SideReference::SideOne,
        &mut instructions,
    );
    assert!(!applied);
    assert!(instructions.instruction_list.is_empty());
}

#[test]
fn baton_pass_keeps_substitute_and_leech_seed_only() {
    let mut state = State::default();
    let active = state.side_one.get_active();
    active.volatile_statuses.insert(PokemonVolatileStatus::SUBSTITUTE);
    active.volatile_statuses.insert(PokemonVolatileStatus::LEECHSEED);
    active.volatile_statuses.insert(PokemonVolatileStatus::CONFUSION);
    let mut instructions: Vec<Instruction> = vec![];
    state.remove_volatile_statuses_on_switch(&SideReference::SideOne, &mut instructions, true, false);
    assert_eq!(
        instructions,
        vec![Instruction::RemoveVolatileStatus(RemoveVolatileStatusInstruction::new(
            SideReference::SideOne,
            0,
            PokemonVolatileStatus::CONFUSION
        ))]
    );
    let after = &state.side_one.get_active().volatile_statuses;
    assert!(after.contains(&PokemonVolatileStatus::SUBSTITUTE));
    assert!(after.contains(&PokemonVolatileStatus::LEECHSEED));
    assert!(!after.contains(&PokemonVolatileStatus::CONFUSION));
}

#[test]
fn regenerator_heals_a_third_on_the_way_out() {
    let mut state = State::default();
    state.side_one.get_active().ability = Abilities::REGENERATOR;
    state.side_one.get_active().hp = 50;
    let mut instructions = StateInstructions::default();
    ability_on_switch_out(&mut state, &SideReference::SideOne, &mut instructions);
    assert_eq!(
        instructions.instruction_list,
        vec![Instruction::Heal(HealInstruction::new(SideReference::SideOne, 0, 33))]
    );
    assert_eq!(state.side_one.get_active().hp, 83);
}

#[test]
fn curing_bad_poison_resets_the_toxic_count() {
    let mut state = State::default();
    state.side_one.get_active().status = PokemonStatus::TOXIC;
    state.side_one.side_conditions.toxic_count = 3;
    let mut instructions = StateInstructions::default();
    add_remove_status_instructions(&mut instructions, PokemonIndex::P0, SideReference::SideOne, &mut state.side_one);
    assert_eq!(
        instructions.instruction_list,
        vec![
            Instruction::ChangeStatus(ChangeStatusInstruction {
                side_ref: SideReference::SideOne,
                pokemon_index: PokemonIndex::P0,
                old_status: PokemonStatus::TOXIC,
                new_status: PokemonStatus::NONE,
            }),
            Instruction::ChangeSideCondition(ChangeSideConditionInstruction {
                side_ref: SideReference::SideOne,
                side_condition: PokemonSideCondition::ToxicCount,
                amount: -3,
            }),
        ]
    );
    assert_eq!(state.side_one.side_conditions.toxic_count, 0);
    assert_eq!(state.side_one.get_active().status, PokemonStatus::NONE);
}

#[test]
fn leftovers_heal_a_sixteenth() {
    let mut state = State::default();
    state.side_two.get_active().item = Items::LEFTOVERS;
    state.side_two.get_active().hp = 50;
    let mut instructions = StateInstructions::default();
    item_end_of_turn(&mut state, &SideReference::SideTwo, &mut instructions);
    assert_eq!(
        instructions.instruction_list,
        vec![Instruction::Heal(HealInstruction::new(SideReference::SideTwo, 0, 6))]
    );
    assert_eq!(state.side_two.get_active().hp, 56);
}

#[test]
fn the_sun_ending_ends_a_protosynthesis_boost() {
    let mut state = State::default();
    state.weather.weather_type = Weather::SUN;
    state.side_two.get_active().ability = Abilities::PROTOSYNTHESIS;
    state.side_two.get_active().volatile_statuses.insert(PokemonVolatileStatus::PROTOSYNTHESISSPE);
    let mut instructions = StateInstructions::default();
    on_weather_end(&mut state, SideReference::SideOne, &mut instructions);
    assert_eq!(
        instructions.instruction_list,
        vec![Instruction::RemoveVolatileStatus(RemoveVolatileStatusInstruction::new(
            SideReference::SideTwo,
            0,
            PokemonVolatileStatus::PROTOSYNTHESISSPE
        ))]
    );
    assert!(!state.side_two.get_active().volatile_statuses.contains(&PokemonVolatileStatus::PROTOSYNTHESISSPE));
}

#[test]
fn a_side_finishing_a_slow_uturn_gets_only_its_moves() {
    let mut state = State::default();
    state.side_one.slow_uturn_move = true;
    let (s1, s2) = state.root_get_all_options();
    assert_eq!(s1.len(), 4);
    assert!(s1.iter().all(|c| matches!(c, MoveChoice::Move { .. })));
    assert!(s2.iter().any(|c| matches!(c, MoveChoice::Switch(_))));
}

#[test]
fn resetting_the_toxic_count_clears_and_records_it() {
    let mut state = State::default();
    state.side_one.side_conditions.toxic_count = 3;
    let before = state.clone();
    let mut list = vec![];
    state.reset_toxic_count(&SideReference::SideOne, &mut list);
    assert_eq!(state.side_one.side_conditions.toxic_count, 0);
    assert_eq!(
        list,
        vec![Instruction::ChangeSideCondition(ChangeSideConditionInstruction {
            side_ref: SideReference::SideOne,
            side_condition: PokemonSideCondition::ToxicCount,
            amount: -3,
        })]
    );
    let mut again = before.clone();
    again.side_one.side_conditions.toxic_count = 0;
    assert_eq!(state, again);
    let mut untouched = State::default();
    let mut none = vec![];
    untouched.reset_toxic_count(&SideReference::SideTwo, &mut none);
    assert!(none.is_empty());
    assert_eq!(untouched, State::default());
}
