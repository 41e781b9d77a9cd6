#![allow(unused_imports, unused_mut, unused_variables)]

use poke_engine::abilities::Abilities;
use poke_engine::choices::{Choice, Choices, MoveCategory};
use poke_engine::instruction::{
    ApplyVolatileStatusInstruction, BoostInstruction, ChangeItemInstruction,
    ChangeSideConditionInstruction, ChangeStatusInstruction, DamageInstruction,
    DecrementFutureSightInstruction, DecrementRestTurnsInstruction, DecrementWishInstruction,
    EnableMoveInstruction, HealInstruction, Instruction, RemoveVolatileStatusInstruction,
    SetSleepTurnsInstruction, StateInstructions, SwitchInstruction,
};
use poke_engine::items::Items;
use poke_engine::state::{
    Move, PokemonBoostableStat, PokemonIndex, PokemonMoveIndex, PokemonSideCondition,
    PokemonStatus, PokemonType, PokemonVolatileStatus, SideMovesFirst, SideReference, State,
    Weather, MAX_SLEEP_TURNS,
};
use poke_engine::turn::generate_instructions_from_existing_status_conditions;

const HIT_SELF_IN_CONFUSION_CHANCE: f32 = 1.0 / 3.0;

/// An expected branch: its chance in percent and its instructions.
#[derive(Debug)]
struct Expected {
    percentage: f32,
    instruction_list: Vec<Instruction>,
}

fn branch(percentage: f32, instruction_list: Vec<Instruction>) -> Expected {
    Expected { percentage, instruction_list }
}

fn percent(actual: &StateInstructions) -> f64 {
    actual.percentage.numerator as f64 / actual.percentage.denominator as f64
}

fn check(expected: &Expected, actual: &StateInstructions) {
    assert_eq!(expected.instruction_list, actual.instruction_list);
    assert!((percent(actual) - expected.percentage as f64).abs() < 1e-3,
        "chance {} where {} was expected", percent(actual), expected.percentage);
}

#[allow(dead_code)]
fn check_all(expected: &Vec<Expected>, actual: &Vec<StateInstructions>) {
    assert_eq!(expected.len(), actual.len());
    for (e, a) in expected.iter().zip(actual.iter()) {
        check(e, a);
    }
}

#[test]
fn test_healthy_pokemon_with_no_prior_instructions() {
    let mut state = State::default();
    let mut incoming_instructions = StateInstructions::default();

    let expected_instructions = branch(100.0, vec![]);

    generate_instructions_from_existing_status_conditions(
        &mut state,
        &SideReference::SideOne,
        &Choice::default(),
        &mut incoming_instructions,
        &mut vec![],
    );

    check(&expected_instructions, &incoming_instructions);
}

#[test]
fn test_rest_turns_at_3_with_no_prior_instructions() {
    let mut state = State::default();
    state.side_one.get_active().status = PokemonStatus::SLEEP;
    state.side_one.get_active().rest_turns = 3;
    let mut incoming_instructions = StateInstructions::default();

    let expected_instructions = branch(100.0, vec![Instruction::DecrementRestTurns(
            DecrementRestTurnsInstruction {
                side_ref: SideReference::SideOne,
            },
        )]);

    let expected_frozen_instructions: &mut Vec<Expected> = &mut vec![];

    let frozen_instructions = &mut vec![];
    generate_instructions_from_existing_status_conditions(
        &mut state,
        &SideReference::SideOne,
        &Choice::default(),
        &mut incoming_instructions,
        frozen_instructions,
    );

    check(&expected_instructions, &incoming_instructions);
    check_all(expected_frozen_instructions, frozen_instructions);
}

#[test]
fn test_rest_turns_at_2_with_no_prior_instructions() {
    let mut state = State::default();
    state.side_one.get_active().status = PokemonStatus::SLEEP;
    state.side_one.get_active().rest_turns = 2;
    let mut incoming_instructions = StateInstructions::default();

    let expected_instructions = branch(100.0, vec![Instruction::DecrementRestTurns(
            DecrementRestTurnsInstruction {
                side_ref: SideReference::SideOne,
            },
        )]);

    let expected_frozen_instructions: &mut Vec<Expected> = &mut vec![];

    let frozen_instructions = &mut vec![];

    generate_instructions_from_existing_status_conditions(
        &mut state,
        &SideReference::SideOne,
        &Choice::default(),
        &mut incoming_instructions,
        frozen_instructions,
    );

    check(&expected_instructions, &incoming_instructions);
    check_all(expected_frozen_instructions, frozen_instructions);
}

#[test]
fn test_paralyzed_pokemon_with_no_prior_instructions() {
    let mut state = State::default();
    state.side_one.get_active().status = PokemonStatus::PARALYZE;
    let mut incoming_instructions = StateInstructions::default();

    let expected_instructions = branch(75.0, vec![]);

    let expected_frozen_instructions = &mut vec![branch(25.0, vec![])];

    let frozen_instructions = &mut vec![];

    generate_instructions_from_existing_status_conditions(
        &mut state,
        &SideReference::SideOne,
        &Choice::default(),
        &mut incoming_instructions,
        frozen_instructions,
    );

    check(&expected_instructions, &incoming_instructions);
    check_all(expected_frozen_instructions, frozen_instructions);
}

#[test]
fn test_confused_pokemon_with_no_prior_instructions() {
    let mut state = State::default();
    state
        .side_one
        .get_active().volatile_statuses
        .insert(PokemonVolatileStatus::CONFUSION);
    let mut incoming_instructions = StateInstructions::default();

    let expected_instructions = branch(100.0 * (1.0 - HIT_SELF_IN_CONFUSION_CHANCE), vec![]);

    let expected_frozen_instructions = &mut vec![branch(100.0 * (HIT_SELF_IN_CONFUSION_CHANCE), vec![Instruction::Damage(DamageInstruction::new(
            SideReference::SideOne,
            0,
            35,
        ))])];

    let frozen_instructions = &mut vec![];

    generate_instructions_from_existing_status_conditions(
        &mut state,
        &SideReference::SideOne,
        &Choice::default(),
        &mut incoming_instructions,
        frozen_instructions,
    );

    check(&expected_instructions, &incoming_instructions);
    check_all(expected_frozen_instructions, frozen_instructions);
}

#[test]
fn test_confused_pokemon_with_prior_instruction() {
    let mut state = State::default();
    state
        .side_one
        .get_active().volatile_statuses
        .insert(PokemonVolatileStatus::CONFUSION);
    let mut incoming_instructions = StateInstructions::default();
    incoming_instructions.instruction_list = vec![Instruction::Damage(DamageInstruction::new(
        SideReference::SideOne,
        0,
        1,
    ))];

    let expected_instructions = branch(100.0 * (1.0 - HIT_SELF_IN_CONFUSION_CHANCE), vec![Instruction::Damage(DamageInstruction::new(
            SideReference::SideOne,
            0,
            1,
        ))]);

    let expected_frozen_instructions = &mut vec![branch(100.0 * HIT_SELF_IN_CONFUSION_CHANCE, vec![
            Instruction::Damage(DamageInstruction::new(
                SideReference::SideOne,
                0,
                1,
            )),
            Instruction::Damage(DamageInstruction::new(
                SideReference::SideOne,
                0,
                35,
            )),
        ])];

    let frozen_instructions = &mut vec![];

    generate_instructions_from_existing_status_conditions(
        &mut state,
        &SideReference::SideOne,
        &Choice::default(),
        &mut incoming_instructions,
        frozen_instructions,
    );

    check(&expected_instructions, &incoming_instructions);
    check_all(expected_frozen_instructions, frozen_instructions);
}

#[test]
fn test_confused_pokemon_with_prior_instruction_does_not_overkill() {
    let mut state = State::default();
    state
        .side_one
        .get_active().volatile_statuses
        .insert(PokemonVolatileStatus::CONFUSION);
    let mut incoming_instructions = StateInstructions::default();
    state.side_one.get_active().hp = 2;
    incoming_instructions.instruction_list = vec![Instruction::Damage(DamageInstruction::new(
        SideReference::SideOne,
        0,
        1,
    ))];

    let expected_instructions = branch(100.0 * (1.0 - HIT_SELF_IN_CONFUSION_CHANCE), vec![Instruction::Damage(DamageInstruction::new(
            SideReference::SideOne,
            0,
            1,
        ))]);

    let expected_frozen_instructions = &mut vec![branch(100.0 * HIT_SELF_IN_CONFUSION_CHANCE, vec![
            Instruction::Damage(DamageInstruction::new(
                SideReference::SideOne,
                0,
                1,
            )),
            Instruction::Damage(DamageInstruction::new(
                SideReference::SideOne,
                0,
                2,
            )),
        ])];

    let frozen_instructions = &mut vec![];

    generate_instructions_from_existing_status_conditions(
        &mut state,
        &SideReference::SideOne,
        &Choice::default(),
        &mut incoming_instructions,
        frozen_instructions,
    );

    check(&expected_instructions, &incoming_instructions);
    check_all(expected_frozen_instructions, frozen_instructions);
}

#[test]
fn test_frozen_pokemon_with_no_prior_instructions() {
    let mut state = State::default();
    state.side_one.get_active().status = PokemonStatus::FREEZE;
    let mut incoming_instructions = StateInstructions::default();

    let expected_instructions = branch(20.0, vec![Instruction::ChangeStatus(ChangeStatusInstruction {
            side_ref: SideReference::SideOne,
            pokemon_index: state.side_one.active_index,
            old_status: PokemonStatus::FREEZE,
            new_status: PokemonStatus::NONE,
        })]);

    let expected_frozen_instructions = &mut vec![branch(80.0, vec![])];

    let frozen_instructions = &mut vec![];

    generate_instructions_from_existing_status_conditions(
        &mut state,
        &SideReference::SideOne,
        &Choice::default(),
        &mut incoming_instructions,
        frozen_instructions,
    );

    check(&expected_instructions, &incoming_instructions);
    check_all(expected_frozen_instructions, frozen_instructions);
}

#[test]
fn test_asleep_pokemon_with_no_prior_instructions() {
    let mut state = State::default();
    state.side_one.get_active().status = PokemonStatus::SLEEP;
    state.side_one.get_active().sleep_turns = MAX_SLEEP_TURNS;
    let mut incoming_instructions = StateInstructions::default();

    let expected_instructions = branch(100.0, vec![
            Instruction::ChangeStatus(ChangeStatusInstruction {
                side_ref: SideReference::SideOne,
                pokemon_index: state.side_one.active_index,
                old_status: PokemonStatus::SLEEP,
                new_status: PokemonStatus::NONE,
            }),
            Instruction::SetSleepTurns(SetSleepTurnsInstruction {
                side_ref: SideReference::SideOne,
                pokemon_index: PokemonIndex::P0,
                new_turns: 0,
                previous_turns: MAX_SLEEP_TURNS,
            }),
        ]);

    let expected_frozen_instructions: &mut Vec<Expected> = &mut vec![];

    let frozen_instructions = &mut vec![];

    generate_instructions_from_existing_status_conditions(
        &mut state,
        &SideReference::SideOne,
        &Choice::default(),
        &mut incoming_instructions,
        frozen_instructions,
    );

    check(&expected_instructions, &incoming_instructions);
    check_all(expected_frozen_instructions, frozen_instructions);
}

#[test]
fn test_asleep_waking_up_and_confused() {
    let mut state = State::default();
    state.side_one.get_active().status = PokemonStatus::SLEEP;
    state.side_one.get_active().sleep_turns = MAX_SLEEP_TURNS;
    state
        .side_one
        .get_active().volatile_statuses
        .insert(PokemonVolatileStatus::CONFUSION);
    let mut incoming_instructions = StateInstructions::default();

    let expected_instructions = branch(100.0 * (1.0 - HIT_SELF_IN_CONFUSION_CHANCE), vec![
            Instruction::ChangeStatus(ChangeStatusInstruction {
                side_ref: SideReference::SideOne,
                pokemon_index: state.side_one.active_index,
                old_status: PokemonStatus::SLEEP,
                new_status: PokemonStatus::NONE,
            }),
            Instruction::SetSleepTurns(SetSleepTurnsInstruction {
                side_ref: SideReference::SideOne,
                pokemon_index: PokemonIndex::P0,
                new_turns: 0,
                previous_turns: MAX_SLEEP_TURNS,
            }),
        ]);

    let expected_frozen_instructions = &mut vec![branch(100.0 * HIT_SELF_IN_CONFUSION_CHANCE, vec![
            Instruction::ChangeStatus(ChangeStatusInstruction {
                side_ref: SideReference::SideOne,
                pokemon_index: state.side_one.active_index,
                old_status: PokemonStatus::SLEEP,
                new_status: PokemonStatus::NONE,
            }),
            Instruction::SetSleepTurns(SetSleepTurnsInstruction {
                side_ref: SideReference::SideOne,
                pokemon_index: PokemonIndex::P0,
                new_turns: 0,
                previous_turns: MAX_SLEEP_TURNS,
            }),
            Instruction::Damage(DamageInstruction::new(
                SideReference::SideOne,
                0,
                35,
            )),
        ])];

    let frozen_instructions = &mut vec![];

    generate_instructions_from_existing_status_conditions(
        &mut state,
        &SideReference::SideOne,
        &Choice::default(),
        &mut incoming_instructions,
        frozen_instructions,
    );

    check(&expected_instructions, &incoming_instructions);
    check_all(expected_frozen_instructions, frozen_instructions);
}

#[test]
fn test_asleep_pokemon_waking_up_with_1_rest_turn() {
    let mut state = State::default();
    state.side_one.get_active().status = PokemonStatus::SLEEP;
    state.side_one.get_active().rest_turns = 1;
    let mut incoming_instructions = StateInstructions::default();

    let expected_instructions = branch(100.0, vec![
            Instruction::ChangeStatus(ChangeStatusInstruction {
                side_ref: SideReference::SideOne,
                pokemon_index: state.side_one.active_index,
                old_status: PokemonStatus::SLEEP,
                new_status: PokemonStatus::NONE,
            }),
            Instruction::DecrementRestTurns(DecrementRestTurnsInstruction {
                side_ref: SideReference::SideOne,
            }),
        ]);

    let expected_frozen_instructions: &mut Vec<Expected> = &mut vec![];
    let frozen_instructions = &mut vec![];

    generate_instructions_from_existing_status_conditions(
        &mut state,
        &SideReference::SideOne,
        &Choice::default(),
        &mut incoming_instructions,
        frozen_instructions,
    );

    check(&expected_instructions, &incoming_instructions);
    check_all(expected_frozen_instructions, frozen_instructions);
}

#[test]
fn test_asleep_pokemon_staying_asleep_with_two_rest_turns() {
    let mut state = State::default();
    state.side_one.get_active().status = PokemonStatus::SLEEP;
    state.side_one.get_active().rest_turns = 1;
    let mut incoming_instructions = StateInstructions::default();

    let expected_instructions = branch(100.0, vec![
            Instruction::ChangeStatus(ChangeStatusInstruction {
                side_ref: SideReference::SideOne,
                pokemon_index: state.side_one.active_index,
                old_status: PokemonStatus::SLEEP,
                new_status: PokemonStatus::NONE,
            }),
            Instruction::DecrementRestTurns(DecrementRestTurnsInstruction {
                side_ref: SideReference::SideOne,
            }),
        ]);

    let expected_frozen_instructions: &mut Vec<Expected> = &mut vec![];
    let frozen_instructions = &mut vec![];

    generate_instructions_from_existing_status_conditions(
        &mut state,
        &SideReference::SideOne,
        &Choice::default(),
        &mut incoming_instructions,
        frozen_instructions,
    );

    check(&expected_instructions, &incoming_instructions);
    check_all(expected_frozen_instructions, frozen_instructions);
}

#[test]
fn test_paralyzed_pokemon_preserves_prior_instructions() {
    let mut state = State::default();
    state.side_one.get_active().status = PokemonStatus::PARALYZE;
    let mut incoming_instructions = StateInstructions::default();
    incoming_instructions.instruction_list = vec![Instruction::Damage(DamageInstruction::new(
        SideReference::SideOne,
        0,
        1,
    ))];

    let expected_instructions = branch(75.0, vec![Instruction::Damage(DamageInstruction::new(
            SideReference::SideOne,
            0,
            1,
        ))]);

    let expected_frozen_instructions = &mut vec![branch(25.0, vec![Instruction::Damage(DamageInstruction::new(
            SideReference::SideOne,
            0,
            1,
        ))])];

    let frozen_instructions = &mut vec![];

    generate_instructions_from_existing_status_conditions(
        &mut state,
        &SideReference::SideOne,
        &Choice::default(),
        &mut incoming_instructions,
        frozen_instructions,
    );

    check(&expected_instructions, &incoming_instructions);
    check_all(expected_frozen_instructions, frozen_instructions);
}

#[test]
fn confusion_with_no_defense_takes_every_hit_point() {
    let mut state = State::default();
    state
        .side_one
        .get_active().volatile_statuses
        .insert(PokemonVolatileStatus::CONFUSION);
    state.side_one.get_active().defense = 0;
    let mut incoming_instructions = StateInstructions::default();
    let final_instructions = &mut vec![];

    generate_instructions_from_existing_status_conditions(
        &mut state,
        &SideReference::SideOne,
        &Choice::default(),
        &mut incoming_instructions,
        final_instructions,
    );

    let hp = state.side_one.get_active().hp;
    check(&branch(100.0 * (1.0 - HIT_SELF_IN_CONFUSION_CHANCE), vec![]), &incoming_instructions);
    check_all(
        &vec![branch(
            100.0 * HIT_SELF_IN_CONFUSION_CHANCE,
            vec![Instruction::Damage(DamageInstruction::new(SideReference::SideOne, 0, hp))],
        )],
        final_instructions,
    );
}

#[test]
fn paralysis_splits_the_chance_without_losing_any() {
    let mut state = State::default();
    state.side_one.get_active().status = PokemonStatus::PARALYZE;
    let mut incoming_instructions = StateInstructions::default();
    let final_instructions: &mut Vec<StateInstructions> = &mut vec![];

    generate_instructions_from_existing_status_conditions(
        &mut state,
        &SideReference::SideOne,
        &Choice::default(),
        &mut incoming_instructions,
        final_instructions,
    );

    let total = percent(&incoming_instructions) + percent(&final_instructions[0]);
    assert!((total - 100.0).abs() < 1e-9);
    assert_eq!(incoming_instructions.percentage.numerator, 300);
    assert_eq!(incoming_instructions.percentage.denominator, 4);
}
