#![allow(unused_imports, unused_mut, unused_variables)]

use poke_engine::abilities::Abilities;
use poke_engine::choices::{Choice, Choices, MoveCategory};
use poke_engine::instruction::{
    ApplyVolatileStatusInstruction, BoostInstruction, ChangeItemInstruction,
    ChangeSideConditionInstruction, ChangeStatusInstruction, DamageInstruction,
    DecrementFutureSightInstruction, DecrementRestTurnsInstruction, DecrementWishInstruction,
    EnableMoveInstruction, HealInstruction, Instruction, RemoveVolatileStatusInstruction,
    SetSleepTurnsInstruction, StateInstructions, SwitchInstruction,
};
use poke_engine::items::Items;
use poke_engine::state::{
    Move, PokemonBoostableStat, PokemonIndex, PokemonMoveIndex, PokemonSideCondition,
    PokemonStatus, PokemonType, PokemonVolatileStatus, SideMovesFirst, SideReference, State,
    Weather, MAX_SLEEP_TURNS,
};
use poke_engine::order::{get_effective_speed, moves_first};

/// The data of the moves these tests use.
fn move_choice(id: Choices) -> Choice {
    let mut c = Choice { move_id: id, ..Default::default() };
    match id {
        Choices::TACKLE => { c.category = MoveCategory::Physical; c.base_power = 40; }
        Choices::QUICKATTACK => { c.category = MoveCategory::Physical; c.base_power = 40; c.priority = 1; }
        Choices::PURSUIT => { c.category = MoveCategory::Physical; c.base_power = 40; c.move_type = PokemonType::DARK; }
        _ => { c.category = MoveCategory::Status; }
    }
    c
}

/// An expected branch: its chance in percent and its instructions.
#[derive(Debug)]
struct Expected {
    percentage: f32,
    instruction_list: Vec<Instruction>,
}

fn branch(percentage: f32, instruction_list: Vec<Instruction>) -> Expected {
    Expected { percentage, instruction_list }
}

fn percent(actual: &StateInstructions) -> f64 {
    actual.percentage.numerator as f64 / actual.percentage.denominator as f64
}

fn check(expected: &Expected, actual: &StateInstructions) {
    assert_eq!(expected.instruction_list, actual.instruction_list);
    assert!((percent(actual) - expected.percentage as f64).abs() < 1e-3,
        "chance {} where {} was expected", percent(actual), expected.percentage);
}

#[allow(dead_code)]
fn check_all(expected: &Vec<Expected>, actual: &Vec<StateInstructions>) {
    assert_eq!(expected.len(), actual.len());
    for (e, a) in expected.iter().zip(actual.iter()) {
        check(e, a);
    }
}

#[test]
fn test_basic_side_two_moves_first() {
    let mut state = State::default();
    let side_one_choice = move_choice(Choices::TACKLE);
    let side_two_choice = move_choice(Choices::TACKLE);
    state.side_one.get_active().speed = 100;
    state.side_two.get_active().speed = 101;

    assert_eq!(
        SideMovesFirst::SideTwo,
        moves_first(
            &state,
            &side_one_choice,
            &side_two_choice,
            &mut StateInstructions::default()
        )
    )
}

#[test]
fn test_custap_berry_when_less_than_25_percent_activates() {
    let mut state = State::default();
    let side_one_choice = move_choice(Choices::TACKLE);
    let side_two_choice = move_choice(Choices::TACKLE);
    state.side_one.get_active().item = Items::CUSTAPBERRY;
    state.side_one.get_active().hp = 24;
    state.side_one.get_active().speed = 100;
    state.side_two.get_active().speed = 101;

    assert_eq!(
        SideMovesFirst::SideOne,
        moves_first(
            &state,
            &side_one_choice,
            &side_two_choice,
            &mut StateInstructions::default()
        )
    )
}

#[test]
fn test_quarkdrivespe_boost_works() {
    let mut state = State::default();
    let side_one_choice = move_choice(Choices::TACKLE);
    let side_two_choice = move_choice(Choices::TACKLE);
    state
        .side_one
        .get_active().volatile_statuses
        .insert(PokemonVolatileStatus::QUARKDRIVESPE);
    state.side_one.get_active().hp = 24;
    state.side_one.get_active().speed = 100;
    state.side_two.get_active().speed = 101;

    assert_eq!(
        SideMovesFirst::SideOne,
        moves_first(
            &state,
            &side_one_choice,
            &side_two_choice,
            &mut StateInstructions::default()
        )
    )
}

#[test]
fn test_protosynthesisspe_boost_works() {
    let mut state = State::default();
    let side_one_choice = move_choice(Choices::TACKLE);
    let side_two_choice = move_choice(Choices::TACKLE);
    state
        .side_one
        .get_active().volatile_statuses
        .insert(PokemonVolatileStatus::PROTOSYNTHESISSPE);
    state.side_one.get_active().hp = 24;
    state.side_one.get_active().speed = 100;
    state.side_two.get_active().speed = 101;

    assert_eq!(
        SideMovesFirst::SideOne,
        moves_first(
            &state,
            &side_one_choice,
            &side_two_choice,
            &mut StateInstructions::default()
        )
    )
}

#[test]
fn test_custap_berry_when_greater_than_25_percent_does_not_activate() {
    let mut state = State::default();
    let side_one_choice = move_choice(Choices::TACKLE);
    let side_two_choice = move_choice(Choices::TACKLE);
    state.side_one.get_active().item = Items::CUSTAPBERRY;
    state.side_one.get_active().speed = 100;
    state.side_two.get_active().speed = 101;

    assert_eq!(
        SideMovesFirst::SideTwo,
        moves_first(
            &state,
            &side_one_choice,
            &side_two_choice,
            &mut StateInstructions::default()
        )
    )
}

#[test]
fn test_custap_berry_does_not_matter_when_opponent_uses_increased_priority_move() {
    let mut state = State::default();
    let side_one_choice = move_choice(Choices::TACKLE);
    let side_two_choice = move_choice(Choices::QUICKATTACK);
    state.side_one.get_active().item = Items::CUSTAPBERRY;
    state.side_one.get_active().hp = 24;
    state.side_one.get_active().speed = 100;
    state.side_two.get_active().speed = 101;

    assert_eq!(
        SideMovesFirst::SideTwo,
        moves_first(
            &state,
            &side_one_choice,
            &side_two_choice,
            &mut StateInstructions::default()
        )
    )
}

#[test]
fn test_slowstart_halves_effective_speed() {
    let mut state = State::default();
    let side_one_choice = move_choice(Choices::TACKLE);
    let side_two_choice = move_choice(Choices::TACKLE);
    state.side_one.get_active().speed = 100;
    state.side_two.get_active().speed = 101;
    state
        .side_two
        .get_active().volatile_statuses
        .insert(PokemonVolatileStatus::SLOWSTART);

    assert_eq!(
        SideMovesFirst::SideOne,
        moves_first(
            &state,
            &side_one_choice,
            &side_two_choice,
            &mut StateInstructions::default()
        )
    )
}

#[test]
fn test_basic_side_one_moves_first() {
    let mut state = State::default();
    let side_one_choice = move_choice(Choices::TACKLE);
    let side_two_choice = move_choice(Choices::TACKLE);
    state.side_one.get_active().speed = 101;
    state.side_two.get_active().speed = 100;

    assert_eq!(
        SideMovesFirst::SideOne,
        moves_first(
            &state,
            &side_one_choice,
            &side_two_choice,
            &mut StateInstructions::default()
        )
    )
}

#[test]
fn test_paralysis_reduces_effective_speed() {
    let mut state = State::default();
    let side_one_choice = move_choice(Choices::TACKLE);
    let side_two_choice = move_choice(Choices::TACKLE);

    state.side_one.get_active().status = PokemonStatus::PARALYZE;
    state.side_one.get_active().speed = 101;
    state.side_two.get_active().speed = 100;

    assert_eq!(
        SideMovesFirst::SideTwo,
        moves_first(
            &state,
            &side_one_choice,
            &side_two_choice,
            &mut StateInstructions::default()
        )
    )
}

#[test]
fn test_later_gen_speed_cutting_in_half() {
    let mut state = State::default();
    state.side_one.get_active().status = PokemonStatus::PARALYZE;
    state.side_one.get_active().speed = 100;

    assert_eq!(50, get_effective_speed(&state, &SideReference::SideOne))
}

#[test]
fn test_choicescarf_multiplying_speed() {
    let mut state = State::default();
    state.side_one.get_active().speed = 100;
    state.side_one.get_active().item = Items::CHOICESCARF;

    assert_eq!(150, get_effective_speed(&state, &SideReference::SideOne))
}

#[test]
fn test_iron_ball_halving_speed() {
    let mut state = State::default();
    state.side_one.get_active().speed = 100;
    state.side_one.get_active().item = Items::IRONBALL;

    assert_eq!(50, get_effective_speed(&state, &SideReference::SideOne))
}

#[test]
fn test_speed_tie_goes_to_side_two() {
    let mut state = State::default();
    let side_one_choice = move_choice(Choices::TACKLE);
    let side_two_choice = move_choice(Choices::TACKLE);
    state.side_one.get_active().speed = 100;
    state.side_two.get_active().speed = 100;

    assert_eq!(
        SideMovesFirst::SpeedTie,
        moves_first(
            &state,
            &side_one_choice,
            &side_two_choice,
            &mut StateInstructions::default()
        )
    )
}

#[test]
fn test_higher_priority_ignores_speed_diff() {
    let mut state = State::default();
    let side_one_choice = move_choice(Choices::QUICKATTACK);
    let side_two_choice = move_choice(Choices::TACKLE);
    state.side_one.get_active().speed = 100;
    state.side_two.get_active().speed = 101;

    assert_eq!(
        SideMovesFirst::SideOne,
        moves_first(
            &state,
            &side_one_choice,
            &side_two_choice,
            &mut StateInstructions::default()
        )
    )
}

#[test]
fn test_side_two_higher_priority_ignores_speed_diff() {
    let mut state = State::default();
    let side_one_choice = move_choice(Choices::TACKLE);
    let side_two_choice = move_choice(Choices::QUICKATTACK);
    state.side_one.get_active().speed = 101;
    state.side_two.get_active().speed = 100;

    assert_eq!(
        SideMovesFirst::SideTwo,
        moves_first(
            &state,
            &side_one_choice,
            &side_two_choice,
            &mut StateInstructions::default()
        )
    )
}

#[test]
fn test_both_higher_priority_defaults_back_to_speed() {
    let mut state = State::default();
    let side_one_choice = move_choice(Choices::QUICKATTACK);
    let side_two_choice = move_choice(Choices::QUICKATTACK);
    state.side_one.get_active().speed = 101;
    state.side_two.get_active().speed = 100;

    assert_eq!(
        SideMovesFirst::SideOne,
        moves_first(
            &state,
            &side_one_choice,
            &side_two_choice,
            &mut StateInstructions::default()
        )
    )
}

#[test]
fn test_switch_always_goes_first() {
    let mut state = State::default();
    let mut side_one_choice = move_choice(Choices::SPLASH);
    side_one_choice.category = MoveCategory::Switch;
    let side_two_choice = move_choice(Choices::QUICKATTACK);
    state.side_one.get_active().speed = 99;
    state.side_two.get_active().speed = 100;

    assert_eq!(
        SideMovesFirst::SideOne,
        moves_first(
            &state,
            &side_one_choice,
            &side_two_choice,
            &mut StateInstructions::default()
        )
    )
}

#[test]
fn test_double_switch_checks_higher_speed() {
    let mut state = State::default();
    let mut side_one_choice = move_choice(Choices::SPLASH);
    side_one_choice.category = MoveCategory::Switch;
    let mut side_two_choice = move_choice(Choices::SPLASH);
    side_two_choice.category = MoveCategory::Switch;

    state.side_one.get_active().speed = 99;
    state.side_two.get_active().speed = 100;

    assert_eq!(
        SideMovesFirst::SideTwo,
        moves_first(
            &state,
            &side_one_choice,
            &side_two_choice,
            &mut StateInstructions::default()
        )
    )
}

#[test]
fn test_pursuit_goes_before_switch() {
    let mut state = State::default();
    let side_one_choice = move_choice(Choices::PURSUIT);
    let mut side_two_choice = move_choice(Choices::SPLASH);
    side_two_choice.category = MoveCategory::Switch;

    state.side_one.get_active().speed = 50;
    state.side_two.get_active().speed = 100;

    assert_eq!(
        SideMovesFirst::SideOne,
        moves_first(
            &state,
            &side_one_choice,
            &side_two_choice,
            &mut StateInstructions::default()
        )
    )
}
