#![allow(unused_imports, unused_mut, unused_variables)]

use poke_engine::abilities::Abilities;
use poke_engine::choices::{Choice, Choices, MoveCategory};
use poke_engine::instruction::{
    ApplyVolatileStatusInstruction, BoostInstruction, ChangeItemInstruction,
    ChangeSideConditionInstruction, ChangeStatusInstruction, DamageInstruction,
    DecrementFutureSightInstruction, DecrementRestTurnsInstruction, DecrementWishInstruction,
    EnableMoveInstruction, HealInstruction, Instruction, RemoveVolatileStatusInstruction,
    SetSleepTurnsInstruction, StateInstructions, SwitchInstruction,
};
use poke_engine::items::Items;
use poke_engine::state::{
    Move, PokemonBoostableStat, PokemonIndex, PokemonMoveIndex, PokemonSideCondition,
    PokemonStatus, PokemonType, PokemonVolatileStatus, SideMovesFirst, SideReference, State,
    Weather, MAX_SLEEP_TURNS,
};
use poke_engine::generate::generate_instructions_from_switch;

/// An expected branch: its chance in percent and its instructions.
#[derive(Debug)]
struct Expected {
    percentage: f32,
    instruction_list: Vec<Instruction>,
}

fn branch(percentage: f32, instruction_list: Vec<Instruction>) -> Expected {
    Expected { percentage, instruction_list }
}

fn percent(actual: &StateInstructions) -> f64 {
    actual.percentage.numerator as f64 / actual.percentage.denominator as f64
}

fn check(expected: &Expected, actual: &StateInstructions) {
    assert_eq!(expected.instruction_list, actual.instruction_list);
    assert!((percent(actual) - expected.percentage as f64).abs() < 1e-3,
        "chance {} where {} was expected", percent(actual), expected.percentage);
}

#[allow(dead_code)]
fn check_all(expected: &Vec<Expected>, actual: &Vec<StateInstructions>) {
    assert_eq!(expected.len(), actual.len());
    for (e, a) in expected.iter().zip(actual.iter()) {
        check(e, a);
    }
}

#[test]
fn test_basic_switch_functionality_with_no_prior_instructions() {
    let mut state: State = State::default();
    let mut choice = Choice {
        ..Default::default()
    };

    choice.switch_id = PokemonIndex::P1;

    let expected_instructions = branch(100.0, vec![Instruction::Switch(SwitchInstruction {
            side_ref: SideReference::SideOne,
            previous_index: PokemonIndex::P0,
            next_index: PokemonIndex::P1,
        })]);

    let mut incoming_instructions = StateInstructions::default();
    generate_instructions_from_switch(
        &mut state,
        choice.switch_id,
        SideReference::SideOne,
        &mut incoming_instructions,
    );

    check(&expected_instructions, &incoming_instructions);
}

#[test]
fn test_basic_switch_with_volatile_statuses() {
    let mut state: State = State::default();
    state
        .side_one
        .get_active().volatile_statuses
        .insert(PokemonVolatileStatus::LEECHSEED);
    let mut choice = Choice {
        ..Default::default()
    };
    choice.switch_id = PokemonIndex::P1;

    let expected_instructions = branch(100.0, vec![
            Instruction::RemoveVolatileStatus(RemoveVolatileStatusInstruction::new(
                SideReference::SideOne,
                0,
                PokemonVolatileStatus::LEECHSEED,
            )),
            Instruction::Switch(SwitchInstruction {
                side_ref: SideReference::SideOne,
                previous_index: PokemonIndex::P0,
                next_index: PokemonIndex::P1,
            }),
        ]);

    let mut incoming_instructions = StateInstructions::default();
    generate_instructions_from_switch(
        &mut state,
        choice.switch_id,
        SideReference::SideOne,
        &mut incoming_instructions,
    );

    check(&expected_instructions, &incoming_instructions);
}

#[test]
fn test_basic_switch_with_toxic_count() {
    let mut state: State = State::default();
    state.side_one.side_conditions.toxic_count = 2;
    let mut choice = Choice {
        ..Default::default()
    };
    choice.switch_id = PokemonIndex::P1;

    let expected_instructions = branch(100.0, vec![
            Instruction::ChangeSideCondition(ChangeSideConditionInstruction {
                side_ref: SideReference::SideOne,
                side_condition: PokemonSideCondition::ToxicCount,
                amount: -2,
            }),
            Instruction::Switch(SwitchInstruction {
                side_ref: SideReference::SideOne,
                previous_index: PokemonIndex::P0,
                next_index: PokemonIndex::P1,
            }),
        ]);

    let mut incoming_instructions = StateInstructions::default();
    generate_instructions_from_switch(
        &mut state,
        choice.switch_id,
        SideReference::SideOne,
        &mut incoming_instructions,
    );

    check(&expected_instructions, &incoming_instructions);
}

#[test]
fn test_basic_switch_with_boost() {
    let mut state: State = State::default();
    state.side_one.get_active().attack_boost = 2;
    state.side_one.get_active().speed_boost = 5;
    let mut choice = Choice {
        ..Default::default()
    };
    choice.switch_id = PokemonIndex::P1;

    let expected_instructions = branch(100.0, vec![
            Instruction::Boost(BoostInstruction::new(
                SideReference::SideOne,
                0,
                PokemonBoostableStat::Attack,
                -2,
            )),
            Instruction::Boost(BoostInstruction::new(
                SideReference::SideOne,
                0,
                PokemonBoostableStat::Speed,
                -5,
            )),
            Instruction::Switch(SwitchInstruction {
                side_ref: SideReference::SideOne,
                previous_index: PokemonIndex::P0,
                next_index: PokemonIndex::P1,
            }),
        ]);

    let mut incoming_instructions = StateInstructions::default();
    generate_instructions_from_switch(
        &mut state,
        choice.switch_id,
        SideReference::SideOne,
        &mut incoming_instructions,
    );

    check(&expected_instructions, &incoming_instructions);
}

#[test]
fn test_basic_switch_with_disabled_move() {
    let mut state: State = State::default();
    state.side_one.get_active().moves.m0 = Move {
        id: Choices::NONE,
        disabled: true,
        pp: 32,
        ..Default::default()
    };
    state.side_one.get_active().moves.m1 = Move {
        id: Choices::NONE,
        disabled: false,
        pp: 32,
        ..Default::default()
    };

    let mut choice = Choice {
        ..Default::default()
    };
    choice.switch_id = PokemonIndex::P1;

    let expected_instructions = branch(100.0, vec![
            Instruction::EnableMove(EnableMoveInstruction::new(
                SideReference::SideOne,
                0,
                PokemonMoveIndex::M0,
            )),
            Instruction::Switch(SwitchInstruction {
                side_ref: SideReference::SideOne,
                previous_index: PokemonIndex::P0,
                next_index: PokemonIndex::P1,
            }),
        ]);

    let mut incoming_instructions = StateInstructions::default();
    generate_instructions_from_switch(
        &mut state,
        choice.switch_id,
        SideReference::SideOne,
        &mut incoming_instructions,
    );

    check(&expected_instructions, &incoming_instructions);
}

#[test]
fn test_basic_switch_with_multiple_disabled_moves() {
    let mut state: State = State::default();
    state.side_one.get_active().moves.m0 = Move {
        id: Choices::NONE,
        disabled: true,
        pp: 32,
        ..Default::default()
    };
    state.side_one.get_active().moves.m1 = Move {
        id: Choices::NONE,
        disabled: true,
        pp: 32,
        ..Default::default()
    };
    state.side_one.get_active().moves.m2 = Move {
        id: Choices::NONE,
        disabled: false,
        pp: 32,
        ..Default::default()
    };
    state.side_one.get_active().moves.m3 = Move {
        id: Choices::NONE,
        disabled: true,
        pp: 32,
        ..Default::default()
    };
    let mut choice = Choice {
        ..Default::default()
    };
    choice.switch_id = PokemonIndex::P1;

    let expected_instructions = branch(100.0, vec![
            Instruction::EnableMove(EnableMoveInstruction::new(
                SideReference::SideOne,
                0,
                PokemonMoveIndex::M0,
            )),
            Instruction::EnableMove(EnableMoveInstruction::new(
                SideReference::SideOne,
                0,
                PokemonMoveIndex::M1,
            )),
            Instruction::EnableMove(EnableMoveInstruction::new(
                SideReference::SideOne,
                0,
                PokemonMoveIndex::M3,
            )),
            Instruction::Switch(SwitchInstruction {
                side_ref: SideReference::SideOne,
                previous_index: PokemonIndex::P0,
                next_index: PokemonIndex::P1,
            }),
        ]);

    let mut incoming_instructions = StateInstructions::default();
    generate_instructions_from_switch(
        &mut state,
        choice.switch_id,
        SideReference::SideOne,
        &mut incoming_instructions,
    );

    check(&expected_instructions, &incoming_instructions);
}

#[test]
fn test_basic_switch_functionality_with_a_prior_instruction() {
    let mut state: State = State::default();
    let mut incoming_instructions = StateInstructions::default();
    let mut choice = Choice {
        ..Default::default()
    };

    choice.switch_id = PokemonIndex::P1;
    incoming_instructions
        .instruction_list
        .push(Instruction::Damage(DamageInstruction::new(
            SideReference::SideOne,
            0,
            1,
        )));

    let expected_instructions = branch(100.0, vec![
            Instruction::Damage(DamageInstruction::new(
                SideReference::SideOne,
                0,
                1,
            )),
            Instruction::Switch(SwitchInstruction {
                side_ref: SideReference::SideOne,
                previous_index: PokemonIndex::P0,
                next_index: PokemonIndex::P1,
            }),
        ]);

    generate_instructions_from_switch(
        &mut state,
        choice.switch_id,
        SideReference::SideOne,
        &mut incoming_instructions,
    );

    check(&expected_instructions, &incoming_instructions);
}

#[test]
fn test_switch_with_regenerator() {
    let mut state: State = State::default();
    state.side_one.get_active().hp -= 10;
    state.side_one.get_active().ability = Abilities::REGENERATOR;
    state.side_one.get_active().base_ability = Abilities::REGENERATOR;
    let mut choice = Choice {
        ..Default::default()
    };
    choice.switch_id = PokemonIndex::P1;

    let expected_instructions = branch(100.0, vec![
            Instruction::Heal(HealInstruction::new(
                SideReference::SideOne,
                0,
                10,
            )),
            Instruction::Switch(SwitchInstruction {
                side_ref: SideReference::SideOne,
                previous_index: PokemonIndex::P0,
                next_index: PokemonIndex::P1,
            }),
        ]);

    let mut incoming_instructions = StateInstructions::default();
    generate_instructions_from_switch(
        &mut state,
        choice.switch_id,
        SideReference::SideOne,
        &mut incoming_instructions,
    );

    check(&expected_instructions, &incoming_instructions);
}

#[test]
fn test_switch_with_regenerator_plus_move_enabling() {
    let mut state: State = State::default();
    state.side_one.get_active().moves.m0 = Move {
        id: Choices::NONE,
        disabled: true,
        pp: 32,
        ..Default::default()
    };
    state.side_one.get_active().moves.m1 = Move {
        id: Choices::NONE,
        disabled: true,
        pp: 32,
        ..Default::default()
    };
    state.side_one.get_active().moves.m2 = Move {
        id: Choices::NONE,
        disabled: false,
        pp: 32,
        ..Default::default()
    };
    state.side_one.get_active().moves.m3 = Move {
        id: Choices::NONE,
        disabled: true,
        pp: 32,
        ..Default::default()
    };
    state.side_one.get_active().hp -= 10;
    state.side_one.get_active().ability = Abilities::REGENERATOR;
    state.side_one.get_active().base_ability = Abilities::REGENERATOR;
    let mut choice = Choice {
        ..Default::default()
    };
    choice.switch_id = PokemonIndex::P1;

    let expected_instructions = branch(100.0, vec![
            Instruction::EnableMove(EnableMoveInstruction::new(
                SideReference::SideOne,
                0,
                PokemonMoveIndex::M0,
            )),
            Instruction::EnableMove(EnableMoveInstruction::new(
                SideReference::SideOne,
                0,
                PokemonMoveIndex::M1,
            )),
            Instruction::EnableMove(EnableMoveInstruction::new(
                SideReference::SideOne,
                0,
                PokemonMoveIndex::M3,
            )),
            Instruction::Heal(HealInstruction::new(
                SideReference::SideOne,
                0,
                10,
            )),
            Instruction::Switch(SwitchInstruction {
                side_ref: SideReference::SideOne,
                previous_index: PokemonIndex::P0,
                next_index: PokemonIndex::P1,
            }),
        ]);

    let mut incoming_instructions = StateInstructions::default();
    generate_instructions_from_switch(
        &mut state,
        choice.switch_id,
        SideReference::SideOne,
        &mut incoming_instructions,
    );

    check(&expected_instructions, &incoming_instructions);
}

#[test]
fn test_switch_with_regenerator_but_no_damage_taken() {
    let mut state: State = State::default();
    state.side_one.get_active().ability = Abilities::REGENERATOR;
    state.side_one.get_active().base_ability = Abilities::REGENERATOR;
    let mut choice = Choice {
        ..Default::default()
    };
    choice.switch_id = PokemonIndex::P1;

    let expected_instructions = branch(100.0, vec![Instruction::Switch(SwitchInstruction {
            side_ref: SideReference::SideOne,
            previous_index: PokemonIndex::P0,
            next_index: PokemonIndex::P1,
        })]);

    let mut incoming_instructions = StateInstructions::default();
    generate_instructions_from_switch(
        &mut state,
        choice.switch_id,
        SideReference::SideOne,
        &mut incoming_instructions,
    );

    check(&expected_instructions, &incoming_instructions);
}

#[test]
fn test_fainted_pokemon_with_regenerator_does_not_heal() {
    let mut state: State = State::default();
    state.side_one.get_active().ability = Abilities::REGENERATOR;
    state.side_one.get_active().base_ability = Abilities::REGENERATOR;
    state.side_one.get_active().hp = 0;
    let mut choice = Choice {
        ..Default::default()
    };
    choice.switch_id = PokemonIndex::P1;

    let expected_instructions = branch(100.0, vec![Instruction::Switch(SwitchInstruction {
            side_ref: SideReference::SideOne,
            previous_index: PokemonIndex::P0,
            next_index: PokemonIndex::P1,
        })]);

    let mut incoming_instructions = StateInstructions::default();
    generate_instructions_from_switch(
        &mut state,
        choice.switch_id,
        SideReference::SideOne,
        &mut incoming_instructions,
    );

    check(&expected_instructions, &incoming_instructions);
}

#[test]
fn test_regenerator_only_heals_one_third() {
    let mut state: State = State::default();
    state.side_one.get_active().ability = Abilities::REGENERATOR;
    state.side_one.get_active().base_ability = Abilities::REGENERATOR;
    state.side_one.get_active().hp = 3;
    let mut choice = Choice {
        ..Default::default()
    };
    choice.switch_id = PokemonIndex::P1;

    let expected_instructions = branch(100.0, vec![
            Instruction::Heal(HealInstruction::new(
                SideReference::SideOne,
                0,
                33,
            )),
            Instruction::Switch(SwitchInstruction {
                side_ref: SideReference::SideOne,
                previous_index: PokemonIndex::P0,
                next_index: PokemonIndex::P1,
            }),
        ]);

    let mut incoming_instructions = StateInstructions::default();
    generate_instructions_from_switch(
        &mut state,
        choice.switch_id,
        SideReference::SideOne,
        &mut incoming_instructions,
    );

    check(&expected_instructions, &incoming_instructions);
}

#[test]
fn test_naturalcure() {
    let mut state: State = State::default();
    state.side_one.get_active().ability = Abilities::NATURALCURE;
    state.side_one.get_active().base_ability = Abilities::NATURALCURE;
    state.side_one.get_active().status = PokemonStatus::PARALYZE;
    let mut choice = Choice {
        ..Default::default()
    };
    choice.switch_id = PokemonIndex::P1;

    let expected_instructions = branch(100.0, vec![
            Instruction::ChangeStatus(ChangeStatusInstruction {
                side_ref: SideReference::SideOne,
                pokemon_index: PokemonIndex::P0,
                old_status: PokemonStatus::PARALYZE,
                new_status: PokemonStatus::NONE,
            }),
            Instruction::Switch(SwitchInstruction {
                side_ref: SideReference::SideOne,
                previous_index: PokemonIndex::P0,
                next_index: PokemonIndex::P1,
            }),
        ]);

    let mut incoming_instructions = StateInstructions::default();
    generate_instructions_from_switch(
        &mut state,
        choice.switch_id,
        SideReference::SideOne,
        &mut incoming_instructions,
    );

    check(&expected_instructions, &incoming_instructions);
}

#[test]
fn test_naturalcure_with_no_status() {
    let mut state: State = State::default();
    state.side_one.get_active().ability = Abilities::NATURALCURE;
    state.side_one.get_active().base_ability = Abilities::NATURALCURE;
    state.side_one.get_active().status = PokemonStatus::NONE;
    let mut choice = Choice {
        ..Default::default()
    };
    choice.switch_id = PokemonIndex::P1;

    let expected_instructions = branch(100.0, vec![Instruction::Switch(SwitchInstruction {
            side_ref: SideReference::SideOne,
            previous_index: PokemonIndex::P0,
            next_index: PokemonIndex::P1,
        })]);

    let mut incoming_instructions = StateInstructions::default();
    generate_instructions_from_switch(
        &mut state,
        choice.switch_id,
        SideReference::SideOne,
        &mut incoming_instructions,
    );

    check(&expected_instructions, &incoming_instructions);
}

#[test]
fn test_switching_into_stealthrock() {
    let mut state: State = State::default();
    state.side_one.side_conditions.stealth_rock = 1;
    let mut choice = Choice {
        ..Default::default()
    };
    choice.switch_id = PokemonIndex::P1;

    let expected_instructions = branch(100.0, vec![
            Instruction::Switch(SwitchInstruction {
                side_ref: SideReference::SideOne,
                previous_index: PokemonIndex::P0,
                next_index: PokemonIndex::P1,
            }),
            Instruction::Damage(DamageInstruction::new(
                SideReference::SideOne,
                0,
                state.side_one.get_active().hp / 8,
            )),
        ]);

    let mut incoming_instructions = StateInstructions::default();
    generate_instructions_from_switch(
        &mut state,
        choice.switch_id,
        SideReference::SideOne,
        &mut incoming_instructions,
    );

    check(&expected_instructions, &incoming_instructions);
}

#[test]
fn test_switching_into_resisted_stealthrock() {
    let mut state: State = State::default();
    state.side_one.side_conditions.stealth_rock = 1;
    state.side_one.pokemon.get_mut(PokemonIndex::P1).types = (PokemonType::GROUND, PokemonType::NORMAL);
    let mut choice = Choice {
        ..Default::default()
    };
    choice.switch_id = PokemonIndex::P1;

    let expected_instructions = branch(100.0, vec![
            Instruction::Switch(SwitchInstruction {
                side_ref: SideReference::SideOne,
                previous_index: PokemonIndex::P0,
                next_index: PokemonIndex::P1,
            }),
            Instruction::Damage(DamageInstruction::new(
                SideReference::SideOne,
                0,
                state.side_one.get_active().hp / 16,
            )),
        ]);

    let mut incoming_instructions = StateInstructions::default();
    generate_instructions_from_switch(
        &mut state,
        choice.switch_id,
        SideReference::SideOne,
        &mut incoming_instructions,
    );

    check(&expected_instructions, &incoming_instructions);
}

#[test]
fn test_switching_into_stealthrock_does_not_overkill() {
    let mut state: State = State::default();
    state.side_one.side_conditions.stealth_rock = 1;
    state.side_one.pokemon.get_mut(PokemonIndex::P1).hp = 5;
    let mut choice = Choice {
        ..Default::default()
    };
    choice.switch_id = PokemonIndex::P1;

    let expected_instructions = branch(100.0, vec![
            Instruction::Switch(SwitchInstruction {
                side_ref: SideReference::SideOne,
                previous_index: PokemonIndex::P0,
                next_index: PokemonIndex::P1,
            }),
            Instruction::Damage(DamageInstruction::new(
                SideReference::SideOne,
                0,
                5,
            )),
        ]);

    let mut incoming_instructions = StateInstructions::default();
    generate_instructions_from_switch(
        &mut state,
        choice.switch_id,
        SideReference::SideOne,
        &mut incoming_instructions,
    );

    check(&expected_instructions, &incoming_instructions);
}

#[test]
fn test_switching_into_stickyweb() {
    let mut state: State = State::default();
    state.side_one.side_conditions.sticky_web = 1;
    let mut choice = Choice {
        ..Default::default()
    };
    choice.switch_id = PokemonIndex::P1;

    let expected_instructions = branch(100.0, vec![
            Instruction::Switch(SwitchInstruction {
                side_ref: SideReference::SideOne,
                previous_index: PokemonIndex::P0,
                next_index: PokemonIndex::P1,
            }),
            Instruction::Boost(BoostInstruction::new(
                SideReference::SideOne,
                0,
                PokemonBoostableStat::Speed,
                -1,
            )),
        ]);

    let mut incoming_instructions = StateInstructions::default();
    generate_instructions_from_switch(
        &mut state,
        choice.switch_id,
        SideReference::SideOne,
        &mut incoming_instructions,
    );

    check(&expected_instructions, &incoming_instructions);
}

#[test]
fn test_switching_into_stickyweb_with_heavydutyboots() {
    let mut state: State = State::default();
    state.side_one.side_conditions.sticky_web = 1;
    state.side_one.pokemon.get_mut(PokemonIndex::P1).item = Items::HEAVYDUTYBOOTS;
    let mut choice = Choice {
        ..Default::default()
    };
    choice.switch_id = PokemonIndex::P1;

    let expected_instructions = branch(100.0, vec![Instruction::Switch(SwitchInstruction {
            side_ref: SideReference::SideOne,
            previous_index: PokemonIndex::P0,
            next_index: PokemonIndex::P1,
        })]);

    let mut incoming_instructions = StateInstructions::default();
    generate_instructions_from_switch(
        &mut state,
        choice.switch_id,
        SideReference::SideOne,
        &mut incoming_instructions,
    );

    check(&expected_instructions, &incoming_instructions);
}

#[test]
fn test_switching_into_stickyweb_with_contrary() {
    let mut state: State = State::default();
    state.side_one.side_conditions.sticky_web = 1;
    state.side_one.pokemon.get_mut(PokemonIndex::P1).ability = Abilities::CONTRARY;
    let mut choice = Choice {
        ..Default::default()
    };
    choice.switch_id = PokemonIndex::P1;

    let expected_instructions = branch(100.0, vec![
            Instruction::Switch(SwitchInstruction {
                side_ref: SideReference::SideOne,
                previous_index: PokemonIndex::P0,
                next_index: PokemonIndex::P1,
            }),
            Instruction::Boost(BoostInstruction::new(
                SideReference::SideOne,
                0,
                PokemonBoostableStat::Speed,
                1,
            )),
        ]);

    let mut incoming_instructions = StateInstructions::default();
    generate_instructions_from_switch(
        &mut state,
        choice.switch_id,
        SideReference::SideOne,
        &mut incoming_instructions,
    );

    check(&expected_instructions, &incoming_instructions);
}

#[test]
fn test_switching_into_single_layer_toxicspikes() {
    let mut state: State = State::default();
    state.side_one.side_conditions.toxic_spikes = 1;
    let mut choice = Choice {
        ..Default::default()
    };
    choice.switch_id = PokemonIndex::P1;

    let expected_instructions = branch(100.0, vec![
            Instruction::Switch(SwitchInstruction {
                side_ref: SideReference::SideOne,
                previous_index: PokemonIndex::P0,
                next_index: PokemonIndex::P1,
            }),
            Instruction::ChangeStatus(ChangeStatusInstruction {
                side_ref: SideReference::SideOne,
                pokemon_index: PokemonIndex::P1,
                old_status: PokemonStatus::NONE,
                new_status: PokemonStatus::POISON,
            }),
        ]);

    let mut incoming_instructions = StateInstructions::default();
    generate_instructions_from_switch(
        &mut state,
        choice.switch_id,
        SideReference::SideOne,
        &mut incoming_instructions,
    );

    check(&expected_instructions, &incoming_instructions);
}

#[test]
fn test_switching_into_double_layer_toxicspikes() {
    let mut state: State = State::default();
    state.side_one.side_conditions.toxic_spikes = 2;
    let mut choice = Choice {
        ..Default::default()
    };
    choice.switch_id = PokemonIndex::P1;

    let expected_instructions = branch(100.0, vec![
            Instruction::Switch(SwitchInstruction {
                side_ref: SideReference::SideOne,
                previous_index: PokemonIndex::P0,
                next_index: PokemonIndex::P1,
            }),
            Instruction::ChangeStatus(ChangeStatusInstruction {
                side_ref: SideReference::SideOne,
                pokemon_index: PokemonIndex::P1,
                old_status: PokemonStatus::NONE,
                new_status: PokemonStatus::TOXIC,
            }),
        ]);

    let mut incoming_instructions = StateInstructions::default();
    generate_instructions_from_switch(
        &mut state,
        choice.switch_id,
        SideReference::SideOne,
        &mut incoming_instructions,
    );

    check(&expected_instructions, &incoming_instructions);
}

#[test]
fn test_switching_into_double_layer_toxicspikes_as_flying_type() {
    let mut state: State = State::default();
    state.side_one.side_conditions.toxic_spikes = 2;
    state.side_one.pokemon.get_mut(PokemonIndex::P1).types.0 = PokemonType::FLYING;
    let mut choice = Choice {
        ..Default::default()
    };
    choice.switch_id = PokemonIndex::P1;

    let expected_instructions = branch(100.0, vec![Instruction::Switch(SwitchInstruction {
            side_ref: SideReference::SideOne,
            previous_index: PokemonIndex::P0,
            next_index: PokemonIndex::P1,
        })]);

    let mut incoming_instructions = StateInstructions::default();
    generate_instructions_from_switch(
        &mut state,
        choice.switch_id,
        SideReference::SideOne,
        &mut incoming_instructions,
    );

    check(&expected_instructions, &incoming_instructions);
}

#[test]
fn test_switching_into_double_layer_toxicspikes_as_poison_and_flying_type() {
    let mut state: State = State::default();
    state.side_one.side_conditions.toxic_spikes = 2;
    state.side_one.pokemon.get_mut(PokemonIndex::P1).types.0 = PokemonType::FLYING;
    state.side_one.pokemon.get_mut(PokemonIndex::P1).types.1 = PokemonType::POISON;
    let mut choice = Choice {
        ..Default::default()
    };
    choice.switch_id = PokemonIndex::P1;

    let expected_instructions = branch(100.0, vec![Instruction::Switch(SwitchInstruction {
            side_ref: SideReference::SideOne,
            previous_index: PokemonIndex::P0,
            next_index: PokemonIndex::P1,
        })]);

    let mut incoming_instructions = StateInstructions::default();
    generate_instructions_from_switch(
        &mut state,
        choice.switch_id,
        SideReference::SideOne,
        &mut incoming_instructions,
    );

    check(&expected_instructions, &incoming_instructions);
}

#[test]
fn test_switching_in_with_intimidate() {
    let mut state: State = State::default();
    state.side_one.pokemon.get_mut(PokemonIndex::P1).ability = Abilities::INTIMIDATE;
    let mut choice = Choice {
        ..Default::default()
    };
    choice.switch_id = PokemonIndex::P1;

    let expected_instructions = branch(100.0, vec![
            Instruction::Switch(SwitchInstruction {
                side_ref: SideReference::SideOne,
                previous_index: PokemonIndex::P0,
                next_index: PokemonIndex::P1,
            }),
            Instruction::Boost(BoostInstruction::new(
                SideReference::SideTwo,
                0,
                PokemonBoostableStat::Attack,
                -1,
            )),
        ]);

    let mut incoming_instructions = StateInstructions::default();
    generate_instructions_from_switch(
        &mut state,
        choice.switch_id,
        SideReference::SideOne,
        &mut incoming_instructions,
    );

    check(&expected_instructions, &incoming_instructions);
}

#[test]
fn test_switching_in_with_intimidate_when_opponent_is_already_lowest_atk_boost() {
    let mut state: State = State::default();
    state.side_one.pokemon.get_mut(PokemonIndex::P1).ability = Abilities::INTIMIDATE;
    state.side_two.get_active().attack_boost = -6;
    let mut choice = Choice {
        ..Default::default()
    };
    choice.switch_id = PokemonIndex::P1;

    let expected_instructions = branch(100.0, vec![Instruction::Switch(SwitchInstruction {
            side_ref: SideReference::SideOne,
            previous_index: PokemonIndex::P0,
            next_index: PokemonIndex::P1,
        })]);

    let mut incoming_instructions = StateInstructions::default();
    generate_instructions_from_switch(
        &mut state,
        choice.switch_id,
        SideReference::SideOne,
        &mut incoming_instructions,
    );

    check(&expected_instructions, &incoming_instructions);
}

#[test]
fn test_switching_in_with_intimidate_versus_clearbody() {
    let mut state: State = State::default();
    state.side_one.pokemon.get_mut(PokemonIndex::P1).ability = Abilities::INTIMIDATE;
    state.side_two.get_active().ability = Abilities::CLEARBODY;
    let mut choice = Choice {
        ..Default::default()
    };
    choice.switch_id = PokemonIndex::P1;

    let expected_instructions = branch(100.0, vec![Instruction::Switch(SwitchInstruction {
            side_ref: SideReference::SideOne,
            previous_index: PokemonIndex::P0,
            next_index: PokemonIndex::P1,
        })]);

    let mut incoming_instructions = StateInstructions::default();
    generate_instructions_from_switch(
        &mut state,
        choice.switch_id,
        SideReference::SideOne,
        &mut incoming_instructions,
    );

    check(&expected_instructions, &incoming_instructions);
}

#[test]
fn test_switching_into_double_layer_toxicspikes_as_poison_type() {
    let mut state: State = State::default();
    state.side_one.pokemon.get_mut(PokemonIndex::P1).types.0 = PokemonType::POISON;
    state.side_one.side_conditions.toxic_spikes = 2;
    let mut choice = Choice {
        ..Default::default()
    };
    choice.switch_id = PokemonIndex::P1;

    let expected_instructions = branch(100.0, vec![
            Instruction::Switch(SwitchInstruction {
                side_ref: SideReference::SideOne,
                previous_index: PokemonIndex::P0,
                next_index: PokemonIndex::P1,
            }),
            Instruction::ChangeSideCondition(ChangeSideConditionInstruction {
                side_ref: SideReference::SideOne,
                side_condition: PokemonSideCondition::ToxicSpikes,
                amount: -2,
            }),
        ]);

    let mut incoming_instructions = StateInstructions::default();
    generate_instructions_from_switch(
        &mut state,
        choice.switch_id,
        SideReference::SideOne,
        &mut incoming_instructions,
    );

    check(&expected_instructions, &incoming_instructions);
}

#[test]
fn test_switching_into_stealthrock_and_spikes_does_not_overkill() {
    let mut state: State = State::default();
    state.side_one.side_conditions.stealth_rock = 1;
    state.side_one.side_conditions.spikes = 1;
    state.side_one.pokemon.get_mut(PokemonIndex::P1).hp = 15;
    let mut choice = Choice {
        ..Default::default()
    };
    choice.switch_id = PokemonIndex::P1;

    let expected_instructions = branch(100.0, vec![
            Instruction::Switch(SwitchInstruction {
                side_ref: SideReference::SideOne,
                previous_index: PokemonIndex::P0,
                next_index: PokemonIndex::P1,
            }),
            Instruction::Damage(DamageInstruction::new(
                SideReference::SideOne,
                0,
                12,
            )),
            Instruction::Damage(DamageInstruction::new(
                SideReference::SideOne,
                0,
                3,
            )),
        ]);

    let mut incoming_instructions = StateInstructions::default();
    generate_instructions_from_switch(
        &mut state,
        choice.switch_id,
        SideReference::SideOne,
        &mut incoming_instructions,
    );

    check(&expected_instructions, &incoming_instructions);
}

#[test]
fn test_switching_into_stealthrock_and_multiple_layers_of_spikes_does_not_overkill() {
    let mut state: State = State::default();
    state.side_one.side_conditions.stealth_rock = 1;
    state.side_one.side_conditions.spikes = 3;
    state.side_one.pokemon.get_mut(PokemonIndex::P1).hp = 25;
    let mut choice = Choice {
        ..Default::default()
    };
    choice.switch_id = PokemonIndex::P1;

    let expected_instructions = branch(100.0, vec![
            Instruction::Switch(SwitchInstruction {
                side_ref: SideReference::SideOne,
                previous_index: PokemonIndex::P0,
                next_index: PokemonIndex::P1,
            }),
            Instruction::Damage(DamageInstruction::new(
                SideReference::SideOne,
                0,
                12,
            )),
            Instruction::Damage(DamageInstruction::new(
                SideReference::SideOne,
                0,
                13,
            )),
        ]);

    let mut incoming_instructions = StateInstructions::default();
    generate_instructions_from_switch(
        &mut state,
        choice.switch_id,
        SideReference::SideOne,
        &mut incoming_instructions,
    );

    check(&expected_instructions, &incoming_instructions);
}
