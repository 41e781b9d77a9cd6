#![allow(unused_imports, unused_mut, unused_variables)]

use poke_engine::abilities::Abilities;
use poke_engine::choices::{Choice, Choices, MoveCategory};
use poke_engine::instruction::{
    ApplyVolatileStatusInstruction, BoostInstruction, ChangeItemInstruction,
    ChangeSideConditionInstruction, ChangeStatusInstruction, DamageInstruction,
    DecrementFutureSightInstruction, DecrementRestTurnsInstruction, DecrementWishInstruction,
    EnableMoveInstruction, HealInstruction, Instruction, RemoveVolatileStatusInstruction,
    SetSleepTurnsInstruction, StateInstructions, SwitchInstruction,
};
use poke_engine::items::Items;
use poke_engine::state::{
    Move, PokemonBoostableStat, PokemonIndex, PokemonMoveIndex, PokemonSideCondition,
    PokemonStatus, PokemonType, PokemonVolatileStatus, SideMovesFirst, SideReference, State,
    Weather, MAX_SLEEP_TURNS,
};
use poke_engine::end_of_turn::add_end_of_turn_instructions;

/// An expected branch: its chance in percent and its instructions.
#[derive(Debug)]
struct Expected {
    percentage: f32,
    instruction_list: Vec<Instruction>,
}

fn branch(percentage: f32, instruction_list: Vec<Instruction>) -> Expected {
    Expected { percentage, instruction_list }
}

fn percent(actual: &StateInstructions) -> f64 {
    actual.percentage.numerator as f64 / actual.percentage.denominator as f64
}

fn check(expected: &Expected, actual: &StateInstructions) {
    assert_eq!(expected.instruction_list, actual.instruction_list);
    assert!((percent(actual) - expected.percentage as f64).abs() < 1e-3,
        "chance {} where {} was expected", percent(actual), expected.percentage);
}

#[allow(dead_code)]
fn check_all(expected: &Vec<Expected>, actual: &Vec<StateInstructions>) {
    assert_eq!(expected.len(), actual.len());
    for (e, a) in expected.iter().zip(actual.iter()) {
        check(e, a);
    }
}

#[test]
fn test_end_of_turn_hail_damage() {
    let mut state = State::default();
    state.weather.weather_type = Weather::HAIL;

    let mut incoming_instructions = StateInstructions::default();
    add_end_of_turn_instructions(
        &mut state,
        &mut incoming_instructions,
        &SideReference::SideOne,
    );

    let expected_instructions = branch(100.0, vec![
            Instruction::Damage(DamageInstruction::new(
                SideReference::SideOne,
                0,
                6,
            )),
            Instruction::Damage(DamageInstruction::new(
                SideReference::SideTwo,
                0,
                6,
            )),
        ]);

    check(&expected_instructions, &incoming_instructions);
}

#[test]
fn test_end_of_turn_hail_damage_against_ice_type() {
    let mut state = State::default();
    state.weather.weather_type = Weather::HAIL;
    state.side_two.get_active().types.0 = PokemonType::ICE;

    let mut incoming_instructions = StateInstructions::default();
    add_end_of_turn_instructions(
        &mut state,
        &mut incoming_instructions,
        &SideReference::SideOne,
    );

    let expected_instructions = branch(100.0, vec![
            // no damage to side_two
            Instruction::Damage(DamageInstruction::new(
                SideReference::SideOne,
                0,
                6,
            )),
        ]);

    check(&expected_instructions, &incoming_instructions);
}

#[test]
fn test_end_of_turn_sand_damage() {
    let mut state = State::default();
    state.weather.weather_type = Weather::SAND;

    let mut incoming_instructions = StateInstructions::default();
    add_end_of_turn_instructions(
        &mut state,
        &mut incoming_instructions,
        &SideReference::SideOne,
    );

    let expected_instructions = branch(100.0, vec![
            Instruction::Damage(DamageInstruction::new(
                SideReference::SideOne,
                0,
                6,
            )),
            Instruction::Damage(DamageInstruction::new(
                SideReference::SideTwo,
                0,
                6,
            )),
        ]);

    check(&expected_instructions, &incoming_instructions);
}

#[test]
fn test_end_of_turn_sand_damage_against_ground_type() {
    let mut state = State::default();
    state.weather.weather_type = Weather::SAND;
    state.side_two.get_active().types.0 = PokemonType::GROUND;

    let mut incoming_instructions = StateInstructions::default();
    add_end_of_turn_instructions(
        &mut state,
        &mut incoming_instructions,
        &SideReference::SideOne,
    );

    let expected_instructions = branch(100.0, vec![Instruction::Damage(DamageInstruction::new(
            SideReference::SideOne,
            0,
            6,
        ))]);

    check(&expected_instructions, &incoming_instructions);
}

#[test]
fn test_hail_does_not_overkill() {
    let mut state = State::default();
    state.weather.weather_type = Weather::HAIL;
    state.side_one.get_active().hp = 3;

    let mut incoming_instructions = StateInstructions::default();
    add_end_of_turn_instructions(
        &mut state,
        &mut incoming_instructions,
        &SideReference::SideOne,
    );

    let expected_instructions = branch(100.0, vec![
            Instruction::Damage(DamageInstruction::new(
                SideReference::SideOne,
                0,
                3,
            )),
            Instruction::Damage(DamageInstruction::new(
                SideReference::SideTwo,
                0,
                6,
            )),
        ]);

    check(&expected_instructions, &incoming_instructions);
}

#[test]
fn test_fainted_pkmn_does_not_take_hail_dmg() {
    let mut state = State::default();
    state.weather.weather_type = Weather::HAIL;
    state.side_one.get_active().hp = 0;

    let mut incoming_instructions = StateInstructions::default();
    add_end_of_turn_instructions(
        &mut state,
        &mut incoming_instructions,
        &SideReference::SideOne,
    );

    let expected_instructions = branch(100.0, vec![Instruction::Damage(DamageInstruction::new(
            SideReference::SideTwo,
            0,
            6,
        ))]);

    check(&expected_instructions, &incoming_instructions);
}

#[test]
fn test_wished_pokemon_gets_healed() {
    let mut state = State::default();
    state.side_one.wish = (1, 5);
    state.side_one.get_active().hp = 50;

    let mut incoming_instructions = StateInstructions::default();
    add_end_of_turn_instructions(
        &mut state,
        &mut incoming_instructions,
        &SideReference::SideOne,
    );

    let expected_instructions = branch(100.0, vec![
            Instruction::Heal(HealInstruction::new(
                SideReference::SideOne,
                0,
                5,
            )),
            Instruction::DecrementWish(DecrementWishInstruction {
                side_ref: SideReference::SideOne,
            }),
        ]);

    check(&expected_instructions, &incoming_instructions);
}

#[test]
fn test_wish_does_not_overheal() {
    let mut state = State::default();
    state.side_one.wish = (1, 50);
    state.side_one.get_active().hp = 95;

    let mut incoming_instructions = StateInstructions::default();
    add_end_of_turn_instructions(
        &mut state,
        &mut incoming_instructions,
        &SideReference::SideOne,
    );

    let expected_instructions = branch(100.0, vec![
            Instruction::Heal(HealInstruction::new(
                SideReference::SideOne,
                0,
                5,
            )),
            Instruction::DecrementWish(DecrementWishInstruction {
                side_ref: SideReference::SideOne,
            }),
        ]);

    check(&expected_instructions, &incoming_instructions);
}

#[test]
fn test_wish_does_nothing_when_maxhp() {
    let mut state = State::default();
    state.side_one.wish = (1, 50);
    state.side_one.get_active().hp = 100;

    let mut incoming_instructions = StateInstructions::default();
    add_end_of_turn_instructions(
        &mut state,
        &mut incoming_instructions,
        &SideReference::SideOne,
    );

    let expected_instructions = branch(100.0, vec![Instruction::DecrementWish(DecrementWishInstruction {
            side_ref: SideReference::SideOne,
        })]);

    check(&expected_instructions, &incoming_instructions);
}

#[test]
fn test_wish_does_nothing_when_fainted() {
    let mut state = State::default();
    state.side_one.wish = (1, 50);
    state.side_one.get_active().hp = 0;

    let mut incoming_instructions = StateInstructions::default();
    add_end_of_turn_instructions(
        &mut state,
        &mut incoming_instructions,
        &SideReference::SideOne,
    );

    let expected_instructions = branch(100.0, vec![Instruction::DecrementWish(DecrementWishInstruction {
            side_ref: SideReference::SideOne,
        })]);

    check(&expected_instructions, &incoming_instructions);
}

#[test]
fn test_wish_at_2_does_not_heal() {
    let mut state = State::default();
    state.side_one.wish = (2, 50);
    state.side_one.get_active().hp = 95;

    let mut incoming_instructions = StateInstructions::default();
    add_end_of_turn_instructions(
        &mut state,
        &mut incoming_instructions,
        &SideReference::SideOne,
    );

    let expected_instructions = branch(100.0, vec![Instruction::DecrementWish(DecrementWishInstruction {
            side_ref: SideReference::SideOne,
        })]);

    check(&expected_instructions, &incoming_instructions);
}

#[test]
fn test_leftovers_heals_at_end_of_turn() {
    let mut state = State::default();
    state.side_one.get_active().hp = 50;
    state.side_one.get_active().item = Items::LEFTOVERS;

    let mut incoming_instructions = StateInstructions::default();
    add_end_of_turn_instructions(
        &mut state,
        &mut incoming_instructions,
        &SideReference::SideOne,
    );

    let expected_instructions = branch(100.0, vec![Instruction::Heal(HealInstruction::new(
            SideReference::SideOne,
            0,
            6,
        ))]);

    check(&expected_instructions, &incoming_instructions);
}

#[test]
fn test_leftovers_does_not_overheal() {
    let mut state = State::default();
    state.side_one.get_active().hp = 99;
    state.side_one.get_active().item = Items::LEFTOVERS;

    let mut incoming_instructions = StateInstructions::default();
    add_end_of_turn_instructions(
        &mut state,
        &mut incoming_instructions,
        &SideReference::SideOne,
    );

    let expected_instructions = branch(100.0, vec![Instruction::Heal(HealInstruction::new(
            SideReference::SideOne,
            0,
            1,
        ))]);

    check(&expected_instructions, &incoming_instructions);
}

#[test]
fn test_leftovers_generates_no_instruction_at_maxhp() {
    let mut state = State::default();
    state.side_one.get_active().hp = 100;
    state.side_one.get_active().item = Items::LEFTOVERS;

    let mut incoming_instructions = StateInstructions::default();
    add_end_of_turn_instructions(
        &mut state,
        &mut incoming_instructions,
        &SideReference::SideOne,
    );

    let expected_instructions = branch(100.0, vec![]);

    check(&expected_instructions, &incoming_instructions);
}

#[test]
fn test_leftovers_generates_no_instruction_when_fainted() {
    let mut state = State::default();
    state.side_one.get_active().hp = 0;
    state.side_one.get_active().item = Items::LEFTOVERS;

    let mut incoming_instructions = StateInstructions::default();
    add_end_of_turn_instructions(
        &mut state,
        &mut incoming_instructions,
        &SideReference::SideOne,
    );

    let expected_instructions = branch(100.0, vec![]);

    check(&expected_instructions, &incoming_instructions);
}

#[test]
fn test_blacksludge_heal_as_poison_type() {
    let mut state = State::default();
    state.side_one.get_active().hp = 50;
    state.side_one.get_active().item = Items::BLACKSLUDGE;
    state.side_one.get_active().types.0 = PokemonType::POISON;

    let mut incoming_instructions = StateInstructions::default();
    add_end_of_turn_instructions(
        &mut state,
        &mut incoming_instructions,
        &SideReference::SideOne,
    );

    let expected_instructions = branch(100.0, vec![Instruction::Heal(HealInstruction::new(
            SideReference::SideOne,
            0,
            6,
        ))]);

    check(&expected_instructions, &incoming_instructions);
}

#[test]
fn test_blacksludge_damage_as_non_poison_type() {
    let mut state = State::default();
    state.side_one.get_active().hp = 50;
    state.side_one.get_active().item = Items::BLACKSLUDGE;

    let mut incoming_instructions = StateInstructions::default();
    add_end_of_turn_instructions(
        &mut state,
        &mut incoming_instructions,
        &SideReference::SideOne,
    );

    let expected_instructions = branch(100.0, vec![Instruction::Damage(DamageInstruction::new(
            SideReference::SideOne,
            0,
            6,
        ))]);

    check(&expected_instructions, &incoming_instructions);
}

#[test]
fn test_blacksludge_does_not_overheal() {
    let mut state = State::default();
    state.side_one.get_active().hp = 99;
    state.side_one.get_active().item = Items::BLACKSLUDGE;
    state.side_one.get_active().types.0 = PokemonType::POISON;

    let mut incoming_instructions = StateInstructions::default();
    add_end_of_turn_instructions(
        &mut state,
        &mut incoming_instructions,
        &SideReference::SideOne,
    );

    let expected_instructions = branch(100.0, vec![Instruction::Heal(HealInstruction::new(
            SideReference::SideOne,
            0,
            1,
        ))]);

    check(&expected_instructions, &incoming_instructions);
}

#[test]
fn test_flameorb_end_of_turn_burn() {
    let mut state = State::default();
    state.side_one.get_active().item = Items::FLAMEORB;

    let mut incoming_instructions = StateInstructions::default();
    add_end_of_turn_instructions(
        &mut state,
        &mut incoming_instructions,
        &SideReference::SideOne,
    );

    let expected_instructions = branch(100.0, vec![Instruction::ChangeStatus(ChangeStatusInstruction {
            side_ref: SideReference::SideOne,
            pokemon_index: PokemonIndex::P0,
            old_status: PokemonStatus::NONE,
            new_status: PokemonStatus::BURN,
        })]);

    check(&expected_instructions, &incoming_instructions);
}

#[test]
fn test_fire_type_cannot_be_burned_by_flameorb() {
    let mut state = State::default();
    state.side_one.get_active().item = Items::FLAMEORB;
    state.side_one.get_active().types.0 = PokemonType::FIRE;
    let mut incoming_instructions = StateInstructions::default();
    add_end_of_turn_instructions(
        &mut state,
        &mut incoming_instructions,
        &SideReference::SideOne,
    );

    let expected_instructions = branch(100.0, vec![]);

    check(&expected_instructions, &incoming_instructions);
}

#[test]
fn test_toxicorb_applies_status() {
    let mut state = State::default();
    state.side_one.get_active().item = Items::TOXICORB;

    let mut incoming_instructions = StateInstructions::default();
    add_end_of_turn_instructions(
        &mut state,
        &mut incoming_instructions,
        &SideReference::SideOne,
    );

    let expected_instructions = branch(100.0, vec![Instruction::ChangeStatus(ChangeStatusInstruction {
            side_ref: SideReference::SideOne,
            pokemon_index: PokemonIndex::P0,
            old_status: PokemonStatus::NONE,
            new_status: PokemonStatus::TOXIC,
        })]);

    check(&expected_instructions, &incoming_instructions);
}

#[test]
fn test_toxicorb_does_not_apply_to_poison_type() {
    let mut state = State::default();
    state.side_one.get_active().item = Items::TOXICORB;
    state.side_one.get_active().types.0 = PokemonType::POISON;

    let mut incoming_instructions = StateInstructions::default();
    add_end_of_turn_instructions(
        &mut state,
        &mut incoming_instructions,
        &SideReference::SideOne,
    );

    let expected_instructions = branch(100.0, vec![]);

    check(&expected_instructions, &incoming_instructions);
}

#[test]
fn test_poisonheal_heals_at_end_of_turn() {
    let mut state = State::default();
    state.side_one.get_active().ability = Abilities::POISONHEAL;
    state.side_one.get_active().status = PokemonStatus::POISON;
    state.side_one.get_active().hp = 50;

    let mut incoming_instructions = StateInstructions::default();
    add_end_of_turn_instructions(
        &mut state,
        &mut incoming_instructions,
        &SideReference::SideOne,
    );

    let expected_instructions = branch(100.0, vec![Instruction::Heal(HealInstruction::new(
            SideReference::SideOne,
            0,
            12,
        ))]);

    check(&expected_instructions, &incoming_instructions);
}

#[test]
fn test_poisonheal_while_toxiced_still_increases_toxic_count() {
    let mut state = State::default();
    state.side_one.get_active().ability = Abilities::POISONHEAL;
    state.side_one.get_active().status = PokemonStatus::TOXIC;
    state.side_one.get_active().hp = 50;

    let mut incoming_instructions = StateInstructions::default();
    add_end_of_turn_instructions(
        &mut state,
        &mut incoming_instructions,
        &SideReference::SideOne,
    );

    let expected_instructions = branch(100.0, vec![
            Instruction::ChangeSideCondition(ChangeSideConditionInstruction {
                side_ref: SideReference::SideOne,
                side_condition: PokemonSideCondition::ToxicCount,
                amount: 1,
            }),
            Instruction::Heal(HealInstruction::new(
                SideReference::SideOne,
                0,
                12,
            )),
        ]);

    check(&expected_instructions, &incoming_instructions);
}

#[test]
fn test_poisonheal_does_not_overheal() {
    let mut state = State::default();
    state.side_one.get_active().ability = Abilities::POISONHEAL;
    state.side_one.get_active().status = PokemonStatus::POISON;
    state.side_one.get_active().hp = 99;

    let mut incoming_instructions = StateInstructions::default();
    add_end_of_turn_instructions(
        &mut state,
        &mut incoming_instructions,
        &SideReference::SideOne,
    );

    let expected_instructions = branch(100.0, vec![Instruction::Heal(HealInstruction::new(
            SideReference::SideOne,
            0,
            1,
        ))]);

    check(&expected_instructions, &incoming_instructions);
}

#[test]
fn test_poisonheal_does_nothing_at_maxhp() {
    let mut state = State::default();
    state.side_one.get_active().ability = Abilities::POISONHEAL;
    state.side_one.get_active().status = PokemonStatus::POISON;

    let mut incoming_instructions = StateInstructions::default();
    add_end_of_turn_instructions(
        &mut state,
        &mut incoming_instructions,
        &SideReference::SideOne,
    );

    let expected_instructions = branch(100.0, vec![]);

    check(&expected_instructions, &incoming_instructions);
}

#[test]
fn test_speedboost() {
    let mut state = State::default();
    state.side_one.get_active().ability = Abilities::SPEEDBOOST;

    let mut incoming_instructions = StateInstructions::default();
    add_end_of_turn_instructions(
        &mut state,
        &mut incoming_instructions,
        &SideReference::SideOne,
    );

    let expected_instructions = branch(100.0, vec![Instruction::Boost(BoostInstruction::new(
            SideReference::SideOne,
            0,
            PokemonBoostableStat::Speed,
            1,
        ))]);

    check(&expected_instructions, &incoming_instructions);
}

#[test]
fn test_speedboost_does_not_boost_beyond_6() {
    let mut state = State::default();
    state.side_one.get_active().ability = Abilities::SPEEDBOOST;
    state.side_one.get_active().speed_boost = 6;

    let mut incoming_instructions = StateInstructions::default();
    add_end_of_turn_instructions(
        &mut state,
        &mut incoming_instructions,
        &SideReference::SideOne,
    );

    let expected_instructions = branch(100.0, vec![]);

    check(&expected_instructions, &incoming_instructions);
}

#[test]
fn test_end_of_turn_poison_damage() {
    let mut state = State::default();
    state.side_one.get_active().status = PokemonStatus::POISON;

    let mut incoming_instructions = StateInstructions::default();
    add_end_of_turn_instructions(
        &mut state,
        &mut incoming_instructions,
        &SideReference::SideOne,
    );

    let expected_instructions = branch(100.0, vec![Instruction::Damage(DamageInstruction::new(
            SideReference::SideOne,
            0,
            12,
        ))]);

    check(&expected_instructions, &incoming_instructions);
}

#[test]
fn test_poison_damage_does_not_overkill() {
    let mut state = State::default();
    state.side_one.get_active().status = PokemonStatus::POISON;
    state.side_one.get_active().hp = 5;

    let mut incoming_instructions = StateInstructions::default();
    add_end_of_turn_instructions(
        &mut state,
        &mut incoming_instructions,
        &SideReference::SideOne,
    );

    let expected_instructions = branch(100.0, vec![Instruction::Damage(DamageInstruction::new(
            SideReference::SideOne,
            0,
            5,
        ))]);

    check(&expected_instructions, &incoming_instructions);
}

#[test]
fn test_end_of_turn_burn_damage() {
    let mut state = State::default();
    state.side_one.get_active().status = PokemonStatus::BURN;

    let mut incoming_instructions = StateInstructions::default();
    add_end_of_turn_instructions(
        &mut state,
        &mut incoming_instructions,
        &SideReference::SideOne,
    );

    let expected_instructions = branch(100.0, vec![Instruction::Damage(DamageInstruction::new(
            SideReference::SideOne,
            0,
            6,
        ))]);

    check(&expected_instructions, &incoming_instructions);
}

#[test]
fn test_burn_damage_does_not_overkill() {
    let mut state = State::default();
    state.side_one.get_active().status = PokemonStatus::BURN;
    state.side_one.get_active().hp = 5;

    let mut incoming_instructions = StateInstructions::default();
    add_end_of_turn_instructions(
        &mut state,
        &mut incoming_instructions,
        &SideReference::SideOne,
    );

    let expected_instructions = branch(100.0, vec![Instruction::Damage(DamageInstruction::new(
            SideReference::SideOne,
            0,
            5,
        ))]);

    check(&expected_instructions, &incoming_instructions);
}

#[test]
fn test_burn_damage_ignored_if_has_magicguard() {
    let mut state = State::default();
    state.side_one.get_active().status = PokemonStatus::BURN;
    state.side_one.get_active().ability = Abilities::MAGICGUARD;
    state.side_one.get_active().hp = 5;

    let mut incoming_instructions = StateInstructions::default();
    add_end_of_turn_instructions(
        &mut state,
        &mut incoming_instructions,
        &SideReference::SideOne,
    );

    let expected_instructions = branch(100.0, vec![]);

    check(&expected_instructions, &incoming_instructions);
}

#[test]
fn test_first_toxic_damage() {
    let mut state = State::default();
    state.side_one.get_active().status = PokemonStatus::TOXIC;

    let mut incoming_instructions = StateInstructions::default();
    add_end_of_turn_instructions(
        &mut state,
        &mut incoming_instructions,
        &SideReference::SideOne,
    );

    let expected_instructions = branch(100.0, vec![
            Instruction::Damage(DamageInstruction::new(
                SideReference::SideOne,
                0,
                6,
            )),
            Instruction::ChangeSideCondition(ChangeSideConditionInstruction {
                side_ref: SideReference::SideOne,
                side_condition: PokemonSideCondition::ToxicCount,
                amount: 1,
            }),
        ]);

    check(&expected_instructions, &incoming_instructions);
}

#[test]
fn test_leechseed_sap() {
    let mut state = State::default();
    state
        .side_one
        .get_active().volatile_statuses
        .insert(PokemonVolatileStatus::LEECHSEED);
    state.side_one.get_active().hp = 50;
    state.side_two.get_active().hp = 50;

    let mut incoming_instructions = StateInstructions::default();
    add_end_of_turn_instructions(
        &mut state,
        &mut incoming_instructions,
        &SideReference::SideOne,
    );

    let expected_instructions = branch(100.0, vec![
            Instruction::Damage(DamageInstruction::new(
                SideReference::SideOne,
                0,
                12,
            )),
            Instruction::Heal(HealInstruction::new(
                SideReference::SideTwo,
                0,
                12,
            )),
        ]);

    check(&expected_instructions, &incoming_instructions);
}

#[test]
fn test_leechseed_sap_does_not_heal_if_receiving_side_is_maxhp() {
    let mut state = State::default();
    state
        .side_one
        .get_active().volatile_statuses
        .insert(PokemonVolatileStatus::LEECHSEED);
    state.side_one.get_active().hp = 50;
    state.side_two.get_active().hp = 100;

    let mut incoming_instructions = StateInstructions::default();
    add_end_of_turn_instructions(
        &mut state,
        &mut incoming_instructions,
        &SideReference::SideOne,
    );

    let expected_instructions = branch(100.0, vec![Instruction::Damage(DamageInstruction::new(
            SideReference::SideOne,
            0,
            12,
        ))]);

    check(&expected_instructions, &incoming_instructions);
}

#[test]
fn test_leechseed_sap_does_not_overkill() {
    let mut state = State::default();
    state
        .side_one
        .get_active().volatile_statuses
        .insert(PokemonVolatileStatus::LEECHSEED);
    state.side_one.get_active().hp = 5;
    state.side_two.get_active().hp = 50;

    let mut incoming_instructions = StateInstructions::default();
    add_end_of_turn_instructions(
        &mut state,
        &mut incoming_instructions,
        &SideReference::SideOne,
    );

    let expected_instructions = branch(100.0, vec![
            Instruction::Damage(DamageInstruction::new(
                SideReference::SideOne,
                0,
                5,
            )),
            Instruction::Heal(HealInstruction::new(
                SideReference::SideTwo,
                0,
                5,
            )),
        ]);

    check(&expected_instructions, &incoming_instructions);
}

#[test]
fn test_leechseed_sap_does_not_overheal() {
    let mut state = State::default();
    state
        .side_one
        .get_active().volatile_statuses
        .insert(PokemonVolatileStatus::LEECHSEED);
    state.side_one.get_active().hp = 50;
    state.side_two.get_active().hp = 95;

    let mut incoming_instructions = StateInstructions::default();
    add_end_of_turn_instructions(
        &mut state,
        &mut incoming_instructions,
        &SideReference::SideOne,
    );

    let expected_instructions = branch(100.0, vec![
            Instruction::Damage(DamageInstruction::new(
                SideReference::SideOne,
                0,
                12,
            )),
            Instruction::Heal(HealInstruction::new(
                SideReference::SideTwo,
                0,
                5,
            )),
        ]);

    check(&expected_instructions, &incoming_instructions);
}

#[test]
fn test_protect_volatile_being_removed() {
    let mut state = State::default();
    state
        .side_one
        .get_active().volatile_statuses
        .insert(PokemonVolatileStatus::PROTECT);

    let mut incoming_instructions = StateInstructions::default();
    add_end_of_turn_instructions(
        &mut state,
        &mut incoming_instructions,
        &SideReference::SideOne,
    );

    let expected_instructions = branch(100.0, vec![
            Instruction::RemoveVolatileStatus(RemoveVolatileStatusInstruction::new(
                SideReference::SideOne,
                0,
                PokemonVolatileStatus::PROTECT,
            )),
            Instruction::ChangeSideCondition(ChangeSideConditionInstruction {
                side_ref: SideReference::SideOne,
                side_condition: PokemonSideCondition::Protect,
                amount: 1,
            }),
        ]);

    check(&expected_instructions, &incoming_instructions);
}

#[test]
fn test_protect_side_condition_being_removed() {
    let mut state = State::default();
    state.side_one.side_conditions.protect = 2;

    let mut incoming_instructions = StateInstructions::default();
    add_end_of_turn_instructions(
        &mut state,
        &mut incoming_instructions,
        &SideReference::SideOne,
    );

    let expected_instructions = branch(100.0, vec![Instruction::ChangeSideCondition(
            ChangeSideConditionInstruction {
                side_ref: SideReference::SideOne,
                side_condition: PokemonSideCondition::Protect,
                amount: -2,
            },
        )]);

    check(&expected_instructions, &incoming_instructions);
}

#[test]
fn test_roost_vs_removal() {
    let mut state = State::default();
    state
        .side_one
        .get_active().volatile_statuses
        .insert(PokemonVolatileStatus::ROOST);

    let mut incoming_instructions = StateInstructions::default();
    add_end_of_turn_instructions(
        &mut state,
        &mut incoming_instructions,
        &SideReference::SideOne,
    );

    let expected_instructions = branch(100.0, vec![Instruction::RemoveVolatileStatus(
            RemoveVolatileStatusInstruction::new(
                SideReference::SideOne,
                0,
                PokemonVolatileStatus::ROOST,
            ),
        )]);

    check(&expected_instructions, &incoming_instructions);
}

#[test]
fn test_partiallytrapped_damage() {
    let mut state = State::default();
    state
        .side_one
        .get_active().volatile_statuses
        .insert(PokemonVolatileStatus::PARTIALLYTRAPPED);

    let mut incoming_instructions = StateInstructions::default();
    add_end_of_turn_instructions(
        &mut state,
        &mut incoming_instructions,
        &SideReference::SideOne,
    );
    let expected_instructions = branch(100.0, vec![Instruction::Damage(DamageInstruction::new(
            SideReference::SideOne,
            0,
            12,
        ))]);

    check(&expected_instructions, &incoming_instructions);
}

#[test]
fn test_saltcure_on_water_type_damage() {
    let mut state = State::default();
    state.side_one.get_active().types.0 = PokemonType::WATER;
    state
        .side_one
        .get_active().volatile_statuses
        .insert(PokemonVolatileStatus::SALTCURE);

    let mut incoming_instructions = StateInstructions::default();
    add_end_of_turn_instructions(
        &mut state,
        &mut incoming_instructions,
        &SideReference::SideOne,
    );

    let expected_instructions = branch(100.0, vec![Instruction::Damage(DamageInstruction::new(
            SideReference::SideOne,
            0,
            25,
        ))]);

    check(&expected_instructions, &incoming_instructions);
}
