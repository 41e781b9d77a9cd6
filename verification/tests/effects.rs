use poke_engine::choices::{Choice, MoveTarget, VolatileStatus};
use poke_engine::effects::{
    generate_instructions_from_side_conditions, get_instructions_from_boosts, get_instructions_from_heal,
    get_instructions_from_status_effects, get_instructions_from_volatile_statuses, Boost, Heal,
    SideCondition, StatBoosts, Status,
};
use poke_engine::instruction::{
    ApplyVolatileStatusInstruction, BoostInstruction, ChangeItemInstruction, ChangeSideConditionInstruction,
    ChangeStatusInstruction, HealInstruction, Instruction, StateInstructions,
};
use poke_engine::items::Items;
use poke_engine::state::{
    PokemonBoostableStat, PokemonIndex, PokemonSideCondition, PokemonStatus, PokemonVolatileStatus,
    SideReference, State, Weather,
};

fn spikes_from(_attacker: SideReference) -> SideCondition {
    SideCondition { target: MoveTarget::Opponent, condition: PokemonSideCondition::Spikes }
}

#[test]
fn spikes_gain_a_layer_on_the_foes_side() {
    let mut state = State::default();
    let mut ins = StateInstructions::new();
    generate_instructions_from_side_conditions(&mut state, &spikes_from(SideReference::SideOne), &SideReference::SideOne, &mut ins);
    assert_eq!(state.side_two.side_conditions.spikes, 1);
    assert_eq!(
        ins.instruction_list,
        vec![Instruction::ChangeSideCondition(ChangeSideConditionInstruction {
            side_ref: SideReference::SideTwo,
            side_condition: PokemonSideCondition::Spikes,
            amount: 1,
        })]
    );
}

#[test]
fn spikes_stop_at_three_layers() {
    let mut state = State::default();
    state.side_two.side_conditions.spikes = 3;
    let before = state.clone();
    let mut ins = StateInstructions::new();
    generate_instructions_from_side_conditions(&mut state, &spikes_from(SideReference::SideOne), &SideReference::SideOne, &mut ins);
    assert!(ins.instruction_list.is_empty());
    assert_eq!(state, before);
}

#[test]
fn aurora_veil_needs_hail_or_snow() {
    let veil = SideCondition { target: MoveTarget::User, condition: PokemonSideCondition::AuroraVeil };
    let mut state = State::default();
    let mut ins = StateInstructions::new();
    generate_instructions_from_side_conditions(&mut state, &veil, &SideReference::SideOne, &mut ins);
    assert!(ins.instruction_list.is_empty());

    state.weather.weather_type = Weather::SNOW;
    generate_instructions_from_side_conditions(&mut state, &veil, &SideReference::SideOne, &mut ins);
    assert_eq!(state.side_one.side_conditions.aurora_veil, 5);
    assert_eq!(
        ins.instruction_list,
        vec![Instruction::ChangeSideCondition(ChangeSideConditionInstruction {
            side_ref: SideReference::SideOne,
            side_condition: PokemonSideCondition::AuroraVeil,
            amount: 5,
        })]
    );
}

#[test]
fn tailwind_lasts_four_turns_and_is_not_renewed() {
    let tailwind = SideCondition { target: MoveTarget::User, condition: PokemonSideCondition::Tailwind };
    let mut state = State::default();
    let mut ins = StateInstructions::new();
    generate_instructions_from_side_conditions(&mut state, &tailwind, &SideReference::SideTwo, &mut ins);
    assert_eq!(state.side_two.side_conditions.tailwind, 4);
    generate_instructions_from_side_conditions(&mut state, &tailwind, &SideReference::SideTwo, &mut ins);
    assert_eq!(ins.instruction_list.len(), 1);
}

#[test]
fn a_volatile_status_is_not_given_twice() {
    let mut state = State::default();
    let confuse = VolatileStatus { target: MoveTarget::Opponent, volatile_status: PokemonVolatileStatus::CONFUSION };
    let mut ins = StateInstructions::new();
    get_instructions_from_volatile_statuses(&mut state, &Choice::default(), &confuse, &SideReference::SideOne, &mut ins);
    get_instructions_from_volatile_statuses(&mut state, &Choice::default(), &confuse, &SideReference::SideOne, &mut ins);
    assert_eq!(
        ins.instruction_list,
        vec![Instruction::ApplyVolatileStatus(ApplyVolatileStatusInstruction {
            side_ref: SideReference::SideTwo,
            slot: 0,
            volatile_status: PokemonVolatileStatus::CONFUSION,
        })]
    );
    assert!(state.side_two.get_active_immutable().volatile_statuses.contains(&PokemonVolatileStatus::CONFUSION));
}

#[test]
fn a_status_lands_unless_a_lum_berry_takes_it() {
    let burn = Status { target: MoveTarget::Opponent, status: PokemonStatus::BURN };
    let mut state = State::default();
    let mut ins = StateInstructions::new();
    get_instructions_from_status_effects(&mut state, &burn, &SideReference::SideOne, &mut ins, false);
    assert_eq!(state.side_two.get_active_immutable().status, PokemonStatus::BURN);
    assert_eq!(
        ins.instruction_list,
        vec![Instruction::ChangeStatus(ChangeStatusInstruction {
            side_ref: SideReference::SideTwo,
            pokemon_index: PokemonIndex::P0,
            old_status: PokemonStatus::NONE,
            new_status: PokemonStatus::BURN,
        })]
    );

    let mut state = State::default();
    state.side_two.get_active().item = Items::LUMBERRY;
    let mut ins = StateInstructions::new();
    get_instructions_from_status_effects(&mut state, &burn, &SideReference::SideOne, &mut ins, false);
    assert_eq!(state.side_two.get_active_immutable().status, PokemonStatus::NONE);
    assert_eq!(state.side_two.get_active_immutable().item, Items::NONE);
    assert_eq!(
        ins.instruction_list,
        vec![Instruction::ChangeItem(ChangeItemInstruction {
            side_ref: SideReference::SideTwo,
            slot: 0,
            current_item: Items::LUMBERRY,
            new_item: Items::NONE,
        })]
    );
}

#[test]
fn a_status_does_nothing_through_a_substitute() {
    let burn = Status { target: MoveTarget::Opponent, status: PokemonStatus::BURN };
    let mut state = State::default();
    let mut ins = StateInstructions::new();
    get_instructions_from_status_effects(&mut state, &burn, &SideReference::SideOne, &mut ins, true);
    assert!(ins.instruction_list.is_empty());
    assert_eq!(state, State::default());
}

#[test]
fn a_heal_stops_at_full_health() {
    let half = Heal { target: MoveTarget::User, numerator: 1, denominator: 2 };
    let mut state = State::default();
    state.side_one.get_active().hp = 80;
    let mut ins = StateInstructions::new();
    get_instructions_from_heal(&mut state, &half, &SideReference::SideOne, &mut ins);
    assert_eq!(state.side_one.get_active_immutable().hp, 100);
    assert_eq!(
        ins.instruction_list,
        vec![Instruction::Heal(HealInstruction { side_ref: SideReference::SideOne, slot: 0, heal_amount: 20 })]
    );
    get_instructions_from_heal(&mut state, &half, &SideReference::SideOne, &mut ins);
    assert_eq!(ins.instruction_list.len(), 1);
}

#[test]
fn a_negative_heal_does_not_overkill() {
    let recoil = Heal { target: MoveTarget::User, numerator: -1, denominator: 2 };
    let mut state = State::default();
    state.side_one.get_active().hp = 30;
    let mut ins = StateInstructions::new();
    get_instructions_from_heal(&mut state, &recoil, &SideReference::SideOne, &mut ins);
    assert_eq!(state.side_one.get_active_immutable().hp, 0);
    assert_eq!(
        ins.instruction_list,
        vec![Instruction::Heal(HealInstruction { side_ref: SideReference::SideOne, slot: 0, heal_amount: -30 })]
    );
}

#[test]
fn boosts_apply_stat_by_stat_and_stop_at_six() {
    let dance = Boost {
        target: MoveTarget::User,
        boosts: StatBoosts { attack: 1, defense: 0, special_attack: 0, special_defense: 0, speed: 1, accuracy: 0 },
    };
    let mut state = State::default();
    state.side_one.get_active().attack_boost = 6;
    let mut ins = StateInstructions::new();
    get_instructions_from_boosts(&mut state, &dance, &SideReference::SideOne, &mut ins);
    assert_eq!(state.side_one.get_active_immutable().speed_boost, 1);
    assert_eq!(
        ins.instruction_list,
        vec![Instruction::Boost(BoostInstruction {
            side_ref: SideReference::SideOne,
            slot: 0,
            stat: PokemonBoostableStat::Speed,
            amount: 1,
        })]
    );
}
