//! The end of a turn: the weather, terrain and side conditions run down, and
//! the weather, statuses, items, abilities and volatile statuses act on the
//! active Pokemon.

use vstd::prelude::*;
use crate::abilities::Abilities;
use crate::choices::MoveTarget;
use crate::checks::trunc_div;
use crate::generate::{
    apply_volatile, change_duration, change_side_condition, damage_active, fraction_of_maxhp,
    heal_active, immune_to_status, min32, min_int, remove_volatile, set_active_status,
    spec_add_volatile_step, spec_condition_step, spec_damage_step, spec_duration_step,
    spec_heal_step, spec_immune_to_status, spec_remove_step, spec_status_step,
};
use crate::instruction::{
    BoostInstruction, ChangeItemInstruction, ChangeTerrain, ChangeWeather,
    DecrementFutureSightInstruction, DecrementWishInstruction, Instruction, StateInstructions,
    ToggleTrickRoomInstruction, spec_grows, spec_step, spec_then,
};
use crate::items::Items;
use crate::state::{
    Pokemon, PokemonBoostableStat, PokemonSideCondition, PokemonStatus, PokemonType, PokemonVolatileStatus,
    Side, SideReference, State, StateTerrain, StateTrickRoom, StateWeather, Terrain, Weather,
};

verus! {

/// The first of the boosts `boosts` (attack, defense, special attack,
/// special defense, speed) that `p` has.
pub open spec fn spec_first_of(p: Pokemon, boosts: Seq<PokemonVolatileStatus>) -> Option<PokemonVolatileStatus> {
    let v = p.volatile_statuses;
    if v.spec_contains(boosts[0]) {
        Some(boosts[0])
    } else if v.spec_contains(boosts[1]) {
        Some(boosts[1])
    } else if v.spec_contains(boosts[2]) {
        Some(boosts[2])
    } else if v.spec_contains(boosts[3]) {
        Some(boosts[3])
    } else if v.spec_contains(boosts[4]) {
        Some(boosts[4])
    } else {
        None
    }
}

pub open spec fn spec_protosynthesis_boosts() -> Seq<PokemonVolatileStatus> {
    seq![PokemonVolatileStatus::PROTOSYNTHESISATK, PokemonVolatileStatus::PROTOSYNTHESISDEF,
        PokemonVolatileStatus::PROTOSYNTHESISSPA, PokemonVolatileStatus::PROTOSYNTHESISSPD,
        PokemonVolatileStatus::PROTOSYNTHESISSPE]
}

pub open spec fn spec_quarkdrive_boosts() -> Seq<PokemonVolatileStatus> {
    seq![PokemonVolatileStatus::QUARKDRIVEATK, PokemonVolatileStatus::QUARKDRIVEDEF,
        PokemonVolatileStatus::QUARKDRIVESPA, PokemonVolatileStatus::QUARKDRIVESPD,
        PokemonVolatileStatus::QUARKDRIVESPE]
}

fn first_of(p: &Pokemon, boosts: &[PokemonVolatileStatus; 5]) -> (r: Option<PokemonVolatileStatus>)
    ensures r == spec_first_of(*p, boosts@),
{
    let vs = &p.volatile_statuses;
    if vs.contains(&boosts[0]) {
        Some(boosts[0])
    } else if vs.contains(&boosts[1]) {
        Some(boosts[1])
    } else if vs.contains(&boosts[2]) {
        Some(boosts[2])
    } else if vs.contains(&boosts[3]) {
        Some(boosts[3])
    } else if vs.contains(&boosts[4]) {
        Some(boosts[4])
    } else {
        None
    }
}

/// The first of the Protosynthesis boosts that the active Pokemon of `side` has.
pub fn get_active_protosynthesis(side: &Side) -> (r: Option<PokemonVolatileStatus>)
    ensures r == spec_first_of(side.spec_active(), spec_protosynthesis_boosts()),
{
    let boosts = [PokemonVolatileStatus::PROTOSYNTHESISATK, PokemonVolatileStatus::PROTOSYNTHESISDEF,
        PokemonVolatileStatus::PROTOSYNTHESISSPA, PokemonVolatileStatus::PROTOSYNTHESISSPD,
        PokemonVolatileStatus::PROTOSYNTHESISSPE];
    assert(boosts@ =~= spec_protosynthesis_boosts());
    first_of(side.get_active_immutable(), &boosts)
}

/// The first of the Quark Drive boosts that the active Pokemon of `side` has.
pub fn get_active_quarkdrive(side: &Side) -> (r: Option<PokemonVolatileStatus>)
    ensures r == spec_first_of(side.spec_active(), spec_quarkdrive_boosts()),
{
    let boosts = [PokemonVolatileStatus::QUARKDRIVEATK, PokemonVolatileStatus::QUARKDRIVEDEF,
        PokemonVolatileStatus::QUARKDRIVESPA, PokemonVolatileStatus::QUARKDRIVESPD,
        PokemonVolatileStatus::QUARKDRIVESPE];
    assert(boosts@ =~= spec_quarkdrive_boosts());
    first_of(side.get_active_immutable(), &boosts)
}

/// Nothing happens: the state as it is, and no instruction.
pub open spec fn spec_nothing(s: State) -> (State, Seq<Instruction>) {
    (s, seq![])
}

/// The Booster Energy of the active Pokemon of `r` is used up, and its record.
#[verifier::opaque]
pub open spec fn spec_booster_step(s: State, r: SideReference) -> (State, Seq<Instruction>) {
    (s.spec_with_active(r, Pokemon { item: Items::NONE, ..s.spec_active(r) }),
        seq![Instruction::ChangeItem(ChangeItemInstruction {
            side_ref: r, slot: 0, current_item: Items::BOOSTERENERGY, new_item: Items::NONE })])
}

fn use_booster(state: &mut State, side_ref: SideReference, instructions: &mut StateInstructions)
    ensures
        spec_step(*old(state), *old(instructions), *final(state), *final(instructions), spec_booster_step(*old(state), side_ref)),
{
    reveal(spec_booster_step);
    let ghost l0 = instructions.instruction_list@;
    instructions.push(Instruction::ChangeItem(ChangeItemInstruction::new(
        side_ref, 0, Items::BOOSTERENERGY, Items::NONE)));
    state.get_side(&side_ref).get_active().item = Items::NONE;
    assert(instructions.instruction_list@ =~= l0 + seq![Instruction::ChangeItem(ChangeItemInstruction {
        side_ref, slot: 0, current_item: Items::BOOSTERENERGY, new_item: Items::NONE })]);
}

/// The boost that the paradox ability of `p` (Quark Drive if `quark`, else
/// Protosynthesis) has given it, if it has that ability and such a boost.
pub open spec fn spec_paradox_boost(p: Pokemon, quark: bool) -> Option<PokemonVolatileStatus> {
    if quark {
        if p.ability == Abilities::QUARKDRIVE { spec_first_of(p, spec_quarkdrive_boosts()) } else { None }
    } else {
        if p.ability == Abilities::PROTOSYNTHESIS { spec_first_of(p, spec_protosynthesis_boosts()) } else { None }
    }
}

/// What ends on the active Pokemon of `r` when the field condition that fed
/// its paradox ability ends: its boost, or in its place the Booster Energy it
/// holds.
#[verifier::opaque]
pub open spec fn spec_paradox_end(s: State, r: SideReference, quark: bool) -> (State, Seq<Instruction>) {
    let p = s.spec_active(r);
    match spec_paradox_boost(p, quark) {
        Some(vs) => if p.item == Items::BOOSTERENERGY { spec_booster_step(s, r) } else { spec_remove_step(s, r, vs) },
        None => spec_nothing(s),
    }
}

fn paradox_boost(p: &Pokemon, quark: bool) -> (r: Option<PokemonVolatileStatus>)
    ensures r == spec_paradox_boost(*p, quark),
{
    let boosts = if quark {
        [PokemonVolatileStatus::QUARKDRIVEATK, PokemonVolatileStatus::QUARKDRIVEDEF,
            PokemonVolatileStatus::QUARKDRIVESPA, PokemonVolatileStatus::QUARKDRIVESPD,
            PokemonVolatileStatus::QUARKDRIVESPE]
    } else {
        [PokemonVolatileStatus::PROTOSYNTHESISATK, PokemonVolatileStatus::PROTOSYNTHESISDEF,
            PokemonVolatileStatus::PROTOSYNTHESISSPA, PokemonVolatileStatus::PROTOSYNTHESISSPD,
            PokemonVolatileStatus::PROTOSYNTHESISSPE]
    };
    assert(boosts@ =~= (if quark { spec_quarkdrive_boosts() } else { spec_protosynthesis_boosts() }));
    let ability = if quark { Abilities::QUARKDRIVE } else { Abilities::PROTOSYNTHESIS };
    if p.ability == ability { first_of(p, &boosts) } else { None }
}

#[verifier::spinoff_prover]
fn end_paradox_boost(state: &mut State, side_ref: SideReference, quark: bool, instructions: &mut StateInstructions)
    ensures
        spec_step(*old(state), *old(instructions), *final(state), *final(instructions),
            spec_paradox_end(*old(state), side_ref, quark)),
{
    reveal(spec_paradox_end);
    let ghost l0 = instructions.instruction_list@;
    let p = *state.get_side_immutable(&side_ref).get_active_immutable();
    match paradox_boost(&p, quark) {
        Some(vs) => {
            if p.item == Items::BOOSTERENERGY {
                use_booster(state, side_ref, instructions);
            } else {
                remove_volatile(state, side_ref, vs, instructions);
            }
        },
        None => {
            assert(instructions.instruction_list@ =~= l0 + seq![]);
        },
    }
}

/// The end of the sun: a Protosynthesis boost it fed ends, on side `first`
/// and then on the other.
#[verifier::opaque]
pub open spec fn spec_weather_end(s: State, first: SideReference) -> (State, Seq<Instruction>) {
    if s.weather.weather_type == Weather::SUN {
        let t1 = spec_paradox_end(s, first, false);
        let t2 = spec_paradox_end(t1.0, first.spec_other(), false);
        spec_then(t1, t2)
    } else {
        spec_nothing(s)
    }
}

/// When the sun ends, a Protosynthesis boost it fed ends too, on the side
/// that moved first and then on the other (see `spec_weather_end`).
#[verifier::spinoff_prover]
pub fn on_weather_end(state: &mut State, first: SideReference, instructions: &mut StateInstructions)
    ensures
        spec_step(*old(state), *old(instructions), *final(state), *final(instructions), spec_weather_end(*old(state), first)),
{
    reveal(spec_weather_end);
    let ghost l0 = instructions.instruction_list@;
    let ghost s0 = *state;
    if state.weather.weather_type == Weather::SUN {
        end_paradox_boost(state, first, false, instructions);
        end_paradox_boost(state, first.get_other_side(), false, instructions);
    }
    assert(instructions.instruction_list@ =~= l0 + spec_weather_end(s0, first).1);
}

/// The end of the electric terrain: a Quark Drive boost it fed ends, on side
/// `first` and then on the other.
#[verifier::opaque]
pub open spec fn spec_terrain_end(s: State, first: SideReference) -> (State, Seq<Instruction>) {
    if s.terrain.terrain_type == Terrain::ELECTRICTERRAIN {
        let t1 = spec_paradox_end(s, first, true);
        let t2 = spec_paradox_end(t1.0, first.spec_other(), true);
        spec_then(t1, t2)
    } else {
        spec_nothing(s)
    }
}

/// When the electric terrain ends, a Quark Drive boost it fed ends too, on the
/// side that moved first and then on the other (see `spec_terrain_end`).
#[verifier::spinoff_prover]
pub fn on_terrain_end(state: &mut State, first: SideReference, instructions: &mut StateInstructions)
    ensures
        spec_step(*old(state), *old(instructions), *final(state), *final(instructions), spec_terrain_end(*old(state), first)),
{
    reveal(spec_terrain_end);
    let ghost l0 = instructions.instruction_list@;
    let ghost s0 = *state;
    if state.terrain.terrain_type == Terrain::ELECTRICTERRAIN {
        end_paradox_boost(state, first, true, instructions);
        end_paradox_boost(state, first.get_other_side(), true, instructions);
    }
    assert(instructions.instruction_list@ =~= l0 + spec_terrain_end(s0, first).1);
}

/// The weather loses a turn; when it had one left it ends: the end of the sun
/// acts, and the weather becomes none.
#[verifier::opaque]
pub open spec fn spec_run_down_weather(s: State, first: SideReference) -> (State, Seq<Instruction>) {
    let turns = s.weather.turns_remaining;
    if turns > 0 && s.weather.weather_type != Weather::NONE {
        let t1 = (State { weather: StateWeather { turns_remaining: (turns - 1) as i8, ..s.weather }, ..s },
            seq![Instruction::DecrementWeatherTurnsRemaining]);
        if turns == 1 {
            let t2 = spec_weather_end(t1.0, first);
            let s2 = t2.0;
            let t3 = (State { weather: StateWeather { weather_type: Weather::NONE, ..s2.weather }, ..s2 },
                seq![Instruction::ChangeWeather(ChangeWeather {
                    new_weather: Weather::NONE,
                    new_weather_turns_remaining: 0,
                    previous_weather: s2.weather.weather_type,
                    previous_weather_turns_remaining: 0,
                })]);
            spec_then(spec_then(t1, t2), t3)
        } else {
            t1
        }
    } else {
        spec_nothing(s)
    }
}

#[verifier::spinoff_prover]
#[verifier::rlimit(100)]
fn run_down_weather(state: &mut State, first: SideReference, instructions: &mut StateInstructions)
    ensures
        spec_step(*old(state), *old(instructions), *final(state), *final(instructions), spec_run_down_weather(*old(state), first)),
{
    reveal(spec_run_down_weather);
    let ghost l0 = instructions.instruction_list@;
    let ghost s0 = *state;
    let turns = state.weather.turns_remaining;
    if turns > 0 && state.weather.weather_type != Weather::NONE {
        instructions.push(Instruction::DecrementWeatherTurnsRemaining);
        state.weather.turns_remaining = turns - 1;
        if turns == 1 {
            on_weather_end(state, first, instructions);
            instructions.push(Instruction::ChangeWeather(ChangeWeather {
                new_weather: Weather::NONE,
                new_weather_turns_remaining: 0,
                previous_weather: state.weather.weather_type,
                previous_weather_turns_remaining: 0,
            }));
            state.weather.weather_type = Weather::NONE;
        }
    }
    assert(instructions.instruction_list@ =~= l0 + spec_run_down_weather(s0, first).1);
}

/// Trick Room loses a turn, and ends when it had one left.
#[verifier::opaque]
pub open spec fn spec_run_down_trick_room(s: State) -> (State, Seq<Instruction>) {
    let turns = s.trick_room.turns_remaining;
    if turns > 0 && s.trick_room.active {
        let s1 = State { trick_room: StateTrickRoom { turns_remaining: (turns - 1) as i8, ..s.trick_room }, ..s };
        if turns == 1 {
            (State { trick_room: StateTrickRoom { active: false, ..s1.trick_room }, ..s1 },
                seq![Instruction::DecrementTrickRoomTurnsRemaining, Instruction::ToggleTrickRoom(ToggleTrickRoomInstruction {
                    currently_active: true,
                    new_trickroom_turns_remaining: 0,
                    previous_trickroom_turns_remaining: 0,
                })])
        } else {
            (s1, seq![Instruction::DecrementTrickRoomTurnsRemaining])
        }
    } else {
        spec_nothing(s)
    }
}

#[verifier::spinoff_prover]
#[verifier::rlimit(100)]
fn run_down_trick_room(state: &mut State, instructions: &mut StateInstructions)
    ensures
        spec_step(*old(state), *old(instructions), *final(state), *final(instructions), spec_run_down_trick_room(*old(state))),
{
    reveal(spec_run_down_trick_room);
    let ghost l0 = instructions.instruction_list@;
    let ghost s0 = *state;
    let turns = state.trick_room.turns_remaining;
    if turns > 0 && state.trick_room.active {
        instructions.push(Instruction::DecrementTrickRoomTurnsRemaining);
        state.trick_room.turns_remaining = turns - 1;
        if turns == 1 {
            instructions.push(Instruction::ToggleTrickRoom(ToggleTrickRoomInstruction {
                currently_active: true,
                new_trickroom_turns_remaining: 0,
                previous_trickroom_turns_remaining: 0,
            }));
            state.trick_room.active = false;
        }
    }
    assert(instructions.instruction_list@ =~= l0 + spec_run_down_trick_room(s0).1);
}

/// Grassy terrain heals the grounded, living active Pokemon of `r` a
/// sixteenth of its maximum hit points, as far as they go.
#[verifier::opaque]
pub open spec fn spec_grassy_heal(s: State, r: SideReference) -> (State, Seq<Instruction>) {
    let p = s.spec_active(r);
    let heal = min_int(trunc_div(p.maxhp * 1, 16), p.maxhp - p.hp);
    if p.hp != 0 && p.spec_is_grounded() && heal > 0 {
        spec_heal_step(s, r, heal as i16)
    } else {
        spec_nothing(s)
    }
}

#[verifier::spinoff_prover]
fn grassy_heal(state: &mut State, side_ref: SideReference, instructions: &mut StateInstructions)
    ensures
        spec_step(*old(state), *old(instructions), *final(state), *final(instructions), spec_grassy_heal(*old(state), side_ref)),
{
    reveal(spec_grassy_heal);
    let ghost l0 = instructions.instruction_list@;
    let p = *state.get_side_immutable(&side_ref).get_active_immutable();
    let heal = min32(fraction_of_maxhp(&p, 1, 16), p.maxhp as i32 - p.hp as i32);
    if p.hp != 0 && p.is_grounded() && heal > 0 {
        heal_active(state, side_ref, heal as i16, instructions);
    } else {
        assert(instructions.instruction_list@ =~= l0 + seq![]);
    }
}

/// Grassy terrain heals side `first`, then the other.
#[verifier::opaque]
pub open spec fn spec_grassy_heals(s: State, first: SideReference) -> (State, Seq<Instruction>) {
    let h1 = spec_grassy_heal(s, first);
    spec_then(h1, spec_grassy_heal(h1.0, first.spec_other()))
}

fn grassy_heals(state: &mut State, first: SideReference, instructions: &mut StateInstructions)
    ensures
        spec_step(*old(state), *old(instructions), *final(state), *final(instructions), spec_grassy_heals(*old(state), first)),
{
    reveal(spec_grassy_heals);
    let ghost l0 = instructions.instruction_list@;
    let ghost s0 = *state;
    grassy_heal(state, first, instructions);
    grassy_heal(state, first.get_other_side(), instructions);
    assert(instructions.instruction_list@ =~= l0 + spec_grassy_heals(s0, first).1);
}

/// The terrain, which had `turns` turns left, loses one; with none left it
/// ends: the end of the electric terrain acts, and the terrain becomes none.
#[verifier::opaque]
pub open spec fn spec_count_down_terrain(s: State, turns: i8, first: SideReference) -> (State, Seq<Instruction>) {
    let t1 = (State { terrain: StateTerrain { turns_remaining: (turns - 1) as i8, ..s.terrain }, ..s },
        seq![Instruction::DecrementTerrainTurnsRemaining]);
    if turns == 1 {
        let t2 = spec_terrain_end(t1.0, first);
        let s2 = t2.0;
        let t3 = (State { terrain: StateTerrain { terrain_type: Terrain::NONE, ..s2.terrain }, ..s2 },
            seq![Instruction::ChangeTerrain(ChangeTerrain {
                new_terrain: Terrain::NONE,
                new_terrain_turns_remaining: 0,
                previous_terrain: s2.terrain.terrain_type,
                previous_terrain_turns_remaining: 0,
            })]);
        spec_then(spec_then(t1, t2), t3)
    } else {
        t1
    }
}

#[verifier::spinoff_prover]
#[verifier::rlimit(60)]
fn count_down_terrain(state: &mut State, turns: i8, first: SideReference, instructions: &mut StateInstructions)
    requires
        turns > 0,
    ensures
        spec_step(*old(state), *old(instructions), *final(state), *final(instructions), spec_count_down_terrain(*old(state), turns, first)),
{
    reveal(spec_count_down_terrain);
    let ghost l0 = instructions.instruction_list@;
    let ghost s0 = *state;
    instructions.push(Instruction::DecrementTerrainTurnsRemaining);
    state.terrain.turns_remaining = turns - 1;
    if turns == 1 {
        on_terrain_end(state, first, instructions);
        let previous = state.terrain.terrain_type;
        instructions.push(Instruction::ChangeTerrain(ChangeTerrain {
            new_terrain: Terrain::NONE,
            new_terrain_turns_remaining: 0,
            previous_terrain: previous,
            previous_terrain_turns_remaining: 0,
        }));
        state.terrain.terrain_type = Terrain::NONE;
    }
    assert(instructions.instruction_list@ =~= l0 + spec_count_down_terrain(s0, turns, first).1);
}

/// The terrain loses a turn, grassy terrain first healing both sides (see
/// `spec_count_down_terrain` for its end).
#[verifier::opaque]
pub open spec fn spec_run_down_terrain(s: State, first: SideReference) -> (State, Seq<Instruction>) {
    let turns = s.terrain.turns_remaining;
    let terrain = s.terrain.terrain_type;
    if turns > 0 && terrain != Terrain::NONE {
        let t1 = if terrain == Terrain::GRASSYTERRAIN { spec_grassy_heals(s, first) } else { spec_nothing(s) };
        spec_then(t1, spec_count_down_terrain(t1.0, turns, first))
    } else {
        spec_nothing(s)
    }
}

#[verifier::spinoff_prover]
#[verifier::rlimit(60)]
fn run_down_terrain(state: &mut State, first: SideReference, instructions: &mut StateInstructions)
    ensures
        spec_step(*old(state), *old(instructions), *final(state), *final(instructions), spec_run_down_terrain(*old(state), first)),
{
    reveal(spec_run_down_terrain);
    let ghost l0 = instructions.instruction_list@;
    let ghost s0 = *state;
    let turns = state.terrain.turns_remaining;
    let terrain = state.terrain.terrain_type;
    if turns > 0 && terrain != Terrain::NONE {
        if terrain == Terrain::GRASSYTERRAIN {
            grassy_heals(state, first, instructions);
        }
        count_down_terrain(state, turns, first, instructions);
    }
    assert(instructions.instruction_list@ =~= l0 + spec_run_down_terrain(s0, first).1);
}

/// Side condition `c` of `r` loses a turn if it has any.
#[verifier::opaque]
pub open spec fn spec_run_down_condition(s: State, r: SideReference, c: PokemonSideCondition) -> (State, Seq<Instruction>) {
    if s.spec_side(r).side_conditions.spec_get(c) > 0 {
        spec_condition_step(s, r, c, -1i8)
    } else {
        spec_nothing(s)
    }
}

fn run_down_condition(state: &mut State, side_ref: SideReference, c: PokemonSideCondition, instructions: &mut StateInstructions)
    ensures
        spec_step(*old(state), *old(instructions), *final(state), *final(instructions), spec_run_down_condition(*old(state), side_ref, c)),
{
    reveal(spec_run_down_condition);
    let ghost l0 = instructions.instruction_list@;
    if state.get_side_immutable(&side_ref).side_conditions.get(c) > 0 {
        change_side_condition(state, side_ref, c, -1, instructions);
    } else {
        assert(instructions.instruction_list@ =~= l0 + seq![]);
    }
}

/// Reflect, Light Screen, Aurora Veil and Tailwind on `r` lose a turn, in
/// that order.
#[verifier::opaque]
pub open spec fn spec_run_down_side_conditions(s: State, r: SideReference) -> (State, Seq<Instruction>) {
    let t1 = spec_run_down_condition(s, r, PokemonSideCondition::Reflect);
    let t2 = spec_run_down_condition(t1.0, r, PokemonSideCondition::LightScreen);
    let t3 = spec_run_down_condition(t2.0, r, PokemonSideCondition::AuroraVeil);
    let t4 = spec_run_down_condition(t3.0, r, PokemonSideCondition::Tailwind);
    spec_then(spec_then(spec_then(t1, t2), t3), t4)
}

#[verifier::spinoff_prover]
#[verifier::rlimit(60)]
fn run_down_side_conditions(state: &mut State, side_ref: SideReference, instructions: &mut StateInstructions)
    ensures
        spec_step(*old(state), *old(instructions), *final(state), *final(instructions), spec_run_down_side_conditions(*old(state), side_ref)),
{
    reveal(spec_run_down_side_conditions);
    let ghost l0 = instructions.instruction_list@;
    let ghost s0 = *state;
    run_down_condition(state, side_ref, PokemonSideCondition::Reflect, instructions);
    run_down_condition(state, side_ref, PokemonSideCondition::LightScreen, instructions);
    run_down_condition(state, side_ref, PokemonSideCondition::AuroraVeil, instructions);
    run_down_condition(state, side_ref, PokemonSideCondition::Tailwind, instructions);
    assert(instructions.instruction_list@ =~= l0 + spec_run_down_side_conditions(s0, side_ref).1);
}

/// Hail hurts all but Ice types, Magic Guard, Overcoat and Ice Body; a
/// sandstorm all but Ground, Steel and Rock types, Magic Guard and Overcoat:
/// a sixteenth of the maximum hit points, as far as there are; nothing to a
/// fainted Pokemon.
#[verifier::opaque]
pub open spec fn spec_weather_damage(s: State, r: SideReference) -> (State, Seq<Instruction>) {
    let p = s.spec_active(r);
    let hurt = spec_damage_step(s, r, spec_share(p, 1, 16, p.hp as int));
    if s.spec_weather_is_active(Weather::HAIL) {
        if p.hp == 0 || p.ability == Abilities::MAGICGUARD || p.ability == Abilities::OVERCOAT
            || p.ability == Abilities::ICEBODY || p.spec_has_type(PokemonType::ICE) {
            spec_nothing(s)
        } else {
            hurt
        }
    } else if s.spec_weather_is_active(Weather::SAND) {
        if p.hp == 0 || p.ability == Abilities::MAGICGUARD || p.ability == Abilities::OVERCOAT
            || p.spec_has_type(PokemonType::GROUND) || p.spec_has_type(PokemonType::STEEL)
            || p.spec_has_type(PokemonType::ROCK) {
            spec_nothing(s)
        } else {
            hurt
        }
    } else {
        spec_nothing(s)
    }
}

#[verifier::spinoff_prover]
#[verifier::rlimit(60)]
fn weather_damage(state: &mut State, side_ref: SideReference, instructions: &mut StateInstructions)
    ensures
        spec_step(*old(state), *old(instructions), *final(state), *final(instructions), spec_weather_damage(*old(state), side_ref)),
{
    reveal(spec_weather_damage);
    let ghost l0 = instructions.instruction_list@;
    let p = *state.get_side_immutable(&side_ref).get_active_immutable();
    let hail = state.weather_is_active(&Weather::HAIL);
    let sand = state.weather_is_active(&Weather::SAND);
    let spared = if hail {
        p.hp == 0 || p.ability == Abilities::MAGICGUARD || p.ability == Abilities::OVERCOAT
            || p.ability == Abilities::ICEBODY || p.has_type(&PokemonType::ICE)
    } else if sand {
        p.hp == 0 || p.ability == Abilities::MAGICGUARD || p.ability == Abilities::OVERCOAT
            || p.has_type(&PokemonType::GROUND) || p.has_type(&PokemonType::STEEL)
            || p.has_type(&PokemonType::ROCK)
    } else {
        true
    };
    if !spared {
        let dmg = min32(fraction_of_maxhp(&p, 1, 16), p.hp as i32);
        damage_active(state, side_ref, dmg as i16, instructions);
    } else {
        assert(instructions.instruction_list@ =~= l0 + seq![]);
    }
}

/// A pending Future Sight of `r` loses a turn.
#[verifier::opaque]
pub open spec fn spec_run_down_future_sight(s: State, r: SideReference) -> (State, Seq<Instruction>) {
    let side = s.spec_side(r);
    let fs = side.future_sight;
    if fs.0 > 0 {
        (s.spec_set_side(r, Side { future_sight: ((fs.0 - 1) as i8, fs.1), ..side }),
            seq![Instruction::DecrementFutureSight(DecrementFutureSightInstruction { side_ref: r })])
    } else {
        spec_nothing(s)
    }
}

#[verifier::spinoff_prover]
#[verifier::rlimit(60)]
fn run_down_future_sight(state: &mut State, side_ref: SideReference, instructions: &mut StateInstructions)
    ensures
        spec_step(*old(state), *old(instructions), *final(state), *final(instructions), spec_run_down_future_sight(*old(state), side_ref)),
{
    reveal(spec_run_down_future_sight);
    let ghost l0 = instructions.instruction_list@;
    let fs = state.get_side_immutable(&side_ref).future_sight;
    if fs.0 > 0 {
        let side = state.get_side(&side_ref);
        side.future_sight = (fs.0 - 1, fs.1);
        instructions.push(Instruction::DecrementFutureSight(DecrementFutureSightInstruction { side_ref }));
        assert(instructions.instruction_list@ =~= l0 + seq![Instruction::DecrementFutureSight(DecrementFutureSightInstruction { side_ref })]);
    } else {
        assert(instructions.instruction_list@ =~= l0 + seq![]);
    }
}

/// A pending Wish of `r` loses a turn; landing now, it first heals the
/// living, hurt active Pokemon by what it stored, as far as it can take.
#[verifier::opaque]
pub open spec fn spec_run_down_wish(s: State, r: SideReference) -> (State, Seq<Instruction>) {
    let wish = s.spec_side(r).wish;
    let p = s.spec_active(r);
    if wish.0 > 0 {
        let t1 = if wish.0 == 1 && 0 < p.hp && p.hp < p.maxhp {
            spec_heal_step(s, r, min_int(p.maxhp - p.hp, wish.1 as int) as i16)
        } else {
            spec_nothing(s)
        };
        let s1 = t1.0;
        spec_then(t1, (s1.spec_set_side(r, Side { wish: ((wish.0 - 1) as i8, wish.1), ..s1.spec_side(r) }),
            seq![Instruction::DecrementWish(DecrementWishInstruction { side_ref: r })]))
    } else {
        spec_nothing(s)
    }
}

#[verifier::spinoff_prover]
#[verifier::rlimit(60)]
fn run_down_wish(state: &mut State, side_ref: SideReference, instructions: &mut StateInstructions)
    ensures
        spec_step(*old(state), *old(instructions), *final(state), *final(instructions), spec_run_down_wish(*old(state), side_ref)),
{
    reveal(spec_run_down_wish);
    let ghost l0 = instructions.instruction_list@;
    let ghost s0 = *state;
    let wish = state.get_side_immutable(&side_ref).wish;
    let p = *state.get_side_immutable(&side_ref).get_active_immutable();
    if wish.0 > 0 {
        if wish.0 == 1 && 0 < p.hp && p.hp < p.maxhp {
            let heal = min32(p.maxhp as i32 - p.hp as i32, wish.1 as i32);
            heal_active(state, side_ref, heal as i16, instructions);
        }
        state.get_side(&side_ref).wish = (wish.0 - 1, wish.1);
        instructions.push(Instruction::DecrementWish(DecrementWishInstruction { side_ref }));
    }
    assert(instructions.instruction_list@ =~= l0 + spec_run_down_wish(s0, side_ref).1);
}

/// `d`, or 1 if it is less.
pub open spec fn spec_at_least_one(d: int) -> i16 {
    (if d < 1 { 1 } else { d }) as i16
}

/// Burn, poison and bad poison hurt the living active Pokemon of `r` (not one
/// with Magic Guard), at least one hit point and no more than it has: a
/// sixteenth for a burn (a thirty-second with Heatproof), an eighth for
/// poison, and for bad poison a sixteenth times one more than the toxic
/// count (at most sixteen), which then goes up by one. Poison Heal takes no
/// poison damage, unless the foe's Neutralizing Gas stops it from bad poison.
#[verifier::opaque]
pub open spec fn spec_status_damage(s: State, r: SideReference) -> (State, Seq<Instruction>) {
    let side = s.spec_side(r);
    let count = side.side_conditions.toxic_count;
    let p = side.spec_active();
    let other = s.spec_side(r.spec_other()).spec_active();
    if p.hp == 0 || p.ability == Abilities::MAGICGUARD {
        spec_nothing(s)
    } else if p.status == PokemonStatus::BURN {
        let den: int = if p.ability == Abilities::HEATPROOF { 32 } else { 16 };
        spec_damage_step(s, r, spec_at_least_one(min_int(trunc_div(p.maxhp * 1, den), p.hp as int)))
    } else if p.status == PokemonStatus::POISON && p.ability != Abilities::POISONHEAL {
        spec_damage_step(s, r, spec_at_least_one(min_int(trunc_div(p.maxhp * 1, 8), p.hp as int)))
    } else if p.status == PokemonStatus::TOXIC {
        let t1 = if p.ability != Abilities::POISONHEAL || other.ability == Abilities::NEUTRALIZINGGAS {
            let stacks: int = if count < 0 { 0 } else if count > 15 { 16 } else { count + 1 };
            spec_damage_step(s, r, spec_at_least_one(min_int(trunc_div(p.maxhp * stacks, 16), p.hp as int)))
        } else {
            spec_nothing(s)
        };
        spec_then(t1, spec_condition_step(t1.0, r, PokemonSideCondition::ToxicCount, 1i8))
    } else {
        spec_nothing(s)
    }
}

#[verifier::spinoff_prover]
#[verifier::rlimit(60)]
fn status_damage(state: &mut State, side_ref: SideReference, instructions: &mut StateInstructions)
    ensures
        spec_step(*old(state), *old(instructions), *final(state), *final(instructions), spec_status_damage(*old(state), side_ref)),
{
    reveal(spec_status_damage);
    let ghost l0 = instructions.instruction_list@;
    let ghost s0 = *state;
    let side = state.get_side_immutable(&side_ref);
    let toxic_count = side.side_conditions.toxic_count;
    let p = *side.get_active_immutable();
    let other = *state.get_side_immutable(&side_ref.get_other_side()).get_active_immutable();
    if p.hp == 0 || p.ability == Abilities::MAGICGUARD {
    } else if p.status == PokemonStatus::BURN {
        let den: i32 = if p.ability == Abilities::HEATPROOF { 32 } else { 16 };
        let dmg = min32(fraction_of_maxhp(&p, 1, den), p.hp as i32);
        let dmg = if dmg < 1 { 1 } else { dmg };
        damage_active(state, side_ref, dmg as i16, instructions);
    } else if p.status == PokemonStatus::POISON && p.ability != Abilities::POISONHEAL {
        let dmg = min32(fraction_of_maxhp(&p, 1, 8), p.hp as i32);
        let dmg = if dmg < 1 { 1 } else { dmg };
        damage_active(state, side_ref, dmg as i16, instructions);
    } else if p.status == PokemonStatus::TOXIC {
        if p.ability != Abilities::POISONHEAL || other.ability == Abilities::NEUTRALIZINGGAS {
            let stacks: i32 = if toxic_count < 0 { 0 } else if toxic_count > 15 { 16 } else { toxic_count as i32 + 1 };
            let dmg = min32(fraction_of_maxhp(&p, stacks, 16), p.hp as i32);
            let dmg = if dmg < 1 { 1 } else { dmg };
            damage_active(state, side_ref, dmg as i16, instructions);
        }
        change_side_condition(state, side_ref, PokemonSideCondition::ToxicCount, 1, instructions);
    }
    assert(instructions.instruction_list@ =~= l0 + spec_status_damage(s0, side_ref).1);
}

/// The share `num / den` of the maximum hit points of `p`, no more than `cap`.
pub open spec fn spec_share(p: Pokemon, num: int, den: int, cap: int) -> i16 {
    min_int(trunc_div(p.maxhp * num, den), cap) as i16
}

/// The held item of the active Pokemon of `r` at the end of the turn:
/// Leftovers heal a sixteenth of the maximum hit points, as far as they go;
/// Black Sludge does the same for a Poison type and takes a sixteenth, as far
/// as there is, from any other; a Flame Orb burns and a Toxic Orb badly
/// poisons the holder unless it is immune.
#[verifier::opaque]
pub open spec fn spec_item_end_of_turn(s: State, r: SideReference) -> (State, Seq<Instruction>) {
    let p = s.spec_active(r);
    let heal = spec_heal_step(s, r, spec_share(p, 1, 16, p.maxhp - p.hp));
    if p.item == Items::LEFTOVERS {
        if p.hp < p.maxhp { heal } else { spec_nothing(s) }
    } else if p.item == Items::BLACKSLUDGE {
        if p.spec_has_type(PokemonType::POISON) {
            if p.hp < p.maxhp { heal } else { spec_nothing(s) }
        } else {
            spec_damage_step(s, r, spec_share(p, 1, 16, p.hp as int))
        }
    } else if p.item == Items::FLAMEORB {
        if !spec_immune_to_status(s, MoveTarget::User, r, PokemonStatus::BURN) {
            spec_status_step(s, r, PokemonStatus::BURN)
        } else {
            spec_nothing(s)
        }
    } else if p.item == Items::TOXICORB {
        if !spec_immune_to_status(s, MoveTarget::User, r, PokemonStatus::TOXIC) {
            spec_status_step(s, r, PokemonStatus::TOXIC)
        } else {
            spec_nothing(s)
        }
    } else {
        spec_nothing(s)
    }
}

/// What the held item of the active Pokemon of `side_ref` does at the end of
/// the turn (see `spec_item_end_of_turn`).
#[verifier::spinoff_prover]
#[verifier::rlimit(60)]
pub fn item_end_of_turn(state: &mut State, side_ref: &SideReference, instructions: &mut StateInstructions)
    ensures
        spec_step(*old(state), *old(instructions), *final(state), *final(instructions), spec_item_end_of_turn(*old(state), *side_ref)),
{
    reveal(spec_item_end_of_turn);
    let ghost l0 = instructions.instruction_list@;
    let ghost s0 = *state;
    let p = *state.get_side_immutable(side_ref).get_active_immutable();
    if p.item == Items::LEFTOVERS {
        if p.hp < p.maxhp {
            let heal = min32(fraction_of_maxhp(&p, 1, 16), p.maxhp as i32 - p.hp as i32);
            heal_active(state, *side_ref, heal as i16, instructions);
        }
    } else if p.item == Items::BLACKSLUDGE {
        if p.has_type(&PokemonType::POISON) {
            if p.hp < p.maxhp {
                let heal = min32(fraction_of_maxhp(&p, 1, 16), p.maxhp as i32 - p.hp as i32);
                heal_active(state, *side_ref, heal as i16, instructions);
            }
        } else {
            let dmg = min32(fraction_of_maxhp(&p, 1, 16), p.hp as i32);
            damage_active(state, *side_ref, dmg as i16, instructions);
        }
    } else if p.item == Items::FLAMEORB {
        if !immune_to_status(state, &MoveTarget::User, side_ref, &PokemonStatus::BURN) {
            set_active_status(state, *side_ref, PokemonStatus::BURN, instructions);
        }
    } else if p.item == Items::TOXICORB {
        if !immune_to_status(state, &MoveTarget::User, side_ref, &PokemonStatus::TOXIC) {
            set_active_status(state, *side_ref, PokemonStatus::TOXIC, instructions);
        }
    }
    assert(instructions.instruction_list@ =~= l0 + spec_item_end_of_turn(s0, *side_ref).1);
}

/// The ability of the active Pokemon of `r` at the end of the turn: Speed
/// Boost raises its speed a stage below +6; Poison Heal heals a poisoned, hurt
/// holder an eighth of its maximum hit points, as far as they go.
#[verifier::opaque]
pub open spec fn spec_ability_end_of_turn(s: State, r: SideReference) -> (State, Seq<Instruction>) {
    let p = s.spec_active(r);
    if p.ability == Abilities::SPEEDBOOST {
        if p.speed_boost < 6 {
            (s.spec_with_active(r, Pokemon { speed_boost: (p.speed_boost + 1) as i8, ..p }),
                seq![Instruction::Boost(BoostInstruction { side_ref: r, slot: 0, stat: PokemonBoostableStat::Speed, amount: 1 })])
        } else {
            spec_nothing(s)
        }
    } else if p.ability == Abilities::POISONHEAL
        && p.hp < p.maxhp && (p.status == PokemonStatus::POISON || p.status == PokemonStatus::TOXIC) {
        spec_heal_step(s, r, spec_share(p, 1, 8, p.maxhp - p.hp))
    } else {
        spec_nothing(s)
    }
}

/// What the ability of the active Pokemon of `side_ref` does at the end of the
/// turn (see `spec_ability_end_of_turn`).
#[verifier::spinoff_prover]
#[verifier::rlimit(60)]
pub fn ability_end_of_turn(state: &mut State, side_ref: &SideReference, instructions: &mut StateInstructions)
    ensures
        spec_step(*old(state), *old(instructions), *final(state), *final(instructions), spec_ability_end_of_turn(*old(state), *side_ref)),
{
    reveal(spec_ability_end_of_turn);
    let ghost l0 = instructions.instruction_list@;
    let ghost s0 = *state;
    let p = *state.get_side_immutable(side_ref).get_active_immutable();
    if p.ability == Abilities::SPEEDBOOST {
        if p.speed_boost < 6 {
            instructions.push(Instruction::Boost(BoostInstruction::new(*side_ref, 0, PokemonBoostableStat::Speed, 1)));
            state.get_side(side_ref).get_active().speed_boost = p.speed_boost + 1;
        }
    } else if p.ability == Abilities::POISONHEAL {
        if p.hp < p.maxhp && (p.status == PokemonStatus::POISON || p.status == PokemonStatus::TOXIC) {
            let heal = min32(fraction_of_maxhp(&p, 1, 8), p.maxhp as i32 - p.hp as i32);
            heal_active(state, *side_ref, heal as i16, instructions);
        }
    }
    assert(instructions.instruction_list@ =~= l0 + spec_ability_end_of_turn(s0, *side_ref).1);
}

/// Leech Seed on the active Pokemon of `r`: an eighth of its maximum hit
/// points, as far as it has them, taken from it and given to the foe, as far
/// as the foe can take; nothing if either has fainted or it has Magic Guard.
#[verifier::opaque]
pub open spec fn spec_leech_seed(s: State, r: SideReference) -> (State, Seq<Instruction>) {
    let p = s.spec_active(r);
    let o = s.spec_active(r.spec_other());
    if p.volatile_statuses.spec_contains(PokemonVolatileStatus::LEECHSEED)
        && p.hp != 0 && o.hp != 0 && p.ability != Abilities::MAGICGUARD {
        let sapped = spec_share(p, 1, 8, p.hp as int);
        let recovered = min_int(sapped as int, o.maxhp - o.hp);
        let t1 = spec_damage_step(s, r, sapped);
        if recovered > 0 {
            spec_then(t1, spec_heal_step(t1.0, r.spec_other(), recovered as i16))
        } else {
            t1
        }
    } else {
        spec_nothing(s)
    }
}

#[verifier::spinoff_prover]
#[verifier::rlimit(60)]
fn leech_seed(state: &mut State, side_ref: SideReference, instructions: &mut StateInstructions)
    ensures
        spec_step(*old(state), *old(instructions), *final(state), *final(instructions), spec_leech_seed(*old(state), side_ref)),
{
    reveal(spec_leech_seed);
    let ghost l0 = instructions.instruction_list@;
    let ghost s0 = *state;
    let other_ref = side_ref.get_other_side();
    let p = *state.get_side_immutable(&side_ref).get_active_immutable();
    let o = *state.get_side_immutable(&other_ref).get_active_immutable();
    if p.volatile_statuses.contains(&PokemonVolatileStatus::LEECHSEED)
        && p.hp != 0 && o.hp != 0 && p.ability != Abilities::MAGICGUARD {
        let sapped = min32(fraction_of_maxhp(&p, 1, 8), p.hp as i32);
        damage_active(state, side_ref, sapped as i16, instructions);
        let recovered = min32(sapped, o.maxhp as i32 - o.hp as i32);
        if recovered > 0 {
            heal_active(state, other_ref, recovered as i16, instructions);
        }
    }
    assert(instructions.instruction_list@ =~= l0 + spec_leech_seed(s0, side_ref).1);
}

/// Slow Start counts down its turns and ends after its last.
#[verifier::opaque]
pub open spec fn spec_count_slow_start(s: State, r: SideReference) -> (State, Seq<Instruction>) {
    let p = s.spec_active(r);
    if p.volatile_statuses.spec_contains(PokemonVolatileStatus::SLOWSTART) {
        let t1 = spec_duration_step(s, r, PokemonVolatileStatus::SLOWSTART, -1i8);
        if p.volatile_status_durations.slowstart == 1 {
            spec_then(t1, spec_remove_step(t1.0, r, PokemonVolatileStatus::SLOWSTART))
        } else {
            t1
        }
    } else {
        spec_nothing(s)
    }
}

#[verifier::spinoff_prover]
#[verifier::rlimit(100)]
fn count_slow_start(state: &mut State, side_ref: SideReference, instructions: &mut StateInstructions)
    ensures
        spec_step(*old(state), *old(instructions), *final(state), *final(instructions), spec_count_slow_start(*old(state), side_ref)),
{
    reveal(spec_count_slow_start);
    let ghost l0 = instructions.instruction_list@;
    let ghost s0 = *state;
    let p = *state.get_side_immutable(&side_ref).get_active_immutable();
    if p.volatile_statuses.contains(&PokemonVolatileStatus::SLOWSTART) {
        change_duration(state, side_ref, PokemonVolatileStatus::SLOWSTART, -1, instructions);
        if p.volatile_status_durations.slowstart == 1 {
            remove_volatile(state, side_ref, PokemonVolatileStatus::SLOWSTART, instructions);
        }
    }
    assert(instructions.instruction_list@ =~= l0 + spec_count_slow_start(s0, side_ref).1);
}

/// A locked move counts its turns; after its third it ends and leaves the
/// Pokemon confused.
#[verifier::opaque]
pub open spec fn spec_count_locked_move(s: State, r: SideReference) -> (State, Seq<Instruction>) {
    let p = s.spec_active(r);
    if p.volatile_statuses.spec_contains(PokemonVolatileStatus::LOCKEDMOVE) {
        if p.volatile_status_durations.lockedmove == 2 {
            let t1 = spec_duration_step(s, r, PokemonVolatileStatus::LOCKEDMOVE, -2i8);
            let t2 = spec_then(t1, spec_remove_step(t1.0, r, PokemonVolatileStatus::LOCKEDMOVE));
            if !p.volatile_statuses.spec_contains(PokemonVolatileStatus::CONFUSION) {
                spec_then(t2, spec_add_volatile_step(t2.0, r, PokemonVolatileStatus::CONFUSION))
            } else {
                t2
            }
        } else {
            spec_duration_step(s, r, PokemonVolatileStatus::LOCKEDMOVE, 1i8)
        }
    } else {
        spec_nothing(s)
    }
}

#[verifier::spinoff_prover]
#[verifier::rlimit(100)]
fn count_locked_move(state: &mut State, side_ref: SideReference, instructions: &mut StateInstructions)
    ensures
        spec_step(*old(state), *old(instructions), *final(state), *final(instructions), spec_count_locked_move(*old(state), side_ref)),
{
    reveal(spec_count_locked_move);
    let ghost l0 = instructions.instruction_list@;
    let ghost s0 = *state;
    let p = *state.get_side_immutable(&side_ref).get_active_immutable();
    if p.volatile_statuses.contains(&PokemonVolatileStatus::LOCKEDMOVE) {
        if p.volatile_status_durations.lockedmove == 2 {
            change_duration(state, side_ref, PokemonVolatileStatus::LOCKEDMOVE, -2, instructions);
            remove_volatile(state, side_ref, PokemonVolatileStatus::LOCKEDMOVE, instructions);
            if !p.volatile_statuses.contains(&PokemonVolatileStatus::CONFUSION) {
                apply_volatile(state, side_ref, PokemonVolatileStatus::CONFUSION, instructions);
            }
        } else {
            change_duration(state, side_ref, PokemonVolatileStatus::LOCKEDMOVE, 1, instructions);
        }
    }
    assert(instructions.instruction_list@ =~= l0 + spec_count_locked_move(s0, side_ref).1);
}

/// Yawn counts its first turn; on its second it ends and puts a Pokemon
/// without a status to sleep.
#[verifier::opaque]
pub open spec fn spec_count_yawn(s: State, r: SideReference) -> (State, Seq<Instruction>) {
    let p = s.spec_active(r);
    if p.volatile_statuses.spec_contains(PokemonVolatileStatus::YAWN) {
        if p.volatile_status_durations.yawn == 0 {
            spec_duration_step(s, r, PokemonVolatileStatus::YAWN, 1i8)
        } else if p.volatile_status_durations.yawn == 1 {
            let t1 = spec_remove_step(s, r, PokemonVolatileStatus::YAWN);
            let t2 = spec_then(t1, spec_duration_step(t1.0, r, PokemonVolatileStatus::YAWN, -1i8));
            if p.status == PokemonStatus::NONE {
                spec_then(t2, spec_status_step(t2.0, r, PokemonStatus::SLEEP))
            } else {
                t2
            }
        } else {
            spec_nothing(s)
        }
    } else {
        spec_nothing(s)
    }
}

#[verifier::spinoff_prover]
#[verifier::rlimit(100)]
fn count_yawn(state: &mut State, side_ref: SideReference, instructions: &mut StateInstructions)
    ensures
        spec_step(*old(state), *old(instructions), *final(state), *final(instructions), spec_count_yawn(*old(state), side_ref)),
{
    reveal(spec_count_yawn);
    let ghost l0 = instructions.instruction_list@;
    let ghost s0 = *state;
    let p = *state.get_side_immutable(&side_ref).get_active_immutable();
    if p.volatile_statuses.contains(&PokemonVolatileStatus::YAWN) {
        if p.volatile_status_durations.yawn == 0 {
            change_duration(state, side_ref, PokemonVolatileStatus::YAWN, 1, instructions);
        } else if p.volatile_status_durations.yawn == 1 {
            remove_volatile(state, side_ref, PokemonVolatileStatus::YAWN, instructions);
            change_duration(state, side_ref, PokemonVolatileStatus::YAWN, -1, instructions);
            if p.status == PokemonStatus::NONE {
                set_active_status(state, side_ref, PokemonStatus::SLEEP, instructions);
            }
        }
    }
    assert(instructions.instruction_list@ =~= l0 + spec_count_yawn(s0, side_ref).1);
}

/// One step of Perish Song: the count `from` becomes `to`.
#[verifier::opaque]
pub open spec fn spec_perish_step(s: State, r: SideReference, from: PokemonVolatileStatus, to: PokemonVolatileStatus) -> (State, Seq<Instruction>) {
    if s.spec_active(r).volatile_statuses.spec_contains(from) {
        let t1 = spec_remove_step(s, r, from);
        spec_then(t1, spec_add_volatile_step(t1.0, r, to))
    } else {
        spec_nothing(s)
    }
}

fn perish_step(state: &mut State, side_ref: SideReference, from: PokemonVolatileStatus, to: PokemonVolatileStatus,
    instructions: &mut StateInstructions)
    ensures
        spec_step(*old(state), *old(instructions), *final(state), *final(instructions), spec_perish_step(*old(state), side_ref, from, to)),
{
    reveal(spec_perish_step);
    let ghost l0 = instructions.instruction_list@;
    let ghost s0 = *state;
    if state.get_side_immutable(&side_ref).get_active_immutable().volatile_statuses.contains(&from) {
        remove_volatile(state, side_ref, from, instructions);
        apply_volatile(state, side_ref, to, instructions);
    }
    assert(instructions.instruction_list@ =~= l0 + spec_perish_step(s0, side_ref, from, to).1);
}

/// Perish Song: its last count faints the Pokemon, and every other count goes
/// down by one.
#[verifier::opaque]
pub open spec fn spec_count_perish(s: State, r: SideReference) -> (State, Seq<Instruction>) {
    let p = s.spec_active(r);
    let t1 = if p.volatile_statuses.spec_contains(PokemonVolatileStatus::PERISH1) {
        spec_damage_step(s, r, p.hp)
    } else {
        spec_nothing(s)
    };
    let t2 = spec_perish_step(t1.0, r, PokemonVolatileStatus::PERISH2, PokemonVolatileStatus::PERISH1);
    let t3 = spec_perish_step(t2.0, r, PokemonVolatileStatus::PERISH3, PokemonVolatileStatus::PERISH2);
    let t4 = spec_perish_step(t3.0, r, PokemonVolatileStatus::PERISH4, PokemonVolatileStatus::PERISH3);
    spec_then(spec_then(spec_then(t1, t2), t3), t4)
}

#[verifier::spinoff_prover]
#[verifier::rlimit(60)]
fn count_perish_and_clear(state: &mut State, side_ref: SideReference, instructions: &mut StateInstructions)
    ensures
        spec_step(*old(state), *old(instructions), *final(state), *final(instructions), spec_count_perish(*old(state), side_ref)),
{
    reveal(spec_count_perish);
    let ghost l0 = instructions.instruction_list@;
    let ghost s0 = *state;
    let p = *state.get_side_immutable(&side_ref).get_active_immutable();
    if p.volatile_statuses.contains(&PokemonVolatileStatus::PERISH1) {
        damage_active(state, side_ref, p.hp, instructions);
    }
    perish_step(state, side_ref, PokemonVolatileStatus::PERISH2, PokemonVolatileStatus::PERISH1, instructions);
    perish_step(state, side_ref, PokemonVolatileStatus::PERISH3, PokemonVolatileStatus::PERISH2, instructions);
    perish_step(state, side_ref, PokemonVolatileStatus::PERISH4, PokemonVolatileStatus::PERISH3, instructions);
    assert(instructions.instruction_list@ =~= l0 + spec_count_perish(s0, side_ref).1);
}

/// Flinching and Roost end with the turn.
#[verifier::opaque]
pub open spec fn spec_clear_turn_volatiles(s: State, r: SideReference) -> (State, Seq<Instruction>) {
    let p = s.spec_active(r);
    let t1 = if p.volatile_statuses.spec_contains(PokemonVolatileStatus::FLINCH) {
        spec_remove_step(s, r, PokemonVolatileStatus::FLINCH)
    } else {
        spec_nothing(s)
    };
    let t2 = if p.volatile_statuses.spec_contains(PokemonVolatileStatus::ROOST) {
        spec_remove_step(t1.0, r, PokemonVolatileStatus::ROOST)
    } else {
        spec_nothing(t1.0)
    };
    spec_then(t1, t2)
}

#[verifier::spinoff_prover]
#[verifier::rlimit(100)]
fn clear_turn_volatiles(state: &mut State, side_ref: SideReference, instructions: &mut StateInstructions)
    ensures
        spec_step(*old(state), *old(instructions), *final(state), *final(instructions), spec_clear_turn_volatiles(*old(state), side_ref)),
{
    reveal(spec_clear_turn_volatiles);
    let ghost l0 = instructions.instruction_list@;
    let ghost s0 = *state;
    let p = *state.get_side_immutable(&side_ref).get_active_immutable();
    if p.volatile_statuses.contains(&PokemonVolatileStatus::FLINCH) {
        remove_volatile(state, side_ref, PokemonVolatileStatus::FLINCH, instructions);
    }
    if p.volatile_statuses.contains(&PokemonVolatileStatus::ROOST) {
        remove_volatile(state, side_ref, PokemonVolatileStatus::ROOST, instructions);
    }
    assert(instructions.instruction_list@ =~= l0 + spec_clear_turn_volatiles(s0, side_ref).1);
}

/// A binding move hurts the trapped Pokemon an eighth; then Salt Cure an
/// eighth, or a quarter of a Water or Steel type; each no more than it has.
#[verifier::opaque]
pub open spec fn spec_residual_volatile_damage(s: State, r: SideReference) -> (State, Seq<Instruction>) {
    let p = s.spec_active(r);
    let t1 = if p.volatile_statuses.spec_contains(PokemonVolatileStatus::PARTIALLYTRAPPED) {
        spec_damage_step(s, r, spec_share(p, 1, 8, p.hp as int))
    } else {
        spec_nothing(s)
    };
    let q = t1.0.spec_active(r);
    let den: int = if q.spec_has_type(PokemonType::WATER) || q.spec_has_type(PokemonType::STEEL) { 4 } else { 8 };
    let t2 = if q.volatile_statuses.spec_contains(PokemonVolatileStatus::SALTCURE) {
        spec_damage_step(t1.0, r, spec_share(q, 1, den, q.hp as int))
    } else {
        spec_nothing(t1.0)
    };
    spec_then(t1, t2)
}

#[verifier::spinoff_prover]
#[verifier::rlimit(60)]
fn residual_volatile_damage(state: &mut State, side_ref: SideReference, instructions: &mut StateInstructions)
    ensures
        spec_step(*old(state), *old(instructions), *final(state), *final(instructions), spec_residual_volatile_damage(*old(state), side_ref)),
{
    reveal(spec_residual_volatile_damage);
    let ghost l0 = instructions.instruction_list@;
    let ghost s0 = *state;
    let p = *state.get_side_immutable(&side_ref).get_active_immutable();
    if p.volatile_statuses.contains(&PokemonVolatileStatus::PARTIALLYTRAPPED) {
        let dmg = min32(fraction_of_maxhp(&p, 1, 8), p.hp as i32);
        damage_active(state, side_ref, dmg as i16, instructions);
    }
    let p = *state.get_side_immutable(&side_ref).get_active_immutable();
    if p.volatile_statuses.contains(&PokemonVolatileStatus::SALTCURE) {
        let den: i32 = if p.has_type(&PokemonType::WATER) || p.has_type(&PokemonType::STEEL) { 4 } else { 8 };
        let dmg = min32(fraction_of_maxhp(&p, 1, den), p.hp as i32);
        damage_active(state, side_ref, dmg as i16, instructions);
    }
    assert(instructions.instruction_list@ =~= l0 + spec_residual_volatile_damage(s0, side_ref).1);
}

/// The first protecting volatile status that `p` has, in the order Protect,
/// Baneful Bunker, Burning Bulwark, Spiky Shield, Silk Trap, Endure.
#[verifier::opaque]
pub open spec fn spec_first_protection(p: Pokemon) -> Option<PokemonVolatileStatus> {
    let v = p.volatile_statuses;
    if v.spec_contains(PokemonVolatileStatus::PROTECT) {
        Some(PokemonVolatileStatus::PROTECT)
    } else if v.spec_contains(PokemonVolatileStatus::BANEFULBUNKER) {
        Some(PokemonVolatileStatus::BANEFULBUNKER)
    } else if v.spec_contains(PokemonVolatileStatus::BURNINGBULWARK) {
        Some(PokemonVolatileStatus::BURNINGBULWARK)
    } else if v.spec_contains(PokemonVolatileStatus::SPIKYSHIELD) {
        Some(PokemonVolatileStatus::SPIKYSHIELD)
    } else if v.spec_contains(PokemonVolatileStatus::SILKTRAP) {
        Some(PokemonVolatileStatus::SILKTRAP)
    } else if v.spec_contains(PokemonVolatileStatus::ENDURE) {
        Some(PokemonVolatileStatus::ENDURE)
    } else {
        None
    }
}

fn first_protection(p: &Pokemon) -> (r: Option<PokemonVolatileStatus>)
    ensures r == spec_first_protection(*p),
{
    reveal(spec_first_protection);
    let v = &p.volatile_statuses;
    if v.contains(&PokemonVolatileStatus::PROTECT) {
        Some(PokemonVolatileStatus::PROTECT)
    } else if v.contains(&PokemonVolatileStatus::BANEFULBUNKER) {
        Some(PokemonVolatileStatus::BANEFULBUNKER)
    } else if v.contains(&PokemonVolatileStatus::BURNINGBULWARK) {
        Some(PokemonVolatileStatus::BURNINGBULWARK)
    } else if v.contains(&PokemonVolatileStatus::SPIKYSHIELD) {
        Some(PokemonVolatileStatus::SPIKYSHIELD)
    } else if v.contains(&PokemonVolatileStatus::SILKTRAP) {
        Some(PokemonVolatileStatus::SILKTRAP)
    } else if v.contains(&PokemonVolatileStatus::ENDURE) {
        Some(PokemonVolatileStatus::ENDURE)
    } else {
        None
    }
}

/// A protecting volatile status ends and counts one more consecutive use; a
/// side that did not protect this turn starts its count again at 0.
#[verifier::opaque]
pub open spec fn spec_end_protection(s: State, r: SideReference) -> (State, Seq<Instruction>) {
    match spec_first_protection(s.spec_active(r)) {
        Some(vs) => {
            let t1 = spec_remove_step(s, r, vs);
            spec_then(t1, spec_condition_step(t1.0, r, PokemonSideCondition::Protect, 1i8))
        },
        None => {
            let protect = s.spec_side(r).side_conditions.protect;
            if protect > 0 {
                spec_condition_step(s, r, PokemonSideCondition::Protect, (-protect) as i8)
            } else {
                spec_nothing(s)
            }
        },
    }
}

#[verifier::spinoff_prover]
#[verifier::rlimit(60)]
fn end_protection(state: &mut State, side_ref: SideReference, instructions: &mut StateInstructions)
    ensures
        spec_step(*old(state), *old(instructions), *final(state), *final(instructions), spec_end_protection(*old(state), side_ref)),
{
    reveal(spec_end_protection);
    let ghost l0 = instructions.instruction_list@;
    let ghost s0 = *state;
    let p = *state.get_side_immutable(&side_ref).get_active_immutable();
    if let Some(vs) = first_protection(&p) {
        remove_volatile(state, side_ref, vs, instructions);
        change_side_condition(state, side_ref, PokemonSideCondition::Protect, 1, instructions);
    } else {
        let protect = state.get_side_immutable(&side_ref).side_conditions.protect;
        if protect > 0 {
            change_side_condition(state, side_ref, PokemonSideCondition::Protect, -protect, instructions);
        }
    }
    assert(instructions.instruction_list@ =~= l0 + spec_end_protection(s0, side_ref).1);
}

/// Slow Start, a locked move and Yawn count their turns on the living active
/// Pokemon of `r`.
#[verifier::opaque]
pub open spec fn spec_count_volatile_turns(s: State, r: SideReference) -> (State, Seq<Instruction>) {
    if s.spec_active(r).hp == 0 {
        spec_nothing(s)
    } else {
        let t1 = spec_count_slow_start(s, r);
        let t2 = spec_count_locked_move(t1.0, r);
        let t3 = spec_count_yawn(t2.0, r);
        spec_then(spec_then(t1, t2), t3)
    }
}

#[verifier::spinoff_prover]
#[verifier::rlimit(100)]
fn count_volatile_turns(state: &mut State, side_ref: SideReference, instructions: &mut StateInstructions)
    ensures
        spec_step(*old(state), *old(instructions), *final(state), *final(instructions), spec_count_volatile_turns(*old(state), side_ref)),
{
    reveal(spec_count_volatile_turns);
    let ghost l0 = instructions.instruction_list@;
    let ghost s0 = *state;
    if state.get_side_immutable(&side_ref).get_active_immutable().hp != 0 {
        count_slow_start(state, side_ref, instructions);
        count_locked_move(state, side_ref, instructions);
        count_yawn(state, side_ref, instructions);
    }
    assert(instructions.instruction_list@ =~= l0 + spec_count_volatile_turns(s0, side_ref).1);
}

/// Perish Song, flinching, Roost, binding, Salt Cure and protection act on
/// the living active Pokemon of `r`, in that order.
#[verifier::opaque]
pub open spec fn spec_volatile_effects(s: State, r: SideReference) -> (State, Seq<Instruction>) {
    if s.spec_active(r).hp == 0 {
        spec_nothing(s)
    } else {
        let t1 = spec_count_perish(s, r);
        let t2 = spec_clear_turn_volatiles(t1.0, r);
        let t3 = spec_residual_volatile_damage(t2.0, r);
        let t4 = spec_end_protection(t3.0, r);
        spec_then(spec_then(spec_then(t1, t2), t3), t4)
    }
}

#[verifier::spinoff_prover]
#[verifier::rlimit(100)]
fn volatile_effects(state: &mut State, side_ref: SideReference, instructions: &mut StateInstructions)
    ensures
        spec_step(*old(state), *old(instructions), *final(state), *final(instructions), spec_volatile_effects(*old(state), side_ref)),
{
    reveal(spec_volatile_effects);
    let ghost l0 = instructions.instruction_list@;
    let ghost s0 = *state;
    if state.get_side_immutable(&side_ref).get_active_immutable().hp != 0 {
        count_perish_and_clear(state, side_ref, instructions);
        clear_turn_volatiles(state, side_ref, instructions);
        residual_volatile_damage(state, side_ref, instructions);
        end_protection(state, side_ref, instructions);
    }
    assert(instructions.instruction_list@ =~= l0 + spec_volatile_effects(s0, side_ref).1);
}

/// The item, then the ability, of the living active Pokemon of `r` act.
#[verifier::opaque]
pub open spec fn spec_items_and_abilities(s: State, r: SideReference) -> (State, Seq<Instruction>) {
    if s.spec_active(r).hp == 0 {
        spec_nothing(s)
    } else {
        let t1 = spec_item_end_of_turn(s, r);
        spec_then(t1, spec_ability_end_of_turn(t1.0, r))
    }
}

#[verifier::spinoff_prover]
#[verifier::rlimit(100)]
fn items_and_abilities(state: &mut State, side_ref: SideReference, instructions: &mut StateInstructions)
    ensures
        spec_step(*old(state), *old(instructions), *final(state), *final(instructions), spec_items_and_abilities(*old(state), side_ref)),
{
    reveal(spec_items_and_abilities);
    let ghost l0 = instructions.instruction_list@;
    let ghost s0 = *state;
    if state.get_side_immutable(&side_ref).get_active_immutable().hp != 0 {
        item_end_of_turn(state, &side_ref, instructions);
        ability_end_of_turn(state, &side_ref, instructions);
    }
    assert(instructions.instruction_list@ =~= l0 + spec_items_and_abilities(s0, side_ref).1);
}

/// The field runs down: the weather, Trick Room, the terrain, then the side
/// conditions of side `first` and of the other.
#[verifier::opaque]
pub open spec fn spec_field_phase(s: State, first: SideReference) -> (State, Seq<Instruction>) {
    let t1 = spec_run_down_weather(s, first);
    let t2 = spec_run_down_trick_room(t1.0);
    let t3 = spec_run_down_terrain(t2.0, first);
    let t4 = spec_run_down_side_conditions(t3.0, first);
    let t5 = spec_run_down_side_conditions(t4.0, first.spec_other());
    spec_then(spec_then(spec_then(spec_then(t1, t2), t3), t4), t5)
}

#[verifier::spinoff_prover]
#[verifier::rlimit(100)]
fn field_phase(state: &mut State, first: SideReference, instructions: &mut StateInstructions)
    ensures
        spec_step(*old(state), *old(instructions), *final(state), *final(instructions), spec_field_phase(*old(state), first)),
{
    reveal(spec_field_phase);
    let ghost l0 = instructions.instruction_list@;
    let ghost s0 = *state;
    run_down_weather(state, first, instructions);
    run_down_trick_room(state, instructions);
    run_down_terrain(state, first, instructions);
    run_down_side_conditions(state, first, instructions);
    run_down_side_conditions(state, first.get_other_side(), instructions);
    assert(instructions.instruction_list@ =~= l0 + spec_field_phase(s0, first).1);
}

/// Weather damage on side `first` and on the other, then their Future
/// Sights, then their Wishes.
#[verifier::opaque]
pub open spec fn spec_weather_and_delayed_phase(s: State, first: SideReference) -> (State, Seq<Instruction>) {
    let second = first.spec_other();
    let t1 = spec_weather_damage(s, first);
    let t2 = spec_weather_damage(t1.0, second);
    let t3 = spec_run_down_future_sight(t2.0, first);
    let t4 = spec_run_down_future_sight(t3.0, second);
    let t5 = spec_run_down_wish(t4.0, first);
    let t6 = spec_run_down_wish(t5.0, second);
    spec_then(spec_then(spec_then(spec_then(spec_then(t1, t2), t3), t4), t5), t6)
}

#[verifier::spinoff_prover]
#[verifier::rlimit(100)]
fn weather_and_delayed_phase(state: &mut State, first: SideReference, instructions: &mut StateInstructions)
    ensures
        spec_step(*old(state), *old(instructions), *final(state), *final(instructions), spec_weather_and_delayed_phase(*old(state), first)),
{
    reveal(spec_weather_and_delayed_phase);
    let ghost l0 = instructions.instruction_list@;
    let ghost s0 = *state;
    let second = first.get_other_side();
    weather_damage(state, first, instructions);
    weather_damage(state, second, instructions);
    run_down_future_sight(state, first, instructions);
    run_down_future_sight(state, second, instructions);
    run_down_wish(state, first, instructions);
    run_down_wish(state, second, instructions);
    assert(instructions.instruction_list@ =~= l0 + spec_weather_and_delayed_phase(s0, first).1);
}

/// Status damage on side `first` and on the other, then their items and
/// abilities.
#[verifier::opaque]
pub open spec fn spec_status_and_items_phase(s: State, first: SideReference) -> (State, Seq<Instruction>) {
    let second = first.spec_other();
    let t1 = spec_status_damage(s, first);
    let t2 = spec_status_damage(t1.0, second);
    let t3 = spec_items_and_abilities(t2.0, first);
    let t4 = spec_items_and_abilities(t3.0, second);
    spec_then(spec_then(spec_then(t1, t2), t3), t4)
}

#[verifier::spinoff_prover]
#[verifier::rlimit(100)]
fn status_and_items_phase(state: &mut State, first: SideReference, instructions: &mut StateInstructions)
    ensures
        spec_step(*old(state), *old(instructions), *final(state), *final(instructions), spec_status_and_items_phase(*old(state), first)),
{
    reveal(spec_status_and_items_phase);
    let ghost l0 = instructions.instruction_list@;
    let ghost s0 = *state;
    let second = first.get_other_side();
    status_damage(state, first, instructions);
    status_damage(state, second, instructions);
    items_and_abilities(state, first, instructions);
    items_and_abilities(state, second, instructions);
    assert(instructions.instruction_list@ =~= l0 + spec_status_and_items_phase(s0, first).1);
}

/// Leech Seed on side `first` and on the other, then the volatile statuses of
/// side `first`, then of the other.
#[verifier::opaque]
pub open spec fn spec_seed_and_volatile_phase(s: State, first: SideReference) -> (State, Seq<Instruction>) {
    let second = first.spec_other();
    let t1 = spec_leech_seed(s, first);
    let t2 = spec_leech_seed(t1.0, second);
    let t3 = spec_count_volatile_turns(t2.0, first);
    let t4 = spec_volatile_effects(t3.0, first);
    let t5 = spec_count_volatile_turns(t4.0, second);
    let t6 = spec_volatile_effects(t5.0, second);
    spec_then(spec_then(spec_then(spec_then(spec_then(t1, t2), t3), t4), t5), t6)
}

#[verifier::spinoff_prover]
#[verifier::rlimit(100)]
fn seed_and_volatile_phase(state: &mut State, first: SideReference, instructions: &mut StateInstructions)
    ensures
        spec_step(*old(state), *old(instructions), *final(state), *final(instructions), spec_seed_and_volatile_phase(*old(state), first)),
{
    reveal(spec_seed_and_volatile_phase);
    let ghost l0 = instructions.instruction_list@;
    let ghost s0 = *state;
    let second = first.get_other_side();
    leech_seed(state, first, instructions);
    leech_seed(state, second, instructions);
    count_volatile_turns(state, first, instructions);
    volatile_effects(state, first, instructions);
    count_volatile_turns(state, second, instructions);
    volatile_effects(state, second, instructions);
    assert(instructions.instruction_list@ =~= l0 + spec_seed_and_volatile_phase(s0, first).1);
}

/// The end of the turn from `s`, side `first` going first in each step:
/// nothing while a side must still switch; otherwise the field runs down,
/// then weather damage, Future Sight and Wish, then statuses, items and
/// abilities, then Leech Seed and the volatile statuses.
#[verifier::opaque]
pub open spec fn spec_end_of_turn(s: State, first: SideReference) -> (State, Seq<Instruction>) {
    if s.side_one.force_switch || s.side_two.force_switch {
        spec_nothing(s)
    } else {
        let t1 = spec_field_phase(s, first);
        let t2 = spec_weather_and_delayed_phase(t1.0, first);
        let t3 = spec_status_and_items_phase(t2.0, first);
        let t4 = spec_seed_and_volatile_phase(t3.0, first);
        spec_then(spec_then(spec_then(t1, t2), t3), t4)
    }
}

/// The end of the turn, appended to `incoming_instructions` and applied to
/// `state`, with the chance unchanged: the state after is the one
/// `spec_end_of_turn` gives, and the instructions appended are the ones that
/// record it. Nothing happens while a side must still switch.
#[verifier::spinoff_prover]
#[verifier::rlimit(100)]
pub fn add_end_of_turn_instructions(
    state: &mut State,
    incoming_instructions: &mut StateInstructions,
    first_move_side: &SideReference,
)
    ensures
        spec_grows(*old(incoming_instructions), *final(incoming_instructions)),
        spec_step(*old(state), *old(incoming_instructions), *final(state), *final(incoming_instructions),
            spec_end_of_turn(*old(state), *first_move_side)),
        old(state).side_one.force_switch || old(state).side_two.force_switch
            ==> final(incoming_instructions).instruction_list@ == old(incoming_instructions).instruction_list@
                && *final(state) == *old(state),
{
    reveal(spec_end_of_turn);
    let ghost l0 = incoming_instructions.instruction_list@;
    let ghost s0 = *state;
    if !(state.side_one.force_switch || state.side_two.force_switch) {
        let first = *first_move_side;
        field_phase(state, first, incoming_instructions);
        weather_and_delayed_phase(state, first, incoming_instructions);
        status_and_items_phase(state, first, incoming_instructions);
        seed_and_volatile_phase(state, first, incoming_instructions);
    }
    assert(incoming_instructions.instruction_list@ =~= l0 + spec_end_of_turn(s0, *first_move_side).1);
}

} // verus!
