//! Generating the instructions of a turn: switching, statuses at the start of a
//! move, the order of the moves, and the end of the turn.

use vstd::prelude::*;
use crate::abilities::Abilities;
use crate::checks::trunc_div;
use crate::choices::{Choice, Choices, MoveCategory, MoveTarget};
use crate::instruction::{
    ApplyVolatileStatusInstruction, BoostInstruction, ChangeItemInstruction,
    ChangeSideConditionInstruction, ChangeStatusInstruction, ChangeTerrain, ChangeType,
    ChangeVolatileStatusDurationInstruction, ChangeWeather, DamageInstruction,
    DecrementFutureSightInstruction, DecrementRestTurnsInstruction, DecrementWishInstruction,
    EnableMoveInstruction, HealInstruction, Instruction, RemoveVolatileStatusInstruction,
    SetLastUsedMoveInstruction, SetSleepTurnsInstruction, StateInstructions, SwitchInstruction,
    ToggleBatonPassingInstruction, ToggleShedTailingInstruction, ToggleTrickRoomInstruction,
    spec_grows, spec_step, spec_then,
};
use crate::items::Items;
use crate::state::{
    LastUsedMove, Move, Pokemon, PokemonBoostableStat, PokemonIndex, PokemonMoveIndex,
    PokemonSideCondition, PokemonStatus, PokemonType, PokemonVolatileStatus, Side, SideConditions,
    SideMovesFirst, SideReference, State, Terrain, Weather, MAX_SLEEP_TURNS,
};

verus! {

pub open spec fn min_int(a: int, b: int) -> int {
    if a < b { a } else { b }
}

pub fn min32(a: i32, b: i32) -> (r: i32)
    ensures r == min_int(a as int, b as int),
{
    if a < b { a } else { b }
}

/// `v`, held to the range of an `i16`.
pub open spec fn clamp16(v: int) -> i16 {
    if v > i16::MAX { i16::MAX } else if v < i16::MIN { i16::MIN } else { v as i16 }
}

/// `v`, held to the range of an `i8`.
pub open spec fn clamp8(v: int) -> i8 {
    if v > i8::MAX { i8::MAX } else if v < i8::MIN { i8::MIN } else { v as i8 }
}

/// `v`, held to the range of an `i16`.
pub fn clamp_i16(v: i32) -> (r: i16)
    ensures
        r == clamp16(v as int),
{
    if v > 32767 {
        32767
    } else if v < -32768 {
        -32768
    } else {
        v as i16
    }
}

/// `v`, held to the range of an `i8`.
pub fn clamp_i8(v: i32) -> (r: i8)
    ensures
        r == clamp8(v as int),
{
    if v > 127 {
        127
    } else if v < -128 {
        -128
    } else {
        v as i8
    }
}

/// The chance, as `(numerator, denominator)`, that a Pokemon asleep for
/// `turns_asleep` turns wakes up: none before its first turn, then one in
/// `MAX_SLEEP_TURNS + 1 - turns_asleep`, certain from `MAX_SLEEP_TURNS` on.
pub open spec fn spec_chance_to_wake_up(turns_asleep: i8) -> (u64, u64) {
    if turns_asleep == 0 {
        (0, 1)
    } else if turns_asleep >= MAX_SLEEP_TURNS {
        (1, 1)
    } else {
        (1, (1 + MAX_SLEEP_TURNS - turns_asleep) as u64)
    }
}

pub fn chance_to_wake_up(turns_asleep: i8) -> (r: (u64, u64))
    ensures
        r == spec_chance_to_wake_up(turns_asleep),
        r.1 >= 1,
        r.0 <= r.1,
{
    if turns_asleep == 0 {
        (0, 1)
    } else if turns_asleep >= MAX_SLEEP_TURNS {
        (1, 1)
    } else {
        (1, (1 + MAX_SLEEP_TURNS as i32 - turns_asleep as i32) as u64)
    }
}

/// The instructions that take away the status of `p`, party member `i` of
/// `r`, whose side has toxic count `toxic_count`: the status change, then a
/// sleeper's Rest turns (or else its sleep turns) back to 0, or a badly
/// poisoned Pokemon's toxic count back to 0.
pub open spec fn spec_remove_status_list(p: Pokemon, i: PokemonIndex, r: SideReference, toxic_count: i8) -> Seq<Instruction> {
    let first = Instruction::ChangeStatus(ChangeStatusInstruction {
        side_ref: r, pokemon_index: i, old_status: p.status, new_status: PokemonStatus::NONE });
    if p.status == PokemonStatus::SLEEP && p.rest_turns > 0 {
        seq![first, Instruction::SetRestTurns(SetSleepTurnsInstruction {
            side_ref: r, pokemon_index: i, new_turns: 0, previous_turns: p.rest_turns })]
    } else if p.status == PokemonStatus::SLEEP && p.sleep_turns > 0 {
        seq![first, Instruction::SetSleepTurns(SetSleepTurnsInstruction {
            side_ref: r, pokemon_index: i, new_turns: 0, previous_turns: p.sleep_turns })]
    } else if p.status == PokemonStatus::TOXIC && toxic_count != 0 {
        seq![first, Instruction::ChangeSideCondition(ChangeSideConditionInstruction {
            side_ref: r, side_condition: PokemonSideCondition::ToxicCount, amount: clamp8(-toxic_count) })]
    } else {
        seq![first]
    }
}

/// Pokemon `p` with its status taken away, and a sleeper's Rest turns (or else
/// its sleep turns) back to 0.
pub open spec fn spec_status_removed(p: Pokemon) -> Pokemon {
    if p.status == PokemonStatus::SLEEP && p.rest_turns > 0 {
        Pokemon { status: PokemonStatus::NONE, rest_turns: 0, ..p }
    } else if p.status == PokemonStatus::SLEEP && p.sleep_turns > 0 {
        Pokemon { status: PokemonStatus::NONE, sleep_turns: 0, ..p }
    } else {
        Pokemon { status: PokemonStatus::NONE, ..p }
    }
}

/// Takes away the status of party member `pokemon_index`, with what comes with
/// it: a sleeper's turn counters and a badly poisoned Pokemon's toxic count.
#[verifier::spinoff_prover]
#[verifier::rlimit(100)]
pub fn add_remove_status_instructions(
    incoming_instructions: &mut StateInstructions,
    pokemon_index: PokemonIndex,
    side_reference: SideReference,
    side: &mut Side,
)
    ensures
        ({
            let p = old(side).pokemon.spec_get(pokemon_index);
            let count = old(side).side_conditions.toxic_count;
            let reset_count = p.status == PokemonStatus::TOXIC && count != 0;
            &&& final(incoming_instructions).instruction_list@ == old(incoming_instructions).instruction_list@
                + spec_remove_status_list(p, pokemon_index, side_reference, count)
            &&& final(incoming_instructions).percentage == old(incoming_instructions).percentage
            &&& *final(side) == (Side {
                    pokemon: old(side).pokemon.spec_set(pokemon_index, spec_status_removed(p)),
                    side_conditions: if reset_count {
                        SideConditions { toxic_count: 0, ..old(side).side_conditions }
                    } else {
                        old(side).side_conditions
                    },
                    ..*old(side)
                })
        }),
{
    let pkmn = *side.pokemon.get(pokemon_index);
    let count = side.side_conditions.toxic_count;
    push_remove_status_list(&pkmn, pokemon_index, side_reference, count, incoming_instructions);
    let np = status_removed(&pkmn);
    if pkmn.status == PokemonStatus::TOXIC && count != 0 {
        side.side_conditions.toxic_count = 0;
    }
    *side.pokemon.get_mut(pokemon_index) = np;
}

fn push_remove_status_list(
    pkmn: &Pokemon,
    pokemon_index: PokemonIndex,
    side_reference: SideReference,
    count: i8,
    incoming_instructions: &mut StateInstructions,
)
    ensures
        final(incoming_instructions).instruction_list@ == old(incoming_instructions).instruction_list@
            + spec_remove_status_list(*pkmn, pokemon_index, side_reference, count),
        final(incoming_instructions).percentage == old(incoming_instructions).percentage,
{
    let ghost l0 = incoming_instructions.instruction_list@;
    let ghost expected = spec_remove_status_list(*pkmn, pokemon_index, side_reference, count);
    let first = Instruction::ChangeStatus(ChangeStatusInstruction {
        side_ref: side_reference,
        pokemon_index,
        old_status: pkmn.status,
        new_status: PokemonStatus::NONE,
    });
    incoming_instructions.push(first);
    if pkmn.status == PokemonStatus::SLEEP && pkmn.rest_turns > 0 {
        let second = Instruction::SetRestTurns(SetSleepTurnsInstruction {
            side_ref: side_reference,
            pokemon_index,
            new_turns: 0,
            previous_turns: pkmn.rest_turns,
        });
        incoming_instructions.push(second);
        assert(expected =~= seq![first, second]);
    } else if pkmn.status == PokemonStatus::SLEEP && pkmn.sleep_turns > 0 {
        let second = Instruction::SetSleepTurns(SetSleepTurnsInstruction {
            side_ref: side_reference,
            pokemon_index,
            new_turns: 0,
            previous_turns: pkmn.sleep_turns,
        });
        incoming_instructions.push(second);
        assert(expected =~= seq![first, second]);
    } else if pkmn.status == PokemonStatus::TOXIC && count != 0 {
        let second = Instruction::ChangeSideCondition(ChangeSideConditionInstruction {
            side_ref: side_reference,
            side_condition: PokemonSideCondition::ToxicCount,
            amount: clamp_i8(-(count as i32)),
        });
        incoming_instructions.push(second);
        assert(expected =~= seq![first, second]);
    } else {
        assert(expected =~= seq![first]);
    }
    assert(incoming_instructions.instruction_list@ =~= l0 + expected);
}

fn status_removed(pkmn: &Pokemon) -> (r: Pokemon)
    ensures r == spec_status_removed(*pkmn),
{
    let mut np = *pkmn;
    if pkmn.status == PokemonStatus::SLEEP && pkmn.rest_turns > 0 {
        np.rest_turns = 0;
    } else if pkmn.status == PokemonStatus::SLEEP && pkmn.sleep_turns > 0 {
        np.sleep_turns = 0;
    }
    np.status = PokemonStatus::NONE;
    np
}

#[verifier::opaque]
pub open spec fn spec_immune_to_status(
    state: State,
    status_target: MoveTarget,
    target_side_ref: SideReference,
    status: PokemonStatus,
) -> bool {
    let target_side = state.spec_side(target_side_ref);
    let target = target_side.spec_active();
    let attacker = state.spec_side(target_side_ref.spec_other()).spec_active();
    if target.ability == Abilities::SHIELDSDOWN {
        target.hp > trunc_div(target.maxhp as int, 2)
    } else if target.ability == Abilities::PURIFYINGSALT || target.ability == Abilities::COMATOSE {
        true
    } else if target.ability == Abilities::LEAFGUARD {
        state.spec_weather_is_active(Weather::SUN)
    } else if target.status != PokemonStatus::NONE || target.hp <= 0 {
        true
    } else if state.terrain.terrain_type == Terrain::MISTYTERRAIN && target.spec_is_grounded() {
        true
    } else if (target.volatile_statuses.spec_contains(PokemonVolatileStatus::SUBSTITUTE)
        || target_side.side_conditions.safeguard > 0) && status_target == MoveTarget::Opponent {
        true
    } else if status == PokemonStatus::BURN {
        target.spec_has_type(PokemonType::FIRE) || target.ability == Abilities::WATERVEIL
            || target.ability == Abilities::WATERBUBBLE || target.ability == Abilities::THERMALEXCHANGE
    } else if status == PokemonStatus::FREEZE {
        target.spec_has_type(PokemonType::ICE) || target.ability == Abilities::MAGMAARMOR
            || state.spec_weather_is_active(Weather::SUN) || state.spec_weather_is_active(Weather::HARSHSUN)
    } else if status == PokemonStatus::SLEEP {
        (state.terrain.terrain_type == Terrain::ELECTRICTERRAIN && target.spec_is_grounded())
            || target.ability == Abilities::INSOMNIA || target.ability == Abilities::SWEETVEIL
            || target.ability == Abilities::VITALSPIRIT
            || (status_target == MoveTarget::Opponent && target_side.spec_has_alive_non_rested_sleeping_pkmn())
    } else if status == PokemonStatus::PARALYZE {
        target.spec_has_type(PokemonType::ELECTRIC) || target.ability == Abilities::LIMBER
    } else if status == PokemonStatus::POISON || status == PokemonStatus::TOXIC {
        ((target.spec_has_type(PokemonType::POISON) || target.spec_has_type(PokemonType::STEEL))
            && attacker.ability != Abilities::CORROSION)
            || target.ability == Abilities::IMMUNITY || target.ability == Abilities::PASTELVEIL
    } else {
        false
    }
}

/// Whether the active Pokemon of `target_side_ref` cannot be given `status`.
#[verifier::spinoff_prover]
#[verifier::rlimit(60)]
pub fn immune_to_status(
    state: &State,
    status_target: &MoveTarget,
    target_side_ref: &SideReference,
    status: &PokemonStatus,
) -> (r: bool)
    ensures r == spec_immune_to_status(*state, *status_target, *target_side_ref, *status),
{
    reveal(spec_immune_to_status);
    let (target_side, attacking_side) = state.get_both_sides_immutable(target_side_ref);
    let target = target_side.get_active_immutable();
    let attacker = attacking_side.get_active_immutable();
    if target.ability == Abilities::SHIELDSDOWN {
        return target.hp > target.maxhp / 2;
    }
    if target.ability == Abilities::PURIFYINGSALT || target.ability == Abilities::COMATOSE {
        return true;
    }
    if target.ability == Abilities::LEAFGUARD {
        return state.weather_is_active(&Weather::SUN);
    }
    if target.status != PokemonStatus::NONE || target.hp <= 0 {
        return true;
    }
    if state.terrain.terrain_type == Terrain::MISTYTERRAIN && target.is_grounded() {
        return true;
    }
    let sub = target.volatile_statuses.contains(&PokemonVolatileStatus::SUBSTITUTE);
    if (sub || target_side.side_conditions.safeguard > 0) && *status_target == MoveTarget::Opponent {
        return true;
    }
    if *status == PokemonStatus::BURN {
        target.has_type(&PokemonType::FIRE) || target.ability == Abilities::WATERVEIL
            || target.ability == Abilities::WATERBUBBLE || target.ability == Abilities::THERMALEXCHANGE
    } else if *status == PokemonStatus::FREEZE {
        let ice = target.has_type(&PokemonType::ICE);
        let sun = state.weather_is_active(&Weather::SUN);
        let harsh = state.weather_is_active(&Weather::HARSHSUN);
        ice || target.ability == Abilities::MAGMAARMOR || sun || harsh
    } else if *status == PokemonStatus::SLEEP {
        let grounded = target.is_grounded();
        let clause = target_side.has_alive_non_rested_sleeping_pkmn();
        (state.terrain.terrain_type == Terrain::ELECTRICTERRAIN && grounded)
            || target.ability == Abilities::INSOMNIA || target.ability == Abilities::SWEETVEIL
            || target.ability == Abilities::VITALSPIRIT
            || (*status_target == MoveTarget::Opponent && clause)
    } else if *status == PokemonStatus::PARALYZE {
        target.has_type(&PokemonType::ELECTRIC) || target.ability == Abilities::LIMBER
    } else if *status == PokemonStatus::POISON || *status == PokemonStatus::TOXIC {
        let poison = target.has_type(&PokemonType::POISON);
        let steel = target.has_type(&PokemonType::STEEL);
        ((poison || steel) && attacker.ability != Abilities::CORROSION)
            || target.ability == Abilities::IMMUNITY || target.ability == Abilities::PASTELVEIL
    } else {
        false
    }
}

pub open spec fn spec_get_boost_amount(current: i8, amount: i8) -> int {
    if amount > 0 {
        min_int(6 - current, amount as int)
    } else if amount < 0 {
        if -6 - current > amount { -6 - current } else { amount as int }
    } else {
        0
    }
}

/// The part of a boost of `amount` stages that the active Pokemon can take
/// without going past +6 or -6.
pub fn get_boost_amount(side: &Side, slot: u8, boost: &PokemonBoostableStat, amount: i8) -> (r: i8)
    requires
        slot == 0,
    ensures
        r == spec_get_boost_amount(side.spec_active().spec_boost(*boost), amount),
{
    let current_boost = side.get_active_slot_immutable(slot).get_boost(*boost) as i32;
    if amount > 0 {
        let room: i32 = 6 - current_boost;
        if room < amount as i32 { room as i8 } else { amount }
    } else if amount < 0 {
        let room: i32 = -6 - current_boost;
        if room > amount as i32 { room as i8 } else { amount }
    } else {
        0
    }
}

/// The stages of `stat` that a boost of `boost`, caused by `attacking`, gives
/// the active Pokemon `p` of `target`: none for a zero boost, a fainted Pokemon,
/// or a drop by an opponent that `p` is immune to; otherwise the boost, turned
/// round by Contrary, held within -6 and +6.
pub open spec fn spec_applied_boost(p: Pokemon, stat: PokemonBoostableStat, boost: i8,
    attacking: SideReference, target: SideReference) -> i8
{
    if boost == 0 || p.hp == 0
        || (target != attacking && p.spec_immune_to_stats_lowered_by_opponent(stat, p.volatile_statuses)) {
        0
    } else {
        let b = if p.ability == Abilities::CONTRARY { clamp8(-boost) } else { boost };
        spec_get_boost_amount(p.spec_boost(stat), b) as i8
    }
}

/// The active Pokemon `p` of `target` after a boost of `boost` to `stat`
/// caused by `attacking`, and the Boosts that record it: the boost itself,
/// then, for a drop by an opponent, Defiant's two stages of attack or
/// Competitive's two of special attack, as far as +6 allows.
pub open spec fn spec_boost_result(p: Pokemon, stat: PokemonBoostableStat, boost: i8,
    attacking: SideReference, target: SideReference) -> (Pokemon, Seq<Instruction>)
{
    let amount = spec_applied_boost(p, stat, boost, attacking, target);
    if amount == 0 {
        (p, seq![])
    } else {
        let q = p.spec_with_boost(stat, clamp8(p.spec_boost(stat) + amount));
        let first = Instruction::Boost(BoostInstruction { side_ref: target, slot: 0, stat, amount });
        if amount < 0 && attacking != target && p.ability == Abilities::DEFIANT && q.attack_boost < 6 {
            let extra: i8 = if 6 - q.attack_boost < 2 { (6 - q.attack_boost) as i8 } else { 2 };
            (Pokemon { attack_boost: clamp8(q.attack_boost + extra), ..q },
                seq![first, Instruction::Boost(BoostInstruction {
                    side_ref: target, slot: 0, stat: PokemonBoostableStat::Attack, amount: extra })])
        } else if amount < 0 && attacking != target && p.ability == Abilities::COMPETITIVE && q.special_attack_boost < 6 {
            let extra: i8 = if 6 - q.special_attack_boost < 2 { (6 - q.special_attack_boost) as i8 } else { 2 };
            (Pokemon { special_attack_boost: clamp8(q.special_attack_boost + extra), ..q },
                seq![first, Instruction::Boost(BoostInstruction {
                    side_ref: target, slot: 0, stat: PokemonBoostableStat::SpecialAttack, amount: extra })])
        } else {
            (q, seq![first])
        }
    }
}

/// Tries a boost of `boost` stages of `stat` on the active Pokemon of
/// `target_side`, which `attacking_side_ref` caused: an opponent's drop can be
/// blocked, Contrary turns it round, and Defiant or Competitive answer a drop
/// (see `spec_boost_result`). Returns whether the boost was applied.
#[verifier::spinoff_prover]
#[verifier::rlimit(60)]
pub fn apply_boost_instruction(
    target_side: &mut Side,
    target_slot: u8,
    stat: &PokemonBoostableStat,
    boost: &i8,
    attacking_side_ref: &SideReference,
    target_side_ref: &SideReference,
    instructions: &mut StateInstructions,
) -> (r: bool)
    requires
        target_slot == 0,
    ensures
        ({
            let (p, l) = spec_boost_result(old(target_side).spec_active(), *stat, *boost,
                *attacking_side_ref, *target_side_ref);
            &&& final(instructions).instruction_list@ == old(instructions).instruction_list@ + l
            &&& final(instructions).percentage == old(instructions).percentage
            &&& r == (spec_applied_boost(old(target_side).spec_active(), *stat, *boost,
                    *attacking_side_ref, *target_side_ref) != 0)
            &&& r ==> *final(target_side) == old(target_side).spec_set_active(p)
            &&& !r ==> *final(target_side) == *old(target_side)
        }),
{
    let ghost l0 = instructions.instruction_list@;
    let target_pkmn = *target_side.get_active_immutable();
    let ability = target_pkmn.ability;
    if *boost == 0 || target_pkmn.hp == 0 {
        assert(instructions.instruction_list@ =~= l0 + seq![]);
        return false;
    }
    if *target_side_ref != *attacking_side_ref
        && target_pkmn.immune_to_stats_lowered_by_opponent(stat, &target_pkmn.volatile_statuses) {
        assert(instructions.instruction_list@ =~= l0 + seq![]);
        return false;
    }
    let mut boost_amount: i8 = *boost;
    if ability == Abilities::CONTRARY {
        boost_amount = clamp_i8(-(boost_amount as i32));
    }
    let boost_amount = get_boost_amount(target_side, target_slot, stat, boost_amount);
    if boost_amount == 0 {
        assert(instructions.instruction_list@ =~= l0 + seq![]);
        return false;
    }
    let current = target_pkmn.get_boost(*stat);
    let mut np = target_pkmn.with_boost(*stat, clamp_i8(current as i32 + boost_amount as i32));
    let first = Instruction::Boost(BoostInstruction::new(*target_side_ref, target_slot, *stat, boost_amount));
    instructions.push(first);
    if boost_amount < 0 && *attacking_side_ref != *target_side_ref && ability == Abilities::DEFIANT
        && np.attack_boost < 6 {
        let room: i32 = 6 - np.attack_boost as i32;
        let amount: i8 = if room < 2 { room as i8 } else { 2 };
        np.attack_boost = clamp_i8(np.attack_boost as i32 + amount as i32);
        instructions.push(Instruction::Boost(BoostInstruction::new(
            *target_side_ref, target_slot, PokemonBoostableStat::Attack, amount)));
        assert(instructions.instruction_list@ =~= l0 + seq![first, Instruction::Boost(BoostInstruction {
            side_ref: *target_side_ref, slot: 0, stat: PokemonBoostableStat::Attack, amount })]);
    } else if boost_amount < 0 && *attacking_side_ref != *target_side_ref && ability == Abilities::COMPETITIVE
        && np.special_attack_boost < 6 {
        let room: i32 = 6 - np.special_attack_boost as i32;
        let amount: i8 = if room < 2 { room as i8 } else { 2 };
        np.special_attack_boost = clamp_i8(np.special_attack_boost as i32 + amount as i32);
        instructions.push(Instruction::Boost(BoostInstruction::new(
            *target_side_ref, target_slot, PokemonBoostableStat::SpecialAttack, amount)));
        assert(instructions.instruction_list@ =~= l0 + seq![first, Instruction::Boost(BoostInstruction {
            side_ref: *target_side_ref, slot: 0, stat: PokemonBoostableStat::SpecialAttack, amount })]);
    } else {
        assert(instructions.instruction_list@ =~= l0 + seq![first]);
    }
    *target_side.get_active() = np;
    true
}

/// Every instruction of `before` stands, in its place, at the start of `after`.
pub open spec fn extends(before: Seq<Instruction>, after: Seq<Instruction>) -> bool {
    crate::instruction::spec_extends(before, after)
}

/// The multiplier that Rock-type damage takes against `t`, as `(numerator, denominator)`.
pub open spec fn spec_rock_factor(t: PokemonType) -> (int, int) {
    if t == PokemonType::FIRE || t == PokemonType::ICE || t == PokemonType::FLYING || t == PokemonType::BUG {
        (2, 1)
    } else if t == PokemonType::FIGHTING || t == PokemonType::GROUND || t == PokemonType::STEEL {
        (1, 2)
    } else {
        (1, 1)
    }
}

fn rock_factor(t: PokemonType) -> (r: (i32, i32))
    ensures r.0 == spec_rock_factor(t).0, r.1 == spec_rock_factor(t).1,
{
    if t == PokemonType::FIRE || t == PokemonType::ICE || t == PokemonType::FLYING || t == PokemonType::BUG {
        (2, 1)
    } else if t == PokemonType::FIGHTING || t == PokemonType::GROUND || t == PokemonType::STEEL {
        (1, 2)
    } else {
        (1, 1)
    }
}

/// Stealth Rock damage: an eighth of the maximum hit points, times how well Rock
/// hits the Pokemon's types, and no more than the hit points it has.
pub open spec fn spec_stealth_rock_damage(p: Pokemon) -> int {
    let (n1, d1) = spec_rock_factor(p.types.0);
    let (n2, d2) = spec_rock_factor(p.types.1);
    min_int(trunc_div(p.maxhp * n1 * n2, 8 * d1 * d2), p.hp as int)
}

fn stealth_rock_damage(p: &Pokemon) -> (r: i16)
    ensures r == spec_stealth_rock_damage(*p),
{
    let (n1, d1) = rock_factor(p.types.0);
    let (n2, d2) = rock_factor(p.types.1);
    let m: i32 = p.maxhp as i32;
    proof {
        assert(1 <= n1 * n2 <= 4) by (nonlinear_arith) requires 1 <= n1 <= 2, 1 <= n2 <= 2;
        assert(-65536 <= m * n1 <= 65534) by (nonlinear_arith) requires -32768 <= m <= 32767, 1 <= n1 <= 2;
        assert(1 <= d1 * d2 <= 4) by (nonlinear_arith) requires 1 <= d1 <= 2, 1 <= d2 <= 2;
        assert(-32768 * 4 <= m * (n1 * n2) <= 32767 * 4) by (nonlinear_arith)
            requires -32768 <= m <= 32767, 1 <= n1 * n2 <= 4;
        assert(m * n1 * n2 == m * (n1 * n2)) by (nonlinear_arith);
        assert(8 * d1 * d2 == 8 * (d1 * d2)) by (nonlinear_arith);
    }
    let prod: i32 = m * n1 * n2;
    let den: i32 = 8 * d1 * d2;
    let q: i32 = if prod >= 0 { prod / den } else { -((-prod) / den) };
    proof {
        let a: int = if prod >= 0 { prod as int } else { -prod as int };
        assert(0 <= a / (den as int) <= 16384) by (nonlinear_arith)
            requires den >= 8, 0 <= a <= 131072;
    }
    let r = min32(q, p.hp as i32);
    r as i16
}

/// `trunc(maxhp * num / den)` of `p`, the share of its maximum hit points
/// that weather, statuses and items take or give.
pub(crate) fn fraction_of_maxhp(p: &Pokemon, num: i32, den: i32) -> (r: i32)
    requires
        1 <= den <= 64,
        0 <= num <= 16,
    ensures
        r == trunc_div(p.maxhp * num, den as int),
        -32768 * 16 <= r <= 32767 * 16,
{
    let m: i32 = p.maxhp as i32;
    proof {
        assert(-32768 * 16 <= m * num <= 32767 * 16) by (nonlinear_arith)
            requires -32768 <= m <= 32767, 0 <= num <= 16;
    }
    let prod: i32 = m * num;
    let q: i32 = if prod >= 0 { prod / den } else { -((-prod) / den) };
    proof {
        let a: int = if prod >= 0 { prod as int } else { -prod as int };
        assert(0 <= a / (den as int) <= a) by (nonlinear_arith)
            requires den >= 1, a >= 0;
    }
    q
}

/// `state` with the active Pokemon of `r` down `amount` hit points, held to an `i16`.
#[verifier::opaque]
pub open spec fn spec_damaged(state: State, r: SideReference, amount: i16) -> State {
    let p = state.spec_active(r);
    state.spec_with_active(r, Pokemon { hp: clamp16(p.hp - amount), ..p })
}

/// `state` with the active Pokemon of `r` up `amount` hit points, held to an `i16`.
#[verifier::opaque]
pub open spec fn spec_healed(state: State, r: SideReference, amount: i16) -> State {
    let p = state.spec_active(r);
    state.spec_with_active(r, Pokemon { hp: clamp16(p.hp + amount), ..p })
}

/// `state` with volatile status `vs` taken off the active Pokemon of `r`.
#[verifier::opaque]
pub open spec fn spec_volatile_removed(state: State, r: SideReference, vs: PokemonVolatileStatus) -> State {
    let p = state.spec_active(r);
    state.spec_with_active(r, Pokemon { volatile_statuses: p.volatile_statuses.spec_remove(vs), ..p })
}

/// `state` with volatile status `vs` put on the active Pokemon of `r`.
#[verifier::opaque]
pub open spec fn spec_volatile_applied(state: State, r: SideReference, vs: PokemonVolatileStatus) -> State {
    let p = state.spec_active(r);
    state.spec_with_active(r, Pokemon { volatile_statuses: p.volatile_statuses.spec_insert(vs), ..p })
}

/// Damage of `amount` to the active Pokemon of `r`, and its record.
#[verifier::opaque]
pub open spec fn spec_damage_step(s: State, r: SideReference, amount: i16) -> (State, Seq<Instruction>) {
    (spec_damaged(s, r, amount), seq![Instruction::Damage(DamageInstruction { side_ref: r, slot: 0, damage_amount: amount })])
}

/// Healing of `amount` to the active Pokemon of `r`, and its record.
#[verifier::opaque]
pub open spec fn spec_heal_step(s: State, r: SideReference, amount: i16) -> (State, Seq<Instruction>) {
    (spec_healed(s, r, amount), seq![Instruction::Heal(HealInstruction { side_ref: r, slot: 0, heal_amount: amount })])
}

/// Volatile status `vs` taken off the active Pokemon of `r`, and its record.
#[verifier::opaque]
pub open spec fn spec_remove_step(s: State, r: SideReference, vs: PokemonVolatileStatus) -> (State, Seq<Instruction>) {
    (spec_volatile_removed(s, r, vs), seq![Instruction::RemoveVolatileStatus(
        RemoveVolatileStatusInstruction { side_ref: r, slot: 0, volatile_status: vs })])
}

/// Volatile status `vs` put on the active Pokemon of `r`, and its record.
#[verifier::opaque]
pub open spec fn spec_add_volatile_step(s: State, r: SideReference, vs: PokemonVolatileStatus) -> (State, Seq<Instruction>) {
    (spec_volatile_applied(s, r, vs), seq![Instruction::ApplyVolatileStatus(
        ApplyVolatileStatusInstruction { side_ref: r, slot: 0, volatile_status: vs })])
}

/// Side condition `c` of `r` changed by `amount`, held to an `i8`, and its record.
#[verifier::opaque]
pub open spec fn spec_condition_step(s: State, r: SideReference, c: PokemonSideCondition, amount: i8) -> (State, Seq<Instruction>) {
    let side = s.spec_side(r);
    (s.spec_set_side(r, Side {
        side_conditions: side.side_conditions.spec_set(c, clamp8(side.side_conditions.spec_get(c) + amount)),
        ..side
    }), seq![Instruction::ChangeSideCondition(ChangeSideConditionInstruction { side_ref: r, side_condition: c, amount })])
}

/// The turn counter of `vs` on the active Pokemon of `r` changed by `amount`,
/// held to an `i8`, and its record.
#[verifier::opaque]
pub open spec fn spec_duration_step(s: State, r: SideReference, vs: PokemonVolatileStatus, amount: i8) -> (State, Seq<Instruction>) {
    let p = s.spec_active(r);
    (s.spec_with_active(r, p.spec_with_duration(vs, clamp8(p.spec_duration(vs) + amount))),
        seq![Instruction::ChangeVolatileStatusDuration(ChangeVolatileStatusDurationInstruction {
            side_ref: r, slot: 0, volatile_status: vs, amount })])
}

/// The status of the active Pokemon of `r` set to `st`, and its record.
#[verifier::opaque]
pub open spec fn spec_status_step(s: State, r: SideReference, st: PokemonStatus) -> (State, Seq<Instruction>) {
    let p = s.spec_active(r);
    (s.spec_with_active(r, Pokemon { status: st, ..p }),
        seq![Instruction::ChangeStatus(ChangeStatusInstruction {
            side_ref: r, pokemon_index: s.spec_side(r).active_index, old_status: p.status, new_status: st })])
}

/// Damages the active Pokemon of `side_ref` by `amount` and records it.
pub(crate) fn damage_active(state: &mut State, side_ref: SideReference, amount: i16, instructions: &mut StateInstructions)
    ensures
        spec_step(*old(state), *old(instructions), *final(state), *final(instructions), spec_damage_step(*old(state), side_ref, amount)),
{
    reveal(spec_damage_step);
    let ghost l0 = instructions.instruction_list@;
    reveal(spec_damaged);
    let p = state.get_side(&side_ref).get_active();
    p.hp = clamp_i16(p.hp as i32 - amount as i32);
    instructions.push(Instruction::Damage(DamageInstruction::new(side_ref, 0, amount)));
    assert(instructions.instruction_list@ =~= l0 + seq![Instruction::Damage(DamageInstruction { side_ref, slot: 0, damage_amount: amount })]);
}

/// Heals the active Pokemon of `side_ref` by `amount` and records it.
pub(crate) fn heal_active(state: &mut State, side_ref: SideReference, amount: i16, instructions: &mut StateInstructions)
    ensures
        spec_step(*old(state), *old(instructions), *final(state), *final(instructions), spec_heal_step(*old(state), side_ref, amount)),
{
    reveal(spec_heal_step);
    let ghost l0 = instructions.instruction_list@;
    reveal(spec_healed);
    let p = state.get_side(&side_ref).get_active();
    p.hp = clamp_i16(p.hp as i32 + amount as i32);
    instructions.push(Instruction::Heal(HealInstruction::new(side_ref, 0, amount)));
    assert(instructions.instruction_list@ =~= l0 + seq![Instruction::Heal(HealInstruction { side_ref, slot: 0, heal_amount: amount })]);
}

/// Removes `vs` from the active Pokemon of `side_ref` and records it.
pub(crate) fn remove_volatile(state: &mut State, side_ref: SideReference, vs: PokemonVolatileStatus, instructions: &mut StateInstructions)
    ensures
        spec_step(*old(state), *old(instructions), *final(state), *final(instructions), spec_remove_step(*old(state), side_ref, vs)),
{
    reveal(spec_remove_step);
    let ghost l0 = instructions.instruction_list@;
    reveal(spec_volatile_removed);
    state.get_side(&side_ref).get_active().volatile_statuses.remove(&vs);
    instructions.push(Instruction::RemoveVolatileStatus(RemoveVolatileStatusInstruction::new(side_ref, 0, vs)));
    assert(instructions.instruction_list@ =~= l0 + seq![Instruction::RemoveVolatileStatus(RemoveVolatileStatusInstruction { side_ref, slot: 0, volatile_status: vs })]);
}

/// Puts `vs` on the active Pokemon of `side_ref` and records it.
pub(crate) fn apply_volatile(state: &mut State, side_ref: SideReference, vs: PokemonVolatileStatus, instructions: &mut StateInstructions)
    ensures
        spec_step(*old(state), *old(instructions), *final(state), *final(instructions), spec_add_volatile_step(*old(state), side_ref, vs)),
{
    reveal(spec_add_volatile_step);
    let ghost l0 = instructions.instruction_list@;
    reveal(spec_volatile_applied);
    state.get_side(&side_ref).get_active().volatile_statuses.insert(vs);
    instructions.push(Instruction::ApplyVolatileStatus(ApplyVolatileStatusInstruction::new(side_ref, 0, vs)));
    assert(instructions.instruction_list@ =~= l0 + seq![Instruction::ApplyVolatileStatus(ApplyVolatileStatusInstruction { side_ref, slot: 0, volatile_status: vs })]);
}

/// Changes side condition `c` of `side_ref` by `amount` and records it.
pub(crate) fn change_side_condition(state: &mut State, side_ref: SideReference, c: PokemonSideCondition, amount: i8, instructions: &mut StateInstructions)
    ensures
        spec_step(*old(state), *old(instructions), *final(state), *final(instructions), spec_condition_step(*old(state), side_ref, c, amount)),
{
    reveal(spec_condition_step);
    let ghost l0 = instructions.instruction_list@;
    let side = state.get_side(&side_ref);
    let v = side.side_conditions.get(c);
    side.side_conditions.set(c, clamp_i8(v as i32 + amount as i32));
    instructions.push(Instruction::ChangeSideCondition(ChangeSideConditionInstruction {
        side_ref, side_condition: c, amount }));
    assert(instructions.instruction_list@ =~= l0 + seq![Instruction::ChangeSideCondition(ChangeSideConditionInstruction { side_ref, side_condition: c, amount })]);
}

/// Changes the turn counter of `vs` on the active Pokemon of `side_ref` by `amount` and records it.
pub(crate) fn change_duration(state: &mut State, side_ref: SideReference, vs: PokemonVolatileStatus, amount: i8, instructions: &mut StateInstructions)
    ensures
        spec_step(*old(state), *old(instructions), *final(state), *final(instructions), spec_duration_step(*old(state), side_ref, vs, amount)),
{
    reveal(spec_duration_step);
    let ghost l0 = instructions.instruction_list@;
    let p = state.get_side(&side_ref).get_active();
    let v = p.get_duration(vs);
    p.set_duration(vs, clamp_i8(v as i32 + amount as i32));
    instructions.push(Instruction::ChangeVolatileStatusDuration(ChangeVolatileStatusDurationInstruction::new(
        side_ref, 0, vs, amount)));
    assert(instructions.instruction_list@ =~= l0 + seq![Instruction::ChangeVolatileStatusDuration(ChangeVolatileStatusDurationInstruction { side_ref, slot: 0, volatile_status: vs, amount })]);
}

/// Sets the status of the active Pokemon of `side_ref` and records the change.
pub(crate) fn set_active_status(state: &mut State, side_ref: SideReference, new_status: PokemonStatus, instructions: &mut StateInstructions)
    ensures
        spec_step(*old(state), *old(instructions), *final(state), *final(instructions), spec_status_step(*old(state), side_ref, new_status)),
{
    reveal(spec_status_step);
    let ghost l0 = instructions.instruction_list@;
    let side = state.get_side(&side_ref);
    let index = side.active_index;
    let p = side.get_active();
    let old_status = p.status;
    p.status = new_status;
    instructions.push(Instruction::ChangeStatus(ChangeStatusInstruction {
        side_ref, pokemon_index: index, old_status, new_status }));
    assert(instructions.instruction_list@ =~= l0 + spec_status_step(*old(state), side_ref, new_status).1);
}

impl State {
    /// Clears the toxic count of `side_ref`, recording it, when it is above zero.
    #[verifier::spinoff_prover]
    #[verifier::rlimit(60)]
    pub fn reset_toxic_count(&mut self, side_ref: &SideReference, vec_to_add_to: &mut Vec<Instruction>)
        ensures
            extends(old(vec_to_add_to)@, final(vec_to_add_to)@),
            old(self).spec_side(*side_ref).side_conditions.toxic_count > 0
                ==> final(vec_to_add_to)@ == old(vec_to_add_to)@.push(Instruction::ChangeSideCondition(ChangeSideConditionInstruction {
                    side_ref: *side_ref,
                    side_condition: PokemonSideCondition::ToxicCount,
                    amount: (-old(self).spec_side(*side_ref).side_conditions.toxic_count) as i8,
                })),
            old(self).spec_side(*side_ref).side_conditions.toxic_count <= 0
                ==> final(vec_to_add_to)@ == old(vec_to_add_to)@,
            old(self).spec_side(*side_ref).side_conditions.toxic_count > 0
                ==> *final(self) == old(self).spec_set_side(*side_ref, Side {
                    side_conditions: SideConditions { toxic_count: 0, ..old(self).spec_side(*side_ref).side_conditions },
                    ..old(self).spec_side(*side_ref)
                }),
            old(self).spec_side(*side_ref).side_conditions.toxic_count <= 0 ==> *final(self) == *old(self),
            *final(self) == spec_reset_toxic(*old(self), *side_ref).0,
            final(vec_to_add_to)@ == old(vec_to_add_to)@ + spec_reset_toxic(*old(self), *side_ref).1,
    {
        reveal(spec_reset_toxic);
        let ghost l0 = vec_to_add_to@;
        let count = self.get_side_immutable(side_ref).side_conditions.toxic_count;
        if count > 0 {
            vec_to_add_to.push(Instruction::ChangeSideCondition(ChangeSideConditionInstruction {
                side_ref: *side_ref,
                side_condition: PokemonSideCondition::ToxicCount,
                amount: -count,
            }));
            self.get_side(side_ref).side_conditions.toxic_count = 0;
        }
        assert(vec_to_add_to@ =~= l0 + spec_reset_toxic(*old(self), *side_ref).1);
    }

    /// Takes off the volatile statuses of the active Pokemon of `side_ref` as it
    /// leaves the field, recording each; a Baton Pass keeps Substitute and Leech
    /// Seed, a Shed Tail keeps Substitute. A changed type goes back to the
    /// Pokemon's own, and the counters of a locked move, Yawn and Taunt go to 0
    /// (see `spec_volatiles_on_switch`).
    #[verifier::spinoff_prover]
    #[verifier::rlimit(60)]
    pub fn remove_volatile_statuses_on_switch(
        &mut self,
        side_ref: &SideReference,
        instructions: &mut Vec<Instruction>,
        baton_passing: bool,
        shed_tailing: bool,
    )
        ensures
            ({
                let (p, l) = spec_volatiles_on_switch(old(self).spec_active(*side_ref), *side_ref,
                    baton_passing, shed_tailing, 104);
                &&& final(instructions)@ == old(instructions)@ + l
                &&& *final(self) == old(self).spec_with_active(*side_ref, p)
            }),
    {
        let orig = *self.get_side_immutable(side_ref).get_active_immutable();
        let mut p = orig;
        let ghost l0 = instructions@;
        let mut i: u8 = 0;
        while i < 104
            invariant
                i <= 104,
                ({
                    let (q, l) = spec_volatiles_on_switch(orig, *side_ref, baton_passing, shed_tailing, i as nat);
                    p == q && instructions@ == l0 + l
                }),
            decreases 104 - i,
        {
            let vs_opt = PokemonVolatileStatus::from_index(i);
            if let Some(vs) = vs_opt {
                if orig.volatile_statuses.contains(&vs) {
                    switch_out_volatile(&orig, &mut p, vs, side_ref, instructions, baton_passing, shed_tailing);
                }
            }
            proof {
                let (q, l) = spec_volatiles_on_switch(orig, *side_ref, baton_passing, shed_tailing, (i + 1) as nat);
                assert(instructions@ =~= l0 + l);
            }
            i = i + 1;
        }
        *self.get_side(side_ref).get_active() = p;
    }
}

fn switch_out_volatile(
    orig: &Pokemon,
    p: &mut Pokemon,
    vs: PokemonVolatileStatus,
    side_ref: &SideReference,
    instructions: &mut Vec<Instruction>,
    baton_passing: bool,
    shed_tailing: bool,
)
    ensures
        ({
            let (q, l) = spec_volatile_on_switch(*orig, *old(p), vs, *side_ref, baton_passing, shed_tailing);
            *final(p) == q && final(instructions)@ == old(instructions)@ + l
        }),
{
    let ghost l0 = instructions@;
    let retain = if vs == PokemonVolatileStatus::SUBSTITUTE {
        baton_passing || shed_tailing
    } else if vs == PokemonVolatileStatus::LEECHSEED {
        baton_passing
    } else {
        false
    };
    if vs == PokemonVolatileStatus::TYPECHANGE {
        if orig.base_types.0 != orig.types.0 || orig.base_types.1 != orig.types.1 {
            instructions.push(Instruction::ChangeType(ChangeType::new(
                *side_ref, 0, orig.base_types, orig.types)));
            p.types = orig.base_types;
        }
    } else if vs == PokemonVolatileStatus::LOCKEDMOVE || vs == PokemonVolatileStatus::YAWN
        || vs == PokemonVolatileStatus::TAUNT {
        let d = orig.get_duration(vs);
        instructions.push(Instruction::ChangeVolatileStatusDuration(
            ChangeVolatileStatusDurationInstruction::new(*side_ref, 0, vs, clamp_i8(-(d as i32)))));
        p.set_duration(vs, 0);
    }
    if !retain {
        instructions.push(Instruction::RemoveVolatileStatus(
            RemoveVolatileStatusInstruction::new(*side_ref, 0, vs)));
        p.volatile_statuses.remove(&vs);
    }
    let ghost (q, l) = spec_volatile_on_switch(*orig, *old(p), vs, *side_ref, baton_passing, shed_tailing);
    assert(instructions@ =~= l0 + l);
}

/// What leaving the field does about volatile status `vs` of `orig`, to `p`
/// (the Pokemon as far as the earlier statuses have changed it): a changed
/// type goes back to `orig`'s own; the counter of a locked move, Yawn or
/// Taunt goes to 0; then the status is taken off unless it stays: Substitute
/// with a Baton Pass or a Shed Tail, Leech Seed with a Baton Pass.
pub open spec fn spec_volatile_on_switch(
    orig: Pokemon,
    p: Pokemon,
    vs: PokemonVolatileStatus,
    r: SideReference,
    baton_passing: bool,
    shed_tailing: bool,
) -> (Pokemon, Seq<Instruction>) {
    let retain = if vs == PokemonVolatileStatus::SUBSTITUTE {
        baton_passing || shed_tailing
    } else {
        vs == PokemonVolatileStatus::LEECHSEED && baton_passing
    };
    let (q, l): (Pokemon, Seq<Instruction>) = if vs == PokemonVolatileStatus::TYPECHANGE
        && (orig.base_types.0 != orig.types.0 || orig.base_types.1 != orig.types.1) {
        (Pokemon { types: orig.base_types, ..p },
            seq![Instruction::ChangeType(ChangeType { side_ref: r, slot: 0, new_types: orig.base_types, old_types: orig.types })])
    } else if vs == PokemonVolatileStatus::LOCKEDMOVE || vs == PokemonVolatileStatus::YAWN || vs == PokemonVolatileStatus::TAUNT {
        (p.spec_with_duration(vs, 0),
            seq![Instruction::ChangeVolatileStatusDuration(ChangeVolatileStatusDurationInstruction {
                side_ref: r, slot: 0, volatile_status: vs, amount: clamp8(-orig.spec_duration(vs)) })])
    } else {
        (p, seq![])
    };
    if retain {
        (q, l)
    } else {
        (Pokemon { volatile_statuses: q.volatile_statuses.spec_remove(vs), ..q },
            l.push(Instruction::RemoveVolatileStatus(RemoveVolatileStatusInstruction { side_ref: r, slot: 0, volatile_status: vs })))
    }
}

/// The active Pokemon `orig` of `r` after leaving the field, and the
/// instructions that record it, going through the volatile statuses with
/// index below `k` in index order (see `spec_volatile_on_switch`).
pub open spec fn spec_volatiles_on_switch(
    orig: Pokemon,
    r: SideReference,
    baton_passing: bool,
    shed_tailing: bool,
    k: nat,
) -> (Pokemon, Seq<Instruction>)
    decreases k,
{
    if k == 0 {
        (orig, seq![])
    } else {
        let (p, l) = spec_volatiles_on_switch(orig, r, baton_passing, shed_tailing, (k - 1) as nat);
        match PokemonVolatileStatus::spec_from_index((k - 1) as u8) {
            Some(vs) => if orig.volatile_statuses.spec_contains(vs) {
                let (q, m) = spec_volatile_on_switch(orig, p, vs, r, baton_passing, shed_tailing);
                (q, l + m)
            } else {
                (p, l)
            },
            None => (p, l),
        }
    }
}

impl Side {
    /// Sets the lowered boosts of the active Pokemon back to 0, recording each
    /// with a Boost of the stages it had lost, in stat order; says whether any
    /// was lowered.
    #[verifier::spinoff_prover]
    #[verifier::rlimit(60)]
    pub fn reset_negative_boosts(&mut self, side_ref: SideReference, instructions: &mut StateInstructions) -> (r: bool)
        ensures
            ({
                let (p, l) = spec_reset_negative(old(self).spec_active(), side_ref, 7);
                &&& final(instructions).instruction_list@ == old(instructions).instruction_list@ + l
                &&& final(instructions).percentage == old(instructions).percentage
                &&& *final(self) == old(self).spec_set_active(p)
                &&& r == (l.len() > 0)
            }),
            r == exists|k: int| 0 <= k < 7 && #[trigger] old(self).spec_active().spec_boost(spec_boost_stats()[k]) < 0,
    {
        let stats = [
            PokemonBoostableStat::Attack, PokemonBoostableStat::Defense,
            PokemonBoostableStat::SpecialAttack, PokemonBoostableStat::SpecialDefense,
            PokemonBoostableStat::Speed, PokemonBoostableStat::Accuracy, PokemonBoostableStat::Evasion,
        ];
        assert(stats@ =~= spec_boost_stats());
        let ghost p0 = self.spec_active();
        let ghost l0 = instructions.instruction_list@;
        let orig = *self.get_active_immutable();
        let mut p = orig;
        let mut changed = false;
        let mut k: usize = 0;
        while k < 7
            invariant
                k <= 7,
                stats@ == spec_boost_stats(),
                p == spec_reset_negative(p0, side_ref, k as nat).0,
                instructions.instruction_list@ == l0 + spec_reset_negative(p0, side_ref, k as nat).1,
                instructions.percentage == old(instructions).percentage,
                changed == (spec_reset_negative(p0, side_ref, k as nat).1.len() > 0),
                changed == exists|j: int| 0 <= j < k && #[trigger] p0.spec_boost(spec_boost_stats()[j]) < 0,
                orig == p0,
            decreases 7 - k,
        {
            let st = stats[k];
            let b = orig.get_boost(st);
            if b < 0 {
                instructions.push(Instruction::Boost(BoostInstruction::new(side_ref, 0, st, clamp_i8(-(b as i32)))));
                p.set_boost(st, 0);
                changed = true;
            }
            proof {
                assert(instructions.instruction_list@ =~= l0 + spec_reset_negative(p0, side_ref, (k + 1) as nat).1);
                if !changed {
                    assert forall|j: int| 0 <= j < k + 1 implies !(#[trigger] p0.spec_boost(spec_boost_stats()[j]) < 0) by {
                        if j < k {
                            assert(!(p0.spec_boost(spec_boost_stats()[j]) < 0));
                        }
                    }
                } else if b < 0 {
                    assert(p0.spec_boost(spec_boost_stats()[k as int]) < 0);
                }
            }
            k = k + 1;
        }
        *self.get_active() = p;
        changed
    }
}

/// The boostable stats, in the order the engine goes through them.
pub open spec fn spec_boost_stats() -> Seq<PokemonBoostableStat> {
    seq![
        PokemonBoostableStat::Attack, PokemonBoostableStat::Defense,
        PokemonBoostableStat::SpecialAttack, PokemonBoostableStat::SpecialDefense,
        PokemonBoostableStat::Speed, PokemonBoostableStat::Accuracy, PokemonBoostableStat::Evasion,
    ]
}

/// Pokemon `p` with its lowered boosts among the first `k` stats of
/// `spec_boost_stats` set back to 0, and the Boosts that record it, in order:
/// each raises the stat by the stages `p` had lost.
pub open spec fn spec_reset_negative(p: Pokemon, r: SideReference, k: nat) -> (Pokemon, Seq<Instruction>)
    decreases k,
{
    if k == 0 {
        (p, seq![])
    } else {
        let (q, l) = spec_reset_negative(p, r, (k - 1) as nat);
        let st = spec_boost_stats()[k - 1];
        let b = p.spec_boost(st);
        if b < 0 {
            (q.spec_with_boost(st, 0),
                l.push(Instruction::Boost(BoostInstruction { side_ref: r, slot: 0, stat: st, amount: clamp8(-b) })))
        } else {
            (q, l)
        }
    }
}

/// The toxic count of `r` back to 0 if it is above, and its record.
#[verifier::opaque]
pub open spec fn spec_reset_toxic(s: State, r: SideReference) -> (State, Seq<Instruction>) {
    let side = s.spec_side(r);
    let count = side.side_conditions.toxic_count;
    if count > 0 {
        (s.spec_set_side(r, Side { side_conditions: SideConditions { toxic_count: 0, ..side.side_conditions }, ..side }),
            seq![Instruction::ChangeSideCondition(ChangeSideConditionInstruction {
                side_ref: r, side_condition: PokemonSideCondition::ToxicCount, amount: (-count) as i8 })])
    } else {
        (s, seq![])
    }
}

/// A pending forced switch of `r` cleared, and its record.
#[verifier::opaque]
pub open spec fn spec_clear_force_switch(s: State, r: SideReference) -> (State, Seq<Instruction>) {
    let side = s.spec_side(r);
    if side.force_switch {
        (s.spec_set_side(r, Side { force_switch: false, ..side }),
            seq![if r == SideReference::SideOne { Instruction::ToggleSideOneForceSwitch } else { Instruction::ToggleSideTwoForceSwitch }])
    } else {
        (s, seq![])
    }
}

fn clear_force_switch(state: &mut State, side_ref: SideReference, instructions: &mut StateInstructions)
    ensures
        spec_step(*old(state), *old(instructions), *final(state), *final(instructions), spec_clear_force_switch(*old(state), side_ref)),
{
    reveal(spec_clear_force_switch);
    let ghost l0 = instructions.instruction_list@;
    let ghost s0 = *state;
    if state.get_side_immutable(&side_ref).force_switch {
        state.get_side(&side_ref).force_switch = false;
        match side_ref {
            SideReference::SideOne => instructions.push(Instruction::ToggleSideOneForceSwitch),
            SideReference::SideTwo => instructions.push(Instruction::ToggleSideTwoForceSwitch),
        }
    }
    assert(instructions.instruction_list@ =~= l0 + spec_clear_force_switch(s0, side_ref).1);
}

/// A Baton Pass in progress on `r` cleared, and its record.
#[verifier::opaque]
pub open spec fn spec_clear_baton_passing(s: State, r: SideReference) -> (State, Seq<Instruction>) {
    let side = s.spec_side(r);
    if side.baton_passing {
        (s.spec_set_side(r, Side { baton_passing: false, ..side }),
            seq![Instruction::ToggleBatonPassing(ToggleBatonPassingInstruction { side_ref: r })])
    } else {
        (s, seq![])
    }
}

/// Clears a Baton Pass in progress on `side_ref`, recording it; says whether there was one.
fn clear_baton_passing(state: &mut State, side_ref: SideReference, instructions: &mut StateInstructions) -> (r: bool)
    ensures
        spec_step(*old(state), *old(instructions), *final(state), *final(instructions), spec_clear_baton_passing(*old(state), side_ref)),
        r == old(state).spec_side(side_ref).baton_passing,
{
    reveal(spec_clear_baton_passing);
    let ghost l0 = instructions.instruction_list@;
    if state.get_side_immutable(&side_ref).baton_passing {
        state.get_side(&side_ref).baton_passing = false;
        instructions.push(Instruction::ToggleBatonPassing(ToggleBatonPassingInstruction { side_ref }));
        assert(instructions.instruction_list@ =~= l0 + seq![Instruction::ToggleBatonPassing(ToggleBatonPassingInstruction { side_ref })]);
        true
    } else {
        assert(instructions.instruction_list@ =~= l0 + seq![]);
        false
    }
}

/// A Shed Tail in progress on `r` cleared, and its record.
#[verifier::opaque]
pub open spec fn spec_clear_shed_tailing(s: State, r: SideReference) -> (State, Seq<Instruction>) {
    let side = s.spec_side(r);
    if side.shed_tailing {
        (s.spec_set_side(r, Side { shed_tailing: false, ..side }),
            seq![Instruction::ToggleShedTailing(ToggleShedTailingInstruction { side_ref: r })])
    } else {
        (s, seq![])
    }
}

/// Clears a Shed Tail in progress on `side_ref`, recording it; says whether there was one.
fn clear_shed_tailing(state: &mut State, side_ref: SideReference, instructions: &mut StateInstructions) -> (r: bool)
    ensures
        spec_step(*old(state), *old(instructions), *final(state), *final(instructions), spec_clear_shed_tailing(*old(state), side_ref)),
        r == old(state).spec_side(side_ref).shed_tailing,
{
    reveal(spec_clear_shed_tailing);
    let ghost l0 = instructions.instruction_list@;
    if state.get_side_immutable(&side_ref).shed_tailing {
        state.get_side(&side_ref).shed_tailing = false;
        instructions.push(Instruction::ToggleShedTailing(ToggleShedTailingInstruction { side_ref }));
        assert(instructions.instruction_list@ =~= l0 + seq![Instruction::ToggleShedTailing(ToggleShedTailingInstruction { side_ref })]);
        true
    } else {
        assert(instructions.instruction_list@ =~= l0 + seq![]);
        false
    }
}

/// A foe of `r` held by a binding move freed, and its record.
#[verifier::opaque]
pub open spec fn spec_free_trapped_foe(s: State, r: SideReference) -> (State, Seq<Instruction>) {
    if s.spec_active(r.spec_other()).volatile_statuses.spec_contains(PokemonVolatileStatus::PARTIALLYTRAPPED) {
        spec_remove_step(s, r.spec_other(), PokemonVolatileStatus::PARTIALLYTRAPPED)
    } else {
        (s, seq![])
    }
}

fn free_trapped_foe(state: &mut State, side_ref: SideReference, instructions: &mut StateInstructions)
    ensures
        spec_step(*old(state), *old(instructions), *final(state), *final(instructions), spec_free_trapped_foe(*old(state), side_ref)),
{
    reveal(spec_free_trapped_foe);
    let ghost l0 = instructions.instruction_list@;
    let other_ref = side_ref.get_other_side();
    if state.get_side_immutable(&other_ref).get_active_immutable().volatile_statuses
        .contains(&PokemonVolatileStatus::PARTIALLYTRAPPED) {
        remove_volatile(state, other_ref, PokemonVolatileStatus::PARTIALLYTRAPPED, instructions);
    } else {
        assert(instructions.instruction_list@ =~= l0 + seq![]);
    }
}

/// Move `mi` of the active Pokemon of `r` enabled again if it was disabled, and its record.
#[verifier::opaque]
pub open spec fn spec_enable_move(s: State, r: SideReference, mi: PokemonMoveIndex) -> (State, Seq<Instruction>) {
    let p = s.spec_active(r);
    let m = p.moves.spec_get(mi);
    if m.disabled {
        (s.spec_with_active(r, Pokemon { moves: p.moves.spec_set(mi, Move { disabled: false, ..m }), ..p }),
            seq![Instruction::EnableMove(EnableMoveInstruction { side_ref: r, slot: 0, move_index: mi })])
    } else {
        (s, seq![])
    }
}

fn enable_move(state: &mut State, side_ref: SideReference, mi: PokemonMoveIndex, instructions: &mut StateInstructions)
    ensures
        spec_step(*old(state), *old(instructions), *final(state), *final(instructions), spec_enable_move(*old(state), side_ref, mi)),
{
    reveal(spec_enable_move);
    let ghost l0 = instructions.instruction_list@;
    if state.get_side_immutable(&side_ref).get_active_immutable().moves.get(mi).disabled {
        instructions.push(Instruction::EnableMove(EnableMoveInstruction::new(side_ref, 0, mi)));
        state.get_side(&side_ref).get_active().moves.get_mut(mi).disabled = false;
        assert(instructions.instruction_list@ =~= l0 + seq![Instruction::EnableMove(EnableMoveInstruction { side_ref, slot: 0, move_index: mi })]);
    } else {
        assert(instructions.instruction_list@ =~= l0 + seq![]);
    }
}

/// The disabled moves of the active Pokemon of `r` enabled again, in slot order.
#[verifier::opaque]
pub open spec fn spec_enable_moves(s: State, r: SideReference) -> (State, Seq<Instruction>) {
    let t1 = spec_enable_move(s, r, PokemonMoveIndex::M0);
    let t2 = spec_enable_move(t1.0, r, PokemonMoveIndex::M1);
    let t3 = spec_enable_move(t2.0, r, PokemonMoveIndex::M2);
    let t4 = spec_enable_move(t3.0, r, PokemonMoveIndex::M3);
    spec_then(spec_then(spec_then(t1, t2), t3), t4)
}

fn enable_moves(state: &mut State, side_ref: SideReference, instructions: &mut StateInstructions)
    ensures
        spec_step(*old(state), *old(instructions), *final(state), *final(instructions), spec_enable_moves(*old(state), side_ref)),
{
    reveal(spec_enable_moves);
    let ghost l0 = instructions.instruction_list@;
    let ghost s0 = *state;
    enable_move(state, side_ref, PokemonMoveIndex::M0, instructions);
    enable_move(state, side_ref, PokemonMoveIndex::M1, instructions);
    enable_move(state, side_ref, PokemonMoveIndex::M2, instructions);
    enable_move(state, side_ref, PokemonMoveIndex::M3, instructions);
    assert(instructions.instruction_list@ =~= l0 + spec_enable_moves(s0, side_ref).1);
}

/// The stats whose boosts leaving the field sets back to 0, in that order.
pub open spec fn spec_reset_stats() -> Seq<PokemonBoostableStat> {
    seq![
        PokemonBoostableStat::Attack, PokemonBoostableStat::Defense,
        PokemonBoostableStat::SpecialAttack, PokemonBoostableStat::SpecialDefense,
        PokemonBoostableStat::Speed, PokemonBoostableStat::Evasion, PokemonBoostableStat::Accuracy,
    ]
}

/// Pokemon `p` with its boosts among the first `k` stats of
/// `spec_reset_stats` set back to 0, and the Boosts that record it, in order:
/// each takes away the stages `p` had.
pub open spec fn spec_reset_all(p: Pokemon, r: SideReference, k: nat) -> (Pokemon, Seq<Instruction>)
    decreases k,
{
    if k == 0 {
        (p, seq![])
    } else {
        let (q, l) = spec_reset_all(p, r, (k - 1) as nat);
        let st = spec_reset_stats()[k - 1];
        let b = p.spec_boost(st);
        if b != 0 {
            (q.spec_with_boost(st, 0),
                l.push(Instruction::Boost(BoostInstruction { side_ref: r, slot: 0, stat: st, amount: clamp8(-b) })))
        } else {
            (q, l)
        }
    }
}

/// Every boost of the active Pokemon of `r` back to 0, and its record.
#[verifier::opaque]
pub open spec fn spec_reset_boosts(s: State, r: SideReference) -> (State, Seq<Instruction>) {
    let (p, l) = spec_reset_all(s.spec_active(r), r, 7);
    (s.spec_with_active(r, p), l)
}

#[verifier::spinoff_prover]
#[verifier::rlimit(60)]
fn reset_boosts(state: &mut State, side_ref: SideReference, instructions: &mut StateInstructions)
    ensures
        spec_step(*old(state), *old(instructions), *final(state), *final(instructions), spec_reset_boosts(*old(state), side_ref)),
{
    reveal(spec_reset_boosts);
    let stats = [
        PokemonBoostableStat::Attack, PokemonBoostableStat::Defense,
        PokemonBoostableStat::SpecialAttack, PokemonBoostableStat::SpecialDefense,
        PokemonBoostableStat::Speed, PokemonBoostableStat::Evasion, PokemonBoostableStat::Accuracy,
    ];
    assert(stats@ =~= spec_reset_stats());
    let ghost l0 = instructions.instruction_list@;
    let orig = *state.get_side_immutable(&side_ref).get_active_immutable();
    let mut p = orig;
    let mut k: usize = 0;
    while k < 7
        invariant
            k <= 7,
            stats@ == spec_reset_stats(),
            p == spec_reset_all(orig, side_ref, k as nat).0,
            instructions.instruction_list@ == l0 + spec_reset_all(orig, side_ref, k as nat).1,
            instructions.percentage == old(instructions).percentage,
        decreases 7 - k,
    {
        let st = stats[k];
        let b = orig.get_boost(st);
        if b != 0 {
            instructions.push(Instruction::Boost(BoostInstruction::new(side_ref, 0, st, clamp_i8(-(b as i32)))));
            p.set_boost(st, 0);
        }
        assert(instructions.instruction_list@ =~= l0 + spec_reset_all(orig, side_ref, (k + 1) as nat).1);
        k = k + 1;
    }
    *state.get_side(&side_ref).get_active() = p;
}

/// Party member `next` of `r` on the field in place of `previous`, and its record.
#[verifier::opaque]
pub open spec fn spec_switch_step(s: State, r: SideReference, previous: PokemonIndex, next: PokemonIndex) -> (State, Seq<Instruction>) {
    (s.spec_set_side(r, s.spec_side(r).spec_switch(previous, next)),
        seq![Instruction::Switch(SwitchInstruction { side_ref: r, previous_index: previous, next_index: next })])
}

/// Puts party member `next` of `side_ref` on the field in place of `previous`, recording it.
fn switch_active(state: &mut State, side_ref: SideReference, previous: PokemonIndex, next: PokemonIndex,
    instructions: &mut StateInstructions)
    ensures
        spec_step(*old(state), *old(instructions), *final(state), *final(instructions), spec_switch_step(*old(state), side_ref, previous, next)),
{
    reveal(spec_switch_step);
    let ghost l0 = instructions.instruction_list@;
    let side = state.get_side(&side_ref);
    side.swap_active_state(previous, next);
    side.active_index = next;
    let x = Instruction::Switch(SwitchInstruction { side_ref, previous_index: previous, next_index: next });
    instructions.push(x);
    assert(instructions.instruction_list@ =~= l0 + seq![x]);
}

/// The last action of the active Pokemon of `r` recorded as a switch to `index`.
#[verifier::opaque]
pub open spec fn spec_record_switch(s: State, r: SideReference, index: PokemonIndex) -> (State, Seq<Instruction>) {
    let side = s.spec_side(r);
    let p = side.spec_active();
    (s.spec_set_side(r, side.spec_set_active(Pokemon { last_used_move: LastUsedMove::Switch(index), ..p })),
        seq![Instruction::SetLastUsedMove(SetLastUsedMoveInstruction {
            side_ref: r, slot: 0, last_used_move: LastUsedMove::Switch(index), previous_last_used_move: p.last_used_move })])
}

/// Records on `side_ref` that its last action was a switch to `index`.
fn record_switch(state: &mut State, side_ref: SideReference, index: PokemonIndex, instructions: &mut StateInstructions)
    ensures
        spec_step(*old(state), *old(instructions), *final(state), *final(instructions), spec_record_switch(*old(state), side_ref, index)),
{
    reveal(spec_record_switch);
    let ghost l0 = instructions.instruction_list@;
    let side = state.get_side(&side_ref);
    let previous = side.get_active_immutable().last_used_move;
    let x = Instruction::SetLastUsedMove(SetLastUsedMoveInstruction::new(
        side_ref, 0, LastUsedMove::Switch(index), previous));
    instructions.push(x);
    side.get_active().last_used_move = LastUsedMove::Switch(index);
    assert(instructions.instruction_list@ =~= l0 + seq![x]);
}

/// The status of party member `index` of `r` taken away, with what comes with
/// it (see `spec_remove_status_list` and `spec_status_removed`), and its record.
#[verifier::opaque]
pub open spec fn spec_remove_status_step(s: State, r: SideReference, index: PokemonIndex) -> (State, Seq<Instruction>) {
    let side = s.spec_side(r);
    let p = side.pokemon.spec_get(index);
    let count = side.side_conditions.toxic_count;
    (s.spec_set_side(r, Side {
        pokemon: side.pokemon.spec_set(index, spec_status_removed(p)),
        side_conditions: if p.status == PokemonStatus::TOXIC && count != 0 {
            SideConditions { toxic_count: 0, ..side.side_conditions }
        } else {
            side.side_conditions
        },
        ..side
    }), spec_remove_status_list(p, index, r, count))
}

/// Takes away the status of party member `index` of `side_ref`.
fn remove_status_of(state: &mut State, side_ref: SideReference, index: PokemonIndex, instructions: &mut StateInstructions)
    ensures
        spec_step(*old(state), *old(instructions), *final(state), *final(instructions), spec_remove_status_step(*old(state), side_ref, index)),
{
    reveal(spec_remove_status_step);
    let side = state.get_side(&side_ref);
    add_remove_status_instructions(instructions, index, side_ref, side);
}

/// A boost of `amount` to `stat` of the active Pokemon of `target`, caused by
/// `attacker` (see `spec_boost_result`), and its record.
#[verifier::opaque]
pub open spec fn spec_boost_step(s: State, target: SideReference, stat: PokemonBoostableStat, amount: i8,
    attacker: SideReference) -> (State, Seq<Instruction>)
{
    let p = s.spec_active(target);
    let (q, l) = spec_boost_result(p, stat, amount, attacker, target);
    if spec_applied_boost(p, stat, amount, attacker, target) != 0 {
        (s.spec_with_active(target, q), l)
    } else {
        (s.spec_set_side(target, s.spec_side(target)), l)
    }
}

/// Tries a boost on the active Pokemon of `target_ref`, caused by `attacker_ref`.
pub(crate) fn boost_active(
    state: &mut State,
    target_ref: SideReference,
    stat: PokemonBoostableStat,
    amount: i8,
    attacker_ref: SideReference,
    instructions: &mut StateInstructions,
)
    ensures
        spec_step(*old(state), *old(instructions), *final(state), *final(instructions),
            spec_boost_step(*old(state), target_ref, stat, amount, attacker_ref)),
{
    reveal(spec_boost_step);
    let side = state.get_side(&target_ref);
    apply_boost_instruction(side, 0, &stat, &amount, &attacker_ref, &target_ref, instructions);
}

/// What the ability of the Pokemon leaving the field of `r` does: Regenerator
/// heals a third of its maximum hit points, as far as they go, if it is hurt
/// and standing; Natural Cure takes away its status.
#[verifier::opaque]
pub open spec fn spec_switch_out_ability(s: State, r: SideReference) -> (State, Seq<Instruction>) {
    let side = s.spec_side(r);
    let p = side.spec_active();
    if p.ability == Abilities::REGENERATOR && p.hp > 0 && p.hp < p.maxhp {
        spec_heal_step(s, r, min_int(trunc_div(p.maxhp * 1, 3), p.maxhp - p.hp) as i16)
    } else if p.ability == Abilities::NATURALCURE && p.status != PokemonStatus::NONE {
        spec_remove_status_step(s, r, side.active_index)
    } else {
        (s, seq![])
    }
}

/// What the ability of the Pokemon leaving the field of `side_ref` does (see
/// `spec_switch_out_ability`).
#[verifier::spinoff_prover]
#[verifier::rlimit(60)]
pub fn ability_on_switch_out(state: &mut State, side_ref: &SideReference, instructions: &mut StateInstructions)
    ensures
        spec_step(*old(state), *old(instructions), *final(state), *final(instructions), spec_switch_out_ability(*old(state), *side_ref)),
{
    reveal(spec_switch_out_ability);
    let ghost l0 = instructions.instruction_list@;
    let active = *state.get_side_immutable(side_ref).get_active_immutable();
    if active.ability == Abilities::REGENERATOR && active.hp > 0 && active.hp < active.maxhp {
        let third = fraction_of_maxhp(&active, 1, 3);
        let heal = min32(third, active.maxhp as i32 - active.hp as i32);
        heal_active(state, *side_ref, heal as i16, instructions);
    } else if active.ability == Abilities::NATURALCURE && active.status != PokemonStatus::NONE {
        let index = state.get_side_immutable(side_ref).active_index;
        remove_status_of(state, *side_ref, index, instructions);
    } else {
        assert(instructions.instruction_list@ =~= l0 + seq![]);
    }
}

/// What the ability of the Pokemon entering the field of `r` does:
/// Intimidate lowers the foe's attack by one stage, unless the foe has Inner
/// Focus (see `spec_boost_result` for what else a drop can do).
#[verifier::opaque]
pub open spec fn spec_switch_in_ability(s: State, r: SideReference) -> (State, Seq<Instruction>) {
    if s.spec_active(r).ability == Abilities::INTIMIDATE && s.spec_active(r.spec_other()).ability != Abilities::INNERFOCUS {
        spec_boost_step(s, r.spec_other(), PokemonBoostableStat::Attack, -1i8, r)
    } else {
        (s, seq![])
    }
}

/// What the ability of the Pokemon entering the field of `side_ref` does (see
/// `spec_switch_in_ability`).
#[verifier::spinoff_prover]
#[verifier::rlimit(60)]
pub fn ability_on_switch_in(state: &mut State, side_ref: &SideReference, instructions: &mut StateInstructions)
    ensures
        spec_step(*old(state), *old(instructions), *final(state), *final(instructions), spec_switch_in_ability(*old(state), *side_ref)),
{
    reveal(spec_switch_in_ability);
    let ghost l0 = instructions.instruction_list@;
    let active = *state.get_side_immutable(side_ref).get_active_immutable();
    let other_ref = side_ref.get_other_side();
    let target_ability = state.get_side_immutable(&other_ref).get_active_immutable().ability;
    if active.ability == Abilities::INTIMIDATE && target_ability != Abilities::INNERFOCUS {
        boost_active(state, other_ref, PokemonBoostableStat::Attack, -1, *side_ref, instructions);
    } else {
        assert(instructions.instruction_list@ =~= l0 + seq![]);
    }
}

/// The volatile statuses of the active Pokemon of `r` as it leaves the field
/// (see `spec_volatiles_on_switch`), and their record.
#[verifier::opaque]
pub open spec fn spec_volatiles_step(s: State, r: SideReference, baton_passing: bool, shed_tailing: bool) -> (State, Seq<Instruction>) {
    let (p, l) = spec_volatiles_on_switch(s.spec_active(r), r, baton_passing, shed_tailing, 104);
    (s.spec_with_active(r, p), l)
}

/// What happens as the Pokemon of `r` leaves the field: a forced switch, a
/// Baton Pass and a Shed Tail in progress end; a foe it held with a binding
/// move is freed; its disabled moves come back; its volatile statuses go
/// (but what a Baton Pass or Shed Tail passes on); its toxic count goes back
/// to 0; unless it Baton Passes, its boosts go; and its ability acts.
#[verifier::opaque]
pub open spec fn spec_leave_field(s: State, r: SideReference) -> (State, Seq<Instruction>) {
    let t1 = spec_clear_force_switch(s, r);
    let baton = t1.0.spec_side(r).baton_passing;
    let t2 = spec_clear_baton_passing(t1.0, r);
    let shed = t2.0.spec_side(r).shed_tailing;
    let t3 = spec_clear_shed_tailing(t2.0, r);
    let t4 = spec_free_trapped_foe(t3.0, r);
    let t5 = spec_enable_moves(t4.0, r);
    let t6 = spec_volatiles_step(t5.0, r, baton, shed);
    let t7 = spec_reset_toxic(t6.0, r);
    let t8 = if !baton { spec_reset_boosts(t7.0, r) } else { (t7.0, seq![]) };
    let t9 = spec_switch_out_ability(t8.0, r);
    spec_then(spec_then(spec_then(spec_then(spec_then(spec_then(spec_then(spec_then(t1, t2), t3), t4), t5), t6), t7), t8), t9)
}

#[verifier::spinoff_prover]
#[verifier::rlimit(60)]
fn leave_field(state: &mut State, side_ref: SideReference, instructions: &mut StateInstructions)
    ensures
        spec_step(*old(state), *old(instructions), *final(state), *final(instructions), spec_leave_field(*old(state), side_ref)),
{
    reveal(spec_leave_field);
    reveal(spec_volatiles_step);
    let ghost l0 = instructions.instruction_list@;
    let ghost s0 = *state;
    clear_force_switch(state, side_ref, instructions);
    let baton_passing = clear_baton_passing(state, side_ref, instructions);
    let shed_tailing = clear_shed_tailing(state, side_ref, instructions);
    free_trapped_foe(state, side_ref, instructions);
    enable_moves(state, side_ref, instructions);
    state.remove_volatile_statuses_on_switch(&side_ref, &mut instructions.instruction_list,
        baton_passing, shed_tailing);
    state.reset_toxic_count(&side_ref, &mut instructions.instruction_list);
    if !baton_passing {
        reset_boosts(state, side_ref, instructions);
    }
    ability_on_switch_out(state, &side_ref, instructions);
    assert(instructions.instruction_list@ =~= l0 + spec_leave_field(s0, side_ref).1);
}

/// A Healing Wish waiting on `r` restores the Pokemon `index` that came in:
/// its hit points, then its status; it is used up if there was anything to
/// restore.
#[verifier::opaque]
pub open spec fn spec_healing_wish(s: State, r: SideReference, index: PokemonIndex) -> (State, Seq<Instruction>) {
    let active = s.spec_active(r);
    let hurt = active.hp < active.maxhp;
    let ill = active.status != PokemonStatus::NONE;
    if s.spec_side(r).side_conditions.healing_wish > 0 && (hurt || ill) {
        let t1 = if hurt { spec_heal_step(s, r, clamp16(active.maxhp - active.hp)) } else { (s, seq![]) };
        let t2 = if ill { spec_remove_status_step(t1.0, r, index) } else { (t1.0, seq![]) };
        let hw = t2.0.spec_side(r).side_conditions.healing_wish;
        spec_then(spec_then(t1, t2), spec_condition_step(t2.0, r, PokemonSideCondition::HealingWish, clamp8(-hw)))
    } else {
        (s, seq![])
    }
}

#[verifier::spinoff_prover]
#[verifier::rlimit(60)]
fn apply_healing_wish(state: &mut State, side_ref: SideReference, index: PokemonIndex, instructions: &mut StateInstructions)
    ensures
        spec_step(*old(state), *old(instructions), *final(state), *final(instructions), spec_healing_wish(*old(state), side_ref, index)),
{
    reveal(spec_healing_wish);
    let ghost l0 = instructions.instruction_list@;
    let ghost s0 = *state;
    let active = *state.get_side_immutable(&side_ref).get_active_immutable();
    let hurt = active.hp < active.maxhp;
    let ill = active.status != PokemonStatus::NONE;
    if state.get_side_immutable(&side_ref).side_conditions.healing_wish > 0 && (hurt || ill) {
        if hurt {
            let heal = clamp_i16(active.maxhp as i32 - active.hp as i32);
            heal_active(state, side_ref, heal, instructions);
        }
        if ill {
            remove_status_of(state, side_ref, index, instructions);
        }
        let hw = state.get_side_immutable(&side_ref).side_conditions.healing_wish;
        change_side_condition(state, side_ref, PokemonSideCondition::HealingWish,
            clamp_i8(-(hw as i32)), instructions);
    }
    assert(instructions.instruction_list@ =~= l0 + spec_healing_wish(s0, side_ref, index).1);
}

/// Toxic Spikes on `r` poison (one layer) or badly poison (two layers) a
/// grounded Pokemon coming in that can be poisoned; a grounded Poison type
/// that cannot absorbs them.
#[verifier::opaque]
pub open spec fn spec_toxic_spikes(s: State, r: SideReference) -> (State, Seq<Instruction>) {
    let active = s.spec_active(r);
    let layers = s.spec_side(r).side_conditions.toxic_spikes;
    if layers > 0 && active.spec_is_grounded() {
        if !spec_immune_to_status(s, MoveTarget::User, r, PokemonStatus::POISON) {
            if layers == 1 {
                spec_status_step(s, r, PokemonStatus::POISON)
            } else if layers == 2 {
                spec_status_step(s, r, PokemonStatus::TOXIC)
            } else {
                (s, seq![])
            }
        } else if active.spec_has_type(PokemonType::POISON) {
            spec_condition_step(s, r, PokemonSideCondition::ToxicSpikes, clamp8(-layers))
        } else {
            (s, seq![])
        }
    } else {
        (s, seq![])
    }
}

#[verifier::spinoff_prover]
#[verifier::rlimit(60)]
fn apply_toxic_spikes(state: &mut State, side_ref: SideReference, instructions: &mut StateInstructions)
    ensures
        spec_step(*old(state), *old(instructions), *final(state), *final(instructions), spec_toxic_spikes(*old(state), side_ref)),
{
    reveal(spec_toxic_spikes);
    let ghost l0 = instructions.instruction_list@;
    let ghost s0 = *state;
    let active = *state.get_side_immutable(&side_ref).get_active_immutable();
    let toxic_spikes = state.get_side_immutable(&side_ref).side_conditions.toxic_spikes;
    if toxic_spikes > 0 && active.is_grounded() {
        if !immune_to_status(state, &MoveTarget::User, &side_ref, &PokemonStatus::POISON) {
            if toxic_spikes == 1 {
                set_active_status(state, side_ref, PokemonStatus::POISON, instructions);
            } else if toxic_spikes == 2 {
                set_active_status(state, side_ref, PokemonStatus::TOXIC, instructions);
            }
        } else if active.has_type(&PokemonType::POISON) {
            change_side_condition(state, side_ref, PokemonSideCondition::ToxicSpikes,
                clamp_i8(-(toxic_spikes as i32)), instructions);
        }
    }
    assert(instructions.instruction_list@ =~= l0 + spec_toxic_spikes(s0, side_ref).1);
}

/// Stealth Rock (see `spec_stealth_rock_damage`), then Spikes (an eighth of
/// the maximum hit points per layer, up to sixteen layers, as far as there
/// are, and only to a grounded Pokemon) hurt the Pokemon coming in on `r`,
/// unless it has Magic Guard.
#[verifier::opaque]
pub open spec fn spec_damaging_hazards(s: State, r: SideReference) -> (State, Seq<Instruction>) {
    let active = s.spec_active(r);
    if active.ability != Abilities::MAGICGUARD {
        let t1 = if s.spec_side(r).side_conditions.stealth_rock == 1 {
            spec_damage_step(s, r, spec_stealth_rock_damage(active) as i16)
        } else {
            (s, seq![])
        };
        let s1 = t1.0;
        let a1 = s1.spec_active(r);
        let spikes = s1.spec_side(r).side_conditions.spikes;
        let layers: int = if spikes > 16 { 16 } else { spikes as int };
        let t2 = if spikes > 0 && a1.spec_is_grounded() {
            spec_damage_step(s1, r, clamp16(min_int(trunc_div(a1.maxhp * layers, 8), a1.hp as int)))
        } else {
            (s1, seq![])
        };
        spec_then(t1, t2)
    } else {
        (s, seq![])
    }
}

#[verifier::spinoff_prover]
#[verifier::rlimit(60)]
fn apply_damaging_hazards(state: &mut State, side_ref: SideReference, instructions: &mut StateInstructions)
    ensures
        spec_step(*old(state), *old(instructions), *final(state), *final(instructions), spec_damaging_hazards(*old(state), side_ref)),
{
    reveal(spec_damaging_hazards);
    let ghost l0 = instructions.instruction_list@;
    let ghost s0 = *state;
    let active = *state.get_side_immutable(&side_ref).get_active_immutable();
    if active.ability != Abilities::MAGICGUARD {
        if state.get_side_immutable(&side_ref).side_conditions.stealth_rock == 1 {
            let dmg = stealth_rock_damage(&active);
            damage_active(state, side_ref, dmg, instructions);
        }
        let active = *state.get_side_immutable(&side_ref).get_active_immutable();
        let spikes = state.get_side_immutable(&side_ref).side_conditions.spikes;
        if spikes > 0 && active.is_grounded() {
            let layers: i32 = if spikes > 16 { 16 } else { spikes as i32 };
            let per = fraction_of_maxhp(&active, layers, 8);
            let dmg = min32(per, active.hp as i32);
            damage_active(state, side_ref, clamp_i16(dmg), instructions);
        }
    }
    assert(instructions.instruction_list@ =~= l0 + spec_damaging_hazards(s0, side_ref).1);
}

/// The hazards of `r` act on the Pokemon coming in, unless it wears
/// Heavy-Duty Boots: Sticky Web lowers a grounded Pokemon's speed a stage,
/// then Toxic Spikes, then Stealth Rock and Spikes.
#[verifier::opaque]
pub open spec fn spec_hazards(s: State, r: SideReference) -> (State, Seq<Instruction>) {
    let active = s.spec_active(r);
    if active.item != Items::HEAVYDUTYBOOTS {
        let t1 = if s.spec_side(r).side_conditions.sticky_web == 1 && active.spec_is_grounded() {
            spec_boost_step(s, r, PokemonBoostableStat::Speed, -1i8, r)
        } else {
            (s, seq![])
        };
        let t2 = spec_toxic_spikes(t1.0, r);
        let t3 = spec_damaging_hazards(t2.0, r);
        spec_then(spec_then(t1, t2), t3)
    } else {
        (s, seq![])
    }
}

#[verifier::spinoff_prover]
#[verifier::rlimit(60)]
fn apply_hazards(state: &mut State, side_ref: SideReference, instructions: &mut StateInstructions)
    ensures
        spec_step(*old(state), *old(instructions), *final(state), *final(instructions), spec_hazards(*old(state), side_ref)),
{
    reveal(spec_hazards);
    let ghost l0 = instructions.instruction_list@;
    let ghost s0 = *state;
    let active = *state.get_side_immutable(&side_ref).get_active_immutable();
    if active.item != Items::HEAVYDUTYBOOTS {
        if state.get_side_immutable(&side_ref).side_conditions.sticky_web == 1 && active.is_grounded() {
            boost_active(state, side_ref, PokemonBoostableStat::Speed, -1, side_ref, instructions);
        }
        apply_toxic_spikes(state, side_ref, instructions);
        apply_damaging_hazards(state, side_ref, instructions);
    }
    assert(instructions.instruction_list@ =~= l0 + spec_hazards(s0, side_ref).1);
}

/// The Pokemon of `r` switching to party member `index` from `s`: it leaves
/// the field, the Switch itself, the switch recorded as its last action when
/// that is tracked, a waiting Healing Wish, the hazards, then the ability of
/// the Pokemon coming in.
#[verifier::opaque]
pub open spec fn spec_switch(s: State, r: SideReference, index: PokemonIndex) -> (State, Seq<Instruction>) {
    let previous = s.spec_side(r).active_index;
    let t1 = spec_leave_field(s, r);
    let t2 = spec_switch_step(t1.0, r, previous, index);
    let t3 = if s.use_last_used_move { spec_record_switch(t2.0, r, index) } else { (t2.0, seq![]) };
    let t4 = spec_healing_wish(t3.0, r, index);
    let t5 = spec_hazards(t4.0, r);
    let t6 = spec_switch_in_ability(t5.0, r);
    spec_then(spec_then(spec_then(spec_then(spec_then(t1, t2), t3), t4), t5), t6)
}

/// The instructions of the Pokemon of `switching_side_ref` switching to party
/// member `new_pokemon_index`, appended to `incoming_instructions`: those of
/// `spec_switch` from the state as it stands, with the chance unchanged. The
/// state is left as it was.
#[verifier::spinoff_prover]
#[verifier::rlimit(60)]
pub fn generate_instructions_from_switch(
    state: &mut State,
    new_pokemon_index: PokemonIndex,
    switching_side_ref: SideReference,
    incoming_instructions: &mut StateInstructions,
)
    ensures
        *final(state) == *old(state),
        spec_grows(*old(incoming_instructions), *final(incoming_instructions)),
        final(incoming_instructions).instruction_list@ == old(incoming_instructions).instruction_list@
            + spec_switch(*old(state), switching_side_ref, new_pokemon_index).1,
{
    reveal(spec_switch);
    let ghost l0 = incoming_instructions.instruction_list@;
    let previous_index = state.get_side_immutable(&switching_side_ref).active_index;
    let mut st: State = *state;
    let should_last_used_move = st.use_last_used_move;
    leave_field(&mut st, switching_side_ref, incoming_instructions);
    switch_active(&mut st, switching_side_ref, previous_index, new_pokemon_index, incoming_instructions);
    if should_last_used_move {
        record_switch(&mut st, switching_side_ref, new_pokemon_index, incoming_instructions);
    }
    apply_healing_wish(&mut st, switching_side_ref, new_pokemon_index, incoming_instructions);
    apply_hazards(&mut st, switching_side_ref, incoming_instructions);
    ability_on_switch_in(&mut st, &switching_side_ref, incoming_instructions);
    assert(incoming_instructions.instruction_list@ =~= l0 + spec_switch(*old(state), switching_side_ref, new_pokemon_index).1);
}

} // verus!
