//! Properties of the library that span its functions.

use vstd::prelude::*;
use crate::abilities::Abilities;
use crate::choices::{Choice, Choices, MoveCategory};
use crate::end_of_turn::spec_status_damage;
use crate::generate::{spec_chance_to_wake_up, spec_condition_step, spec_damage_step, spec_get_boost_amount};
use crate::instruction::{
    ChangeSideConditionInstruction, ChangeStatusInstruction, DamageInstruction, Instruction, Percentage,
    SetSleepTurnsInstruction,
};
use crate::items::Items;
use crate::options::{
    MoveChoice, spec_all_options, spec_available_moves, spec_bench_switches, spec_charging_from,
    spec_move_options, spec_ordinary_options, spec_or_nothing,
};
use crate::order::spec_speed_factor;
use crate::state::{
    BattlePosition, LastUsedMove, Pokemon, PokemonBoostableStat, PokemonSideCondition,
    PokemonStatus, PokemonVolatileStatus, Side, SideConditions, SideReference, State,
    Terrain, Weather,
};
use crate::turn::{
    spec_confusion_stage, spec_existing_status_conditions, spec_protect_stage, spec_sleep_stage,
    spec_status_stage,
};

verus! {

/// A boost never takes a Pokemon past +6 or -6 stages: whatever amount is
/// asked for, the amount applied keeps the stages between -6 and 6.
pub proof fn law_boost_stays_in_range(current: i8, amount: i8)
    requires
        -6 <= current <= 6,
    ensures
        -6 <= current + spec_get_boost_amount(current, amount) <= 6,
        amount > 0 ==> 0 <= spec_get_boost_amount(current, amount) <= amount,
        amount < 0 ==> amount <= spec_get_boost_amount(current, amount) <= 0,
{
}

/// Splitting a branch into the shares `num / den` and `(den - num) / den`
/// loses no chance: the two shares add up to the branch's own chance.
pub proof fn law_split_keeps_chance(p: Percentage, num: u64, den: u64)
    requires
        p.denominator > 0,
        0 < den,
        num <= den,
        p.numerator * num <= u64::MAX,
        p.numerator * (den - num) <= u64::MAX,
        p.denominator * den <= u64::MAX,
    ensures
        ({
            let a = p.spec_scaled(num, den);
            let b = p.spec_scaled((den - num) as u64, den);
            a.denominator == b.denominator
                && (a.numerator + b.numerator) * p.denominator == p.numerator * a.denominator
        }),
{
    reveal(crate::instruction::spec_halve_to_fit);
    let a = p.spec_scaled(num, den);
    let b = p.spec_scaled((den - num) as u64, den);
    assert(a.numerator == p.numerator * num);
    assert(b.numerator == p.numerator * (den - num));
    assert(a.denominator == p.denominator * den);
    assert((p.numerator * num + p.numerator * (den - num)) * p.denominator
        == p.numerator * (p.denominator * den)) by (nonlinear_arith);
}


/// `state` with the Tailwind of side `r` over.
pub open spec fn spec_without_tailwind(state: State, r: SideReference) -> State {
    let side = state.spec_side(r);
    state.spec_set_side(r, Side { side_conditions: SideConditions { tailwind: 0, ..side.side_conditions }, ..side })
}

proof fn lemma_without_tailwind_side(state: State, r: SideReference)
    ensures
        spec_without_tailwind(state, r).spec_side(r) == (Side {
            side_conditions: SideConditions { tailwind: 0, ..state.spec_side(r).side_conditions },
            ..state.spec_side(r)
        }),
        spec_without_tailwind(state, r).weather == state.weather,
        spec_without_tailwind(state, r).terrain == state.terrain,
{
    reveal(State::spec_side);
    reveal(State::spec_set_side);
}

proof fn lemma_times_two(m: int, i: int)
    ensures
        m * 2 * i == 2 * (m * 1 * i),
{
    assert(m * 2 * i == 2 * (m * 1 * i)) by (nonlinear_arith);
}

/// Tailwind doubles the speed by which the order of moves is decided: the
/// factor on the active Pokemon's boosted speed has twice the numerator, and
/// the same denominator, that it has once the Tailwind is over, all else
/// equal.
pub proof fn law_tailwind_doubles_speed(state: State, r: SideReference)
    requires
        state.spec_side(r).side_conditions.tailwind > 0,
    ensures
        spec_speed_factor(state, r).0 == 2 * spec_speed_factor(spec_without_tailwind(state, r), r).0,
        spec_speed_factor(state, r).1 == spec_speed_factor(spec_without_tailwind(state, r), r).1,
{
    reveal(spec_speed_factor);
    lemma_without_tailwind_side(state, r);
    let p = state.spec_side(r).spec_active();
    let w = state.weather.weather_type;
    let f1: int = if ((w == Weather::SUN || w == Weather::HARSHSUN) && p.ability == Abilities::CHLOROPHYLL)
        || ((w == Weather::RAIN || w == Weather::HEAVYRAIN) && p.ability == Abilities::SWIFTSWIM)
        || (w == Weather::SAND && p.ability == Abilities::SANDRUSH)
        || (w == Weather::HAIL && p.ability == Abilities::SLUSHRUSH) { 2 } else { 1 };
    let a_n: int = if p.ability == Abilities::SURGESURFER && state.terrain.terrain_type == Terrain::ELECTRICTERRAIN { 2 }
        else if p.ability == Abilities::UNBURDEN && p.volatile_statuses.spec_contains(PokemonVolatileStatus::UNBURDEN) { 2 }
        else if p.ability == Abilities::QUICKFEET && p.status != PokemonStatus::NONE { 3 } else { 1 };
    let boost_speed: bool = p.volatile_statuses.spec_contains(PokemonVolatileStatus::PROTOSYNTHESISSPE)
        || p.volatile_statuses.spec_contains(PokemonVolatileStatus::QUARKDRIVESPE);
    let b_n: int = if boost_speed { 3 } else { 1 };
    let i_n: int = if p.item == Items::IRONBALL { 1 } else if p.item == Items::CHOICESCARF { 3 } else { 1 };
    let a_d: int = if p.ability == Abilities::SURGESURFER && state.terrain.terrain_type == Terrain::ELECTRICTERRAIN { 1 }
        else if p.ability == Abilities::UNBURDEN && p.volatile_statuses.spec_contains(PokemonVolatileStatus::UNBURDEN) { 1 }
        else if p.ability == Abilities::QUICKFEET && p.status != PokemonStatus::NONE { 2 } else { 1 };
    let slow_d: int = if p.volatile_statuses.spec_contains(PokemonVolatileStatus::SLOWSTART) { 2 } else { 1 };
    let b_d: int = if boost_speed { 2 } else { 1 };
    let i_d: int = if p.item == Items::IRONBALL { 2 } else if p.item == Items::CHOICESCARF { 2 } else { 1 };
    let par_d: int = if p.status == PokemonStatus::PARALYZE && p.ability != Abilities::QUICKFEET { 2 } else { 1 };
    assert(spec_speed_factor(state, r).0 == f1 * a_n * b_n * 2 * i_n);
    assert(spec_speed_factor(spec_without_tailwind(state, r), r).0 == f1 * a_n * b_n * 1 * i_n);
    assert(spec_speed_factor(state, r).1 == a_d * slow_d * b_d * i_d * par_d);
    assert(spec_speed_factor(spec_without_tailwind(state, r), r).1 == a_d * slow_d * b_d * i_d * par_d);
    lemma_times_two(f1 * a_n * b_n, i_n);
}

/// Bad poison hurts more each turn: at the end of the turn a badly poisoned
/// Pokemon (standing, without Magic Guard or Poison Heal) loses the share
/// `(toxic count + 1) / 16` of its maximum hit points, the count taken as at
/// most 15, rounded down, at least one and no more than it has, and the toxic
/// count goes up by one.
pub proof fn law_bad_poison_grows_with_toxic_count(s: State, r: SideReference)
    requires
        s.spec_active(r).status == PokemonStatus::TOXIC,
        s.spec_active(r).hp > 0,
        s.spec_active(r).maxhp >= 0,
        s.spec_active(r).ability != Abilities::MAGICGUARD,
        s.spec_active(r).ability != Abilities::POISONHEAL,
        s.spec_side(r).side_conditions.toxic_count >= 0,
    ensures
        ({
            let p = s.spec_active(r);
            let count = s.spec_side(r).side_conditions.toxic_count;
            let stacks: int = if count > 15 { 16 } else { count + 1 };
            let share: int = p.maxhp * stacks / 16;
            let damage: int = if share > p.hp { p.hp as int } else if share < 1 { 1 } else { share };
            spec_status_damage(s, r).1 == seq![
                Instruction::Damage(DamageInstruction { side_ref: r, slot: 0, damage_amount: damage as i16 }),
                Instruction::ChangeSideCondition(ChangeSideConditionInstruction {
                    side_ref: r, side_condition: PokemonSideCondition::ToxicCount, amount: 1 }),
            ]
        }),
{
    reveal(spec_status_damage);
    let p = s.spec_active(r);
    let count = s.spec_side(r).side_conditions.toxic_count;
    let stacks: int = if count > 15 { 16 } else { count + 1 };
    assert(p.maxhp * stacks >= 0) by (nonlinear_arith) requires p.maxhp >= 0, stacks >= 1;
    let share: int = p.maxhp * stacks / 16;
    let damage: int = if share > p.hp { p.hp as int } else if share < 1 { 1 } else { share };
    let t1 = spec_damage_step(s, r, damage as i16);
    lemma_damage_step_list(s, r, damage as i16);
    lemma_condition_step_list(t1.0, r, PokemonSideCondition::ToxicCount, 1);
}

proof fn lemma_damage_step_list(s: State, r: SideReference, amount: i16)
    ensures
        spec_damage_step(s, r, amount).1 == seq![Instruction::Damage(DamageInstruction {
            side_ref: r, slot: 0, damage_amount: amount })],
{
    reveal(spec_damage_step);
}

proof fn lemma_condition_step_list(s: State, r: SideReference, c: PokemonSideCondition, amount: i8)
    ensures
        spec_condition_step(s, r, c, amount).1 == seq![Instruction::ChangeSideCondition(
            ChangeSideConditionInstruction { side_ref: r, side_condition: c, amount })],
{
    reveal(spec_condition_step);
}

/// Sleep Talk is used asleep: an attacker asleep (not by Rest) that chooses
/// Sleep Talk, with a chance to wake strictly between none and certain, acts
/// in the branch in which it stays asleep, one more turn asleep, with the
/// chance of staying asleep; the first branch it does not act in is the one
/// in which it wakes, with the chance of waking.
pub proof fn law_sleep_talk_is_used_asleep(side: Side, r: SideReference, choice: Choice, p: Percentage,
    l: Seq<Instruction>)
    requires
        side.spec_active().status == PokemonStatus::SLEEP,
        side.spec_active().rest_turns == 0,
        choice.move_id == Choices::SLEEPTALK,
        0 < spec_chance_to_wake_up(side.spec_active().sleep_turns).0 < spec_chance_to_wake_up(side.spec_active().sleep_turns).1,
    ensures
        ({
            let a = side.spec_active();
            let st = a.sleep_turns;
            let (n, d) = spec_chance_to_wake_up(st);
            let (p3, l3, added, after) = spec_existing_status_conditions(side, r, choice, p, l);
            &&& after.status == PokemonStatus::SLEEP
            &&& after.sleep_turns == st + 1
            &&& l3 == l.push(Instruction::SetSleepTurns(SetSleepTurnsInstruction {
                    side_ref: r, pokemon_index: side.active_index, new_turns: (st + 1) as i8, previous_turns: st }))
            &&& added.len() >= 1
            &&& added[0] == (p.spec_scaled(n, d), l.push(Instruction::ChangeStatus(ChangeStatusInstruction {
                    side_ref: r, pokemon_index: side.active_index, old_status: PokemonStatus::SLEEP,
                    new_status: PokemonStatus::NONE })).push(Instruction::SetSleepTurns(SetSleepTurnsInstruction {
                    side_ref: r, pokemon_index: side.active_index, new_turns: 0, previous_turns: st })))
            &&& !a.volatile_statuses.spec_contains(PokemonVolatileStatus::CONFUSION) && side.side_conditions.protect <= 0
                ==> p3 == p.spec_scaled((d - n) as u64, d)
        }),
{
    reveal(spec_status_stage);
    reveal(spec_sleep_stage);
    reveal(spec_confusion_stage);
    reveal(spec_protect_stage);
    let a = side.spec_active();
    let (p1, l1, b1, a1) = spec_status_stage(a, r, side.active_index, choice.move_id, p, l);
    let (p2, l2, b2) = spec_confusion_stage(side, a1, r, p1, l1);
    let (p3, l3, b3) = spec_protect_stage(side.side_conditions.protect, choice.volatile_status, p2, l2);
    assert((b1 + b2 + b3)[0] == b1[0]);
}

/// Whether option `o` of Pokemon `p` uses a move other than a status move.
pub open spec fn spec_no_status_move(p: Pokemon, o: MoveChoice) -> bool {
    match o {
        MoveChoice::Move { move_index, target } => p.moves.spec_get(move_index).category != MoveCategory::Status,
        MoveChoice::MoveTera { move_index, target } => p.moves.spec_get(move_index).category != MoveCategory::Status,
        MoveChoice::MoveMega { move_index, target } => p.moves.spec_get(move_index).category != MoveCategory::Status,
        _ => true,
    }
}

proof fn lemma_available_moves_no_status(p: Pokemon, last_used_move: LastUsedMove, encored: bool, taunted: bool,
    can_tera: bool, target: BattlePosition, k: nat)
    requires
        taunted || p.item == Items::ASSAULTVEST,
    ensures
        forall|j: int| 0 <= j < spec_available_moves(p, last_used_move, encored, taunted, can_tera, target, k).len()
            ==> spec_no_status_move(p, #[trigger] spec_available_moves(p, last_used_move, encored, taunted, can_tera, target, k)[j]),
    decreases k,
{
    if k > 0 {
        lemma_available_moves_no_status(p, last_used_move, encored, taunted, can_tera, target, (k - 1) as nat);
        reveal(spec_move_options);
        let prev = spec_available_moves(p, last_used_move, encored, taunted, can_tera, target, (k - 1) as nat);
        let mo = spec_move_options(p, crate::options::spec_move_index_at(k - 1), last_used_move, encored, taunted, can_tera, target);
        let all = spec_available_moves(p, last_used_move, encored, taunted, can_tera, target, k);
        assert(all == prev + mo);
        assert forall|j: int| 0 <= j < all.len() implies spec_no_status_move(p, #[trigger] all[j]) by {
            if j < prev.len() {
                assert(all[j] == prev[j]);
            } else {
                assert(all[j] == mo[j - prev.len()]);
            }
        }
    }
}

proof fn lemma_bench_switches_are_switches(side: Side, k: nat)
    ensures
        forall|j: int| 0 <= j < spec_bench_switches(side, k).len() ==> #[trigger] spec_bench_switches(side, k)[j] is Switch,
    decreases k,
{
    if k > 0 {
        lemma_bench_switches_are_switches(side, (k - 1) as nat);
    }
}

proof fn lemma_ordinary_options_no_status(side: Side, foe: Pokemon, target: BattlePosition)
    requires
        side.spec_active().volatile_statuses.spec_contains(PokemonVolatileStatus::TAUNT)
            || side.spec_active().item == Items::ASSAULTVEST,
        spec_charging_from(side.spec_active(), 0) is None,
    ensures
        forall|j: int| 0 <= j < spec_or_nothing(spec_ordinary_options(side, foe, target)).len()
            ==> spec_no_status_move(side.spec_active(), #[trigger] spec_or_nothing(spec_ordinary_options(side, foe, target))[j]),
{
    let p = side.spec_active();
    let taunted = p.volatile_statuses.spec_contains(PokemonVolatileStatus::TAUNT);
    let moves = spec_available_moves(p, p.last_used_move,
        p.volatile_statuses.spec_contains(PokemonVolatileStatus::ENCORE), taunted, false, target, 4);
    lemma_available_moves_no_status(p, p.last_used_move,
        p.volatile_statuses.spec_contains(PokemonVolatileStatus::ENCORE), taunted, false, target, 4);
    lemma_bench_switches_are_switches(side, 6);
    let bench = spec_bench_switches(side, 6);
    let both = moves + bench;
    assert forall|j: int| 0 <= j < both.len() implies spec_no_status_move(p, #[trigger] both[j]) by {
        if j < moves.len() {
            assert(both[j] == moves[j]);
        } else {
            assert(both[j] == bench[j - moves.len()]);
        }
    }
}

/// Taunt and an Assault Vest keep status moves out of the options: while
/// neither side must switch and both active Pokemon stand, no option of a side
/// whose active Pokemon is taunted or holds an Assault Vest (and is not in the
/// middle of a charging move) uses a status move.
pub proof fn law_taunt_blocks_status_moves(state: State)
    requires
        !state.side_one.force_switch,
        !state.side_two.force_switch,
        state.side_one.spec_active().hp > 0,
        state.side_two.spec_active().hp > 0,
    ensures
        ({
            let p = state.side_one.spec_active();
            (p.volatile_statuses.spec_contains(PokemonVolatileStatus::TAUNT) || p.item == Items::ASSAULTVEST)
                && spec_charging_from(p, 0) is None
                ==> forall|k: int| 0 <= k < spec_all_options(state).0.len()
                    ==> spec_no_status_move(p, #[trigger] spec_all_options(state).0[k])
        }),
        ({
            let p = state.side_two.spec_active();
            (p.volatile_statuses.spec_contains(PokemonVolatileStatus::TAUNT) || p.item == Items::ASSAULTVEST)
                && spec_charging_from(p, 0) is None
                ==> forall|k: int| 0 <= k < spec_all_options(state).1.len()
                    ==> spec_no_status_move(p, #[trigger] spec_all_options(state).1[k])
        }),
{
    reveal(spec_all_options);
    let to_two = BattlePosition { side: SideReference::SideTwo, slot: 0 };
    let to_one = BattlePosition { side: SideReference::SideOne, slot: 0 };
    let p1 = state.side_one.spec_active();
    let p2 = state.side_two.spec_active();
    if (p1.volatile_statuses.spec_contains(PokemonVolatileStatus::TAUNT) || p1.item == Items::ASSAULTVEST)
        && spec_charging_from(p1, 0) is None {
        lemma_ordinary_options_no_status(state.side_one, p2, to_two);
    }
    if (p2.volatile_statuses.spec_contains(PokemonVolatileStatus::TAUNT) || p2.item == Items::ASSAULTVEST)
        && spec_charging_from(p2, 0) is None {
        lemma_ordinary_options_no_status(state.side_two, p1, to_one);
    }
}

} // verus!
