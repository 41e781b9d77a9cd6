//! What a move does besides its damage: the side conditions it sets, the
//! volatile statuses and statuses it gives, the hit points it restores or
//! takes, and the stat stages it changes. Each effect lands on the active
//! Pokemon of the side that its target names, and each is recorded.

use vstd::prelude::*;
use crate::checks::trunc_div;
use crate::choices::{Choice, MoveTarget};
use crate::generate::{
    boost_active, change_side_condition, heal_active, apply_volatile, immune_to_status,
    set_active_status, spec_add_volatile_step, spec_boost_step, spec_condition_step,
    spec_heal_step, spec_immune_to_status, spec_status_step,
};
use crate::instruction::{ChangeItemInstruction, Instruction, StateInstructions, spec_step, spec_then};
use crate::items::Items;
use crate::state::{
    Pokemon, PokemonBoostableStat, PokemonSideCondition, PokemonStatus, PokemonVolatileStatus,
    SideReference, State, Weather,
};
use crate::choices::VolatileStatus;

verus! {

/// The turns that a screen, Safeguard or Mist lasts.
pub const SIDE_CONDITION_DURATION: i8 = 5;
/// The turns that Tailwind lasts.
pub const TAILWIND_DURATION: i8 = 4;

/// A side condition that a move sets, and on whose side.
#[derive(Clone, Copy, PartialEq, Eq, Debug)]
pub struct SideCondition {
    pub target: MoveTarget,
    pub condition: PokemonSideCondition,
}

/// A status that a move gives, and to whom.
#[derive(Clone, Copy, PartialEq, Eq, Debug)]
pub struct Status {
    pub target: MoveTarget,
    pub status: PokemonStatus,
}

/// Hit points that a move restores (or, below zero, takes), as the share
/// `numerator / denominator` of the target's maximum hit points.
#[derive(Clone, Copy, PartialEq, Eq, Debug)]
pub struct Heal {
    pub target: MoveTarget,
    pub numerator: i32,
    pub denominator: i32,
}

/// The stages that a move adds to each stat.
#[derive(Clone, Copy, PartialEq, Eq, Debug)]
pub struct StatBoosts {
    pub attack: i8,
    pub defense: i8,
    pub special_attack: i8,
    pub special_defense: i8,
    pub speed: i8,
    pub accuracy: i8,
}

/// Stat stages that a move changes, and on whom.
#[derive(Clone, Copy, PartialEq, Eq, Debug)]
pub struct Boost {
    pub target: MoveTarget,
    pub boosts: StatBoosts,
}

/// Nothing done, nothing recorded.
pub open spec fn spec_unchanged(s: State) -> (State, Seq<Instruction>) {
    (s, seq![])
}

/// How many turns a side condition set by a move lasts, where it lasts a
/// fixed number of turns.
pub open spec fn spec_condition_duration(c: PokemonSideCondition) -> Option<i8> {
    if c == PokemonSideCondition::AuroraVeil || c == PokemonSideCondition::LightScreen
        || c == PokemonSideCondition::Reflect || c == PokemonSideCondition::Safeguard
        || c == PokemonSideCondition::Mist {
        Some(SIDE_CONDITION_DURATION)
    } else if c == PokemonSideCondition::Tailwind {
        Some(TAILWIND_DURATION)
    } else {
        None
    }
}

/// The most layers of a side condition that stacks: three of Spikes, two of
/// Toxic Spikes, one of the others.
pub open spec fn spec_max_layers(c: PokemonSideCondition) -> i8 {
    if c == PokemonSideCondition::Spikes { 3 } else if c == PokemonSideCondition::ToxicSpikes { 2 } else { 1 }
}

/// A side condition set by a move of `attacker`. One with a duration is set
/// for its turns only where it is not up already, and Aurora Veil only in
/// hail or snow; one that stacks gains a layer up to its most.
#[verifier::opaque]
pub open spec fn spec_side_condition_effect(s: State, sc: SideCondition, attacker: SideReference) -> (State, Seq<Instruction>) {
    let r = sc.target.spec_affected_side(attacker);
    let v = s.spec_side(r).side_conditions.spec_get(sc.condition);
    match spec_condition_duration(sc.condition) {
        Some(duration) => {
            if sc.condition == PokemonSideCondition::AuroraVeil
                && !s.spec_weather_is_active(Weather::HAIL) && !s.spec_weather_is_active(Weather::SNOW) {
                spec_unchanged(s)
            } else if v == 0 {
                spec_condition_step(s, r, sc.condition, duration)
            } else {
                spec_unchanged(s)
            }
        },
        None => {
            if v < spec_max_layers(sc.condition) {
                spec_condition_step(s, r, sc.condition, 1)
            } else {
                spec_unchanged(s)
            }
        },
    }
}

/// Sets the side condition of a move used by `attacking_side_reference`
/// (see `spec_side_condition_effect`).
pub fn generate_instructions_from_side_conditions(
    state: &mut State,
    side_condition: &SideCondition,
    attacking_side_reference: &SideReference,
    incoming_instructions: &mut StateInstructions,
)
    ensures
        spec_step(*old(state), *old(incoming_instructions), *final(state), *final(incoming_instructions),
            spec_side_condition_effect(*old(state), *side_condition, *attacking_side_reference)),
{
    reveal(spec_side_condition_effect);
    let ghost l0 = incoming_instructions.instruction_list@;
    let c = side_condition.condition;
    let r = side_condition.target.affected_side(*attacking_side_reference);
    let duration: Option<i8> = match c {
        PokemonSideCondition::AuroraVeil | PokemonSideCondition::LightScreen | PokemonSideCondition::Reflect
        | PokemonSideCondition::Safeguard | PokemonSideCondition::Mist => Some(SIDE_CONDITION_DURATION),
        PokemonSideCondition::Tailwind => Some(TAILWIND_DURATION),
        _ => None,
    };
    let v = state.get_side_immutable(&r).side_conditions.get(c);
    match duration {
        Some(d) => {
            if c == PokemonSideCondition::AuroraVeil && !state.weather_is_active(&Weather::HAIL)
                && !state.weather_is_active(&Weather::SNOW) {
                assert(incoming_instructions.instruction_list@ =~= l0 + seq![]);
                return;
            }
            if v == 0 {
                change_side_condition(state, r, c, d, incoming_instructions);
            } else {
                assert(incoming_instructions.instruction_list@ =~= l0 + seq![]);
            }
        },
        None => {
            let max_layers: i8 = match c {
                PokemonSideCondition::Spikes => 3,
                PokemonSideCondition::ToxicSpikes => 2,
                _ => 1,
            };
            if v < max_layers {
                change_side_condition(state, r, c, 1, incoming_instructions);
            } else {
                assert(incoming_instructions.instruction_list@ =~= l0 + seq![]);
            }
        },
    }
}

/// A volatile status given by a move of `attacker`: Yawn fails on a Pokemon
/// that could not fall asleep, and any other lands where the target can take
/// it (see `spec_volatile_status_can_be_applied`).
#[verifier::opaque]
pub open spec fn spec_volatile_effect(s: State, choice: Choice, vs: VolatileStatus, attacker: SideReference) -> (State, Seq<Instruction>) {
    let r = vs.target.spec_affected_side(attacker);
    let p = s.spec_active(r);
    if vs.volatile_status == PokemonVolatileStatus::YAWN
        && spec_immune_to_status(s, MoveTarget::Opponent, r, PokemonStatus::SLEEP) {
        spec_unchanged(s)
    } else if p.spec_volatile_status_can_be_applied(vs.volatile_status, p.volatile_statuses, choice.first_move) {
        spec_add_volatile_step(s, r, vs.volatile_status)
    } else {
        spec_unchanged(s)
    }
}

/// Gives the volatile status of a move used by `attacking_side_reference`
/// (see `spec_volatile_effect`).
pub fn get_instructions_from_volatile_statuses(
    state: &mut State,
    attacker_choice: &Choice,
    volatile_status: &VolatileStatus,
    attacking_side_reference: &SideReference,
    incoming_instructions: &mut StateInstructions,
)
    ensures
        spec_step(*old(state), *old(incoming_instructions), *final(state), *final(incoming_instructions),
            spec_volatile_effect(*old(state), *attacker_choice, *volatile_status, *attacking_side_reference)),
{
    reveal(spec_volatile_effect);
    let ghost l0 = incoming_instructions.instruction_list@;
    let r = volatile_status.target.affected_side(*attacking_side_reference);
    let vs = volatile_status.volatile_status;
    if vs == PokemonVolatileStatus::YAWN
        && immune_to_status(state, &MoveTarget::Opponent, &r, &PokemonStatus::SLEEP) {
        assert(incoming_instructions.instruction_list@ =~= l0 + seq![]);
        return;
    }
    let p = state.get_side_immutable(&r).get_active_immutable();
    if p.volatile_status_can_be_applied(&vs, &p.volatile_statuses, attacker_choice.first_move) {
        apply_volatile(state, r, vs, incoming_instructions);
    } else {
        assert(incoming_instructions.instruction_list@ =~= l0 + seq![]);
    }
}

/// The held item `item` of the active Pokemon of `r` lost, and its record.
#[verifier::opaque]
pub open spec fn spec_lose_item_step(s: State, r: SideReference, item: Items) -> (State, Seq<Instruction>) {
    let p = s.spec_active(r);
    (s.spec_with_active(r, Pokemon { item: Items::NONE, ..p }),
        seq![Instruction::ChangeItem(ChangeItemInstruction {
            side_ref: r, slot: 0, current_item: item, new_item: Items::NONE })])
}

fn lose_item(state: &mut State, r: SideReference, item: Items, instructions: &mut StateInstructions)
    ensures
        spec_step(*old(state), *old(instructions), *final(state), *final(instructions), spec_lose_item_step(*old(state), r, item)),
{
    reveal(spec_lose_item_step);
    let ghost l0 = instructions.instruction_list@;
    state.get_side(&r).get_active().item = Items::NONE;
    instructions.push(Instruction::ChangeItem(ChangeItemInstruction::new(r, 0, item, Items::NONE)));
    assert(instructions.instruction_list@ =~= l0 + spec_lose_item_step(*old(state), r, item).1);
}

/// A status given by a move of `attacker`: nothing where the move hit a
/// substitute or the target is immune; a Lum Berry, or a Chesto Berry against
/// sleep, is eaten in its place; otherwise the target takes the status.
#[verifier::opaque]
pub open spec fn spec_status_effect(s: State, st: Status, attacker: SideReference, hit_sub: bool) -> (State, Seq<Instruction>) {
    let r = st.target.spec_affected_side(attacker);
    let p = s.spec_active(r);
    if hit_sub || spec_immune_to_status(s, st.target, r, st.status) {
        spec_unchanged(s)
    } else if p.item == Items::LUMBERRY {
        spec_lose_item_step(s, r, Items::LUMBERRY)
    } else if p.item == Items::CHESTOBERRY && st.status == PokemonStatus::SLEEP {
        spec_lose_item_step(s, r, Items::CHESTOBERRY)
    } else {
        spec_status_step(s, r, st.status)
    }
}

/// Gives the status of a move used by `attacking_side_reference` (see
/// `spec_status_effect`).
pub fn get_instructions_from_status_effects(
    state: &mut State,
    status: &Status,
    attacking_side_reference: &SideReference,
    incoming_instructions: &mut StateInstructions,
    hit_sub: bool,
)
    ensures
        spec_step(*old(state), *old(incoming_instructions), *final(state), *final(incoming_instructions),
            spec_status_effect(*old(state), *status, *attacking_side_reference, hit_sub)),
{
    reveal(spec_status_effect);
    let ghost l0 = incoming_instructions.instruction_list@;
    let r = status.target.affected_side(*attacking_side_reference);
    if hit_sub || immune_to_status(state, &status.target, &r, &status.status) {
        assert(incoming_instructions.instruction_list@ =~= l0 + seq![]);
        return;
    }
    let item = state.get_side_immutable(&r).get_active_immutable().item;
    if item == Items::LUMBERRY || (item == Items::CHESTOBERRY && status.status == PokemonStatus::SLEEP) {
        lose_item(state, r, item, incoming_instructions);
    } else {
        set_active_status(state, r, status.status, incoming_instructions);
    }
}

/// The hit points that a heal of `h` gives `p`: the share of its maximum hit
/// points, rounded toward zero, then held so that the hit points end between
/// 0 and the maximum.
pub open spec fn spec_heal_amount(p: Pokemon, h: Heal) -> int {
    let recovered = trunc_div(h.numerator * p.maxhp, h.denominator as int);
    let total = p.hp + recovered;
    if total > p.maxhp {
        p.maxhp - p.hp
    } else if total < 0 {
        -p.hp
    } else {
        recovered
    }
}

/// What a heal given by a move of `attacker` restores or takes, where it
/// changes anything.
#[verifier::opaque]
pub open spec fn spec_heal_effect(s: State, h: Heal, attacker: SideReference) -> (State, Seq<Instruction>) {
    let r = h.target.spec_affected_side(attacker);
    let amount = spec_heal_amount(s.spec_active(r), h);
    if amount != 0 {
        spec_heal_step(s, r, amount as i16)
    } else {
        spec_unchanged(s)
    }
}

/// Restores (or takes) the hit points of a heal of a move used by
/// `attacking_side_reference` (see `spec_heal_effect`).
pub fn get_instructions_from_heal(
    state: &mut State,
    heal: &Heal,
    attacking_side_reference: &SideReference,
    incoming_instructions: &mut StateInstructions,
)
    requires
        1 <= heal.denominator <= 64,
        -heal.denominator <= heal.numerator <= heal.denominator,
        0 <= old(state).spec_active(heal.target.spec_affected_side(*attacking_side_reference)).maxhp,
        i16::MIN < old(state).spec_active(heal.target.spec_affected_side(*attacking_side_reference)).hp
            + trunc_div(heal.numerator * old(state).spec_active(heal.target.spec_affected_side(*attacking_side_reference)).maxhp,
                heal.denominator as int) <= i16::MAX,
        i16::MIN < old(state).spec_active(heal.target.spec_affected_side(*attacking_side_reference)).hp,
    ensures
        spec_step(*old(state), *old(incoming_instructions), *final(state), *final(incoming_instructions),
            spec_heal_effect(*old(state), *heal, *attacking_side_reference)),
{
    reveal(spec_heal_effect);
    let ghost l0 = incoming_instructions.instruction_list@;
    let r = heal.target.affected_side(*attacking_side_reference);
    let p = *state.get_side_immutable(&r).get_active_immutable();
    let maxhp: i32 = p.maxhp as i32;
    let hp: i32 = p.hp as i32;
    proof {
        assert(-32768 * 64 <= heal.numerator * maxhp <= 32767 * 64) by (nonlinear_arith)
            requires 0 <= maxhp <= 32767, -64 <= heal.numerator <= 64;
    }
    let prod: i32 = heal.numerator * maxhp;
    let recovered: i32 = if prod >= 0 { prod / heal.denominator } else { -((-prod) / heal.denominator) };
    let total: i32 = hp + recovered;
    let amount: i32 = if total > maxhp {
        maxhp - hp
    } else if total < 0 {
        -hp
    } else {
        recovered
    };
    proof {
        assert(trunc_div(heal.numerator * p.maxhp, heal.denominator as int) == recovered as int);
        if prod >= 0 {
            assert(recovered <= prod) by (nonlinear_arith) requires recovered == prod / heal.denominator, prod >= 0, heal.denominator >= 1;
            assert(prod <= maxhp * heal.denominator) by (nonlinear_arith)
                requires prod == heal.numerator * maxhp, heal.numerator <= heal.denominator, maxhp >= 0;
            assert(recovered <= maxhp) by (nonlinear_arith)
                requires recovered == prod / heal.denominator, prod <= maxhp * heal.denominator, heal.denominator >= 1, prod >= 0;
        }
    }
    if amount != 0 {
        heal_active(state, r, amount as i16, incoming_instructions);
    } else {
        assert(incoming_instructions.instruction_list@ =~= l0 + seq![]);
    }
}

/// A change of `amount` stages of `stat`, where `amount` is not zero.
#[verifier::opaque]
pub open spec fn spec_maybe_boost(s: State, r: SideReference, stat: PokemonBoostableStat, amount: i8,
    attacker: SideReference) -> (State, Seq<Instruction>)
{
    if amount != 0 { spec_boost_step(s, r, stat, amount, attacker) } else { spec_unchanged(s) }
}

/// The stat stages changed by a move of `attacker`, one stat after another:
/// attack, defense, special attack, special defense, speed, accuracy.
#[verifier::opaque]
pub open spec fn spec_boosts_effect(s: State, b: Boost, attacker: SideReference) -> (State, Seq<Instruction>) {
    let r = b.target.spec_affected_side(attacker);
    let t1 = spec_maybe_boost(s, r, PokemonBoostableStat::Attack, b.boosts.attack, attacker);
    let t2 = spec_maybe_boost(t1.0, r, PokemonBoostableStat::Defense, b.boosts.defense, attacker);
    let t3 = spec_maybe_boost(t2.0, r, PokemonBoostableStat::SpecialAttack, b.boosts.special_attack, attacker);
    let t4 = spec_maybe_boost(t3.0, r, PokemonBoostableStat::SpecialDefense, b.boosts.special_defense, attacker);
    let t5 = spec_maybe_boost(t4.0, r, PokemonBoostableStat::Speed, b.boosts.speed, attacker);
    let t6 = spec_maybe_boost(t5.0, r, PokemonBoostableStat::Accuracy, b.boosts.accuracy, attacker);
    spec_then(spec_then(spec_then(spec_then(spec_then(t1, t2), t3), t4), t5), t6)
}

fn maybe_boost(
    state: &mut State,
    r: SideReference,
    stat: PokemonBoostableStat,
    amount: i8,
    attacker: SideReference,
    instructions: &mut StateInstructions,
)
    ensures
        spec_step(*old(state), *old(instructions), *final(state), *final(instructions),
            spec_maybe_boost(*old(state), r, stat, amount, attacker)),
{
    reveal(spec_maybe_boost);
    if amount != 0 {
        boost_active(state, r, stat, amount, attacker, instructions);
    } else {
        assert(instructions.instruction_list@ =~= old(instructions).instruction_list@ + seq![]);
    }
}

/// Changes the stat stages of a move used by `attacking_side_reference`
/// (see `spec_boosts_effect`).
#[verifier::spinoff_prover]
pub fn get_instructions_from_boosts(
    state: &mut State,
    boosts: &Boost,
    attacking_side_reference: &SideReference,
    incoming_instructions: &mut StateInstructions,
)
    ensures
        spec_step(*old(state), *old(incoming_instructions), *final(state), *final(incoming_instructions),
            spec_boosts_effect(*old(state), *boosts, *attacking_side_reference)),
{
    reveal(spec_boosts_effect);
    let ghost l0 = incoming_instructions.instruction_list@;
    let ghost s0 = *state;
    let a = *attacking_side_reference;
    let r = boosts.target.affected_side(a);
    let b = boosts.boosts;
    maybe_boost(state, r, PokemonBoostableStat::Attack, b.attack, a, incoming_instructions);
    maybe_boost(state, r, PokemonBoostableStat::Defense, b.defense, a, incoming_instructions);
    maybe_boost(state, r, PokemonBoostableStat::SpecialAttack, b.special_attack, a, incoming_instructions);
    maybe_boost(state, r, PokemonBoostableStat::SpecialDefense, b.special_defense, a, incoming_instructions);
    maybe_boost(state, r, PokemonBoostableStat::Speed, b.speed, a, incoming_instructions);
    maybe_boost(state, r, PokemonBoostableStat::Accuracy, b.accuracy, a, incoming_instructions);
    assert(incoming_instructions.instruction_list@ =~= l0 + spec_boosts_effect(s0, *boosts, a).1);
}

} // verus!
