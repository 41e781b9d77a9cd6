//! The order of a turn: the speed of each side and which side moves first.

use vstd::prelude::*;
use crate::abilities::Abilities;
use crate::checks::trunc_div;
use crate::choices::{Choice, Choices, MoveCategory};
use crate::instruction::{ChangeItemInstruction, Instruction, StateInstructions, spec_grows};
use crate::items::Items;
use crate::state::{
    Pokemon, PokemonBoostableStat, PokemonStatus, PokemonType, PokemonVolatileStatus, SideMovesFirst,
    SideReference, State, Terrain, Weather,
};

verus! {

/// The speed of the active Pokemon of `side_reference` once the weather, its
/// ability, its volatile statuses, Tailwind, its item and paralysis are
/// counted, as `(numerator, denominator)` of the factor on its boosted speed.
#[verifier::opaque]
pub open spec fn spec_speed_factor(state: State, side_reference: SideReference) -> (int, int) {
    let side = state.spec_side(side_reference);
    let p = side.spec_active();
    let w = state.weather.weather_type;
    let f1: int = if ((w == Weather::SUN || w == Weather::HARSHSUN) && p.ability == Abilities::CHLOROPHYLL)
        || ((w == Weather::RAIN || w == Weather::HEAVYRAIN) && p.ability == Abilities::SWIFTSWIM)
        || (w == Weather::SAND && p.ability == Abilities::SANDRUSH)
        || (w == Weather::HAIL && p.ability == Abilities::SLUSHRUSH) { 2 } else { 1 };
    let a_n: int = if p.ability == Abilities::SURGESURFER && state.terrain.terrain_type == Terrain::ELECTRICTERRAIN { 2 }
        else if p.ability == Abilities::UNBURDEN && p.volatile_statuses.spec_contains(PokemonVolatileStatus::UNBURDEN) { 2 }
        else if p.ability == Abilities::QUICKFEET && p.status != PokemonStatus::NONE { 3 } else { 1 };
    let a_d: int = if p.ability == Abilities::SURGESURFER && state.terrain.terrain_type == Terrain::ELECTRICTERRAIN { 1 }
        else if p.ability == Abilities::UNBURDEN && p.volatile_statuses.spec_contains(PokemonVolatileStatus::UNBURDEN) { 1 }
        else if p.ability == Abilities::QUICKFEET && p.status != PokemonStatus::NONE { 2 } else { 1 };
    let slow_d: int = if p.volatile_statuses.spec_contains(PokemonVolatileStatus::SLOWSTART) { 2 } else { 1 };
    let boost_speed: bool = p.volatile_statuses.spec_contains(PokemonVolatileStatus::PROTOSYNTHESISSPE)
        || p.volatile_statuses.spec_contains(PokemonVolatileStatus::QUARKDRIVESPE);
    let b_n: int = if boost_speed { 3 } else { 1 };
    let b_d: int = if boost_speed { 2 } else { 1 };
    let t_n: int = if side.side_conditions.tailwind > 0 { 2 } else { 1 };
    let i_n: int = if p.item == Items::IRONBALL { 1 } else if p.item == Items::CHOICESCARF { 3 } else { 1 };
    let i_d: int = if p.item == Items::IRONBALL { 2 } else if p.item == Items::CHOICESCARF { 2 } else { 1 };
    let par_d: int = if p.status == PokemonStatus::PARALYZE && p.ability != Abilities::QUICKFEET { 2 } else { 1 };
    (f1 * a_n * b_n * t_n * i_n, a_d * slow_d * b_d * i_d * par_d)
}

pub open spec fn saturate_i16(v: int) -> int {
    if v > i16::MAX { i16::MAX as int } else if v < i16::MIN { i16::MIN as int } else { v }
}

#[verifier::opaque]
pub open spec fn spec_effective_speed(state: State, side_reference: SideReference) -> int {
    let (n, d) = spec_speed_factor(state, side_reference);
    saturate_i16(trunc_div(state.spec_side(side_reference).spec_boosted_stat(PokemonBoostableStat::Speed) * n, d))
}

/// The speed that decides the order of moves for the active Pokemon of `side_reference`.
#[verifier::spinoff_prover]
#[verifier::rlimit(100)]
pub fn get_effective_speed(state: &State, side_reference: &SideReference) -> (r: i16)
    requires
        state.spec_side(*side_reference).spec_boosted_stat_fits(PokemonBoostableStat::Speed),
    ensures
        r == spec_effective_speed(*state, *side_reference),
{
    reveal(spec_effective_speed);
    reveal(spec_speed_factor);
    let side = state.get_side_immutable(side_reference);
    let p = *side.get_active_immutable();
    let boosted: i64 = side.calculate_boosted_stat(PokemonBoostableStat::Speed) as i64;
    let w = state.weather.weather_type;
    let f1: i64 = if ((w == Weather::SUN || w == Weather::HARSHSUN) && p.ability == Abilities::CHLOROPHYLL)
        || ((w == Weather::RAIN || w == Weather::HEAVYRAIN) && p.ability == Abilities::SWIFTSWIM)
        || (w == Weather::SAND && p.ability == Abilities::SANDRUSH)
        || (w == Weather::HAIL && p.ability == Abilities::SLUSHRUSH) { 2 } else { 1 };
    let unburden = p.volatile_statuses.contains(&PokemonVolatileStatus::UNBURDEN);
    let (a_n, a_d): (i64, i64) = if p.ability == Abilities::SURGESURFER && state.terrain.terrain_type == Terrain::ELECTRICTERRAIN { (2, 1) }
        else if p.ability == Abilities::UNBURDEN && unburden { (2, 1) }
        else if p.ability == Abilities::QUICKFEET && p.status != PokemonStatus::NONE { (3, 2) } else { (1, 1) };
    let slow_d: i64 = if p.volatile_statuses.contains(&PokemonVolatileStatus::SLOWSTART) { 2 } else { 1 };
    let proto = p.volatile_statuses.contains(&PokemonVolatileStatus::PROTOSYNTHESISSPE);
    let quark = p.volatile_statuses.contains(&PokemonVolatileStatus::QUARKDRIVESPE);
    let (b_n, b_d): (i64, i64) = if proto || quark { (3, 2) } else { (1, 1) };
    let t_n: i64 = if side.side_conditions.tailwind > 0 { 2 } else { 1 };
    let (i_n, i_d): (i64, i64) = if p.item == Items::IRONBALL { (1, 2) } else if p.item == Items::CHOICESCARF { (3, 2) } else { (1, 1) };
    let par_d: i64 = if p.status == PokemonStatus::PARALYZE && p.ability != Abilities::QUICKFEET { 2 } else { 1 };
    proof {
        assert(1 <= f1 * a_n <= 6) by (nonlinear_arith) requires 1 <= f1 <= 2, 1 <= a_n <= 3;
        assert(1 <= f1 * a_n * b_n <= 18) by (nonlinear_arith) requires 1 <= f1 * a_n <= 6, 1 <= b_n <= 3;
        assert(1 <= f1 * a_n * b_n * t_n <= 36) by (nonlinear_arith) requires 1 <= f1 * a_n * b_n <= 18, 1 <= t_n <= 2;
        assert(1 <= f1 * a_n * b_n * t_n * i_n <= 108) by (nonlinear_arith) requires 1 <= f1 * a_n * b_n * t_n <= 36, 1 <= i_n <= 3;
        assert(1 <= a_d * slow_d <= 4) by (nonlinear_arith) requires 1 <= a_d <= 2, 1 <= slow_d <= 2;
        assert(1 <= a_d * slow_d * b_d <= 8) by (nonlinear_arith) requires 1 <= a_d * slow_d <= 4, 1 <= b_d <= 2;
        assert(1 <= a_d * slow_d * b_d * i_d <= 16) by (nonlinear_arith) requires 1 <= a_d * slow_d * b_d <= 8, 1 <= i_d <= 2;
        assert(1 <= a_d * slow_d * b_d * i_d * par_d <= 32) by (nonlinear_arith) requires 1 <= a_d * slow_d * b_d * i_d <= 16, 1 <= par_d <= 2;
    }
    let n: i64 = f1 * a_n * b_n * t_n * i_n;
    let d: i64 = a_d * slow_d * b_d * i_d * par_d;
    proof {
        assert(-0x8000 * 108 <= boosted * n <= 0x8000 * 108) by (nonlinear_arith)
            requires -0x8000 <= boosted <= 0x8000, 1 <= n <= 108;
    }
    let prod: i64 = boosted * n;
    let q: i64 = if prod >= 0 { prod / d } else { -((-prod) / d) };
    if q > 32767 { 32767 } else if q < -32768 { -32768 } else { q as i16 }
}

/// The priority of `choice` once the terrain and the ability of the active
/// Pokemon `p` have raised it: Grassy Glide in active grassy terrain by one,
/// then Prankster on a status move, or Gale Wings on a Flying move at full
/// health, by one, or Triage on a healing move by three; never past 127.
pub open spec fn spec_modified_priority(state: State, p: Pokemon, choice: Choice) -> i8 {
    let p0 = choice.priority;
    let p1: i8 = if choice.move_id == Choices::GRASSYGLIDE && state.terrain.terrain_type == Terrain::GRASSYTERRAIN
        && state.terrain.turns_remaining > 0 {
        if p0 < 127 { (p0 + 1) as i8 } else { 127 }
    } else {
        p0
    };
    if p.ability == Abilities::PRANKSTER && choice.category == MoveCategory::Status {
        if p1 < 127 { (p1 + 1) as i8 } else { 127 }
    } else if p.ability == Abilities::GALEWINGS && choice.move_type == PokemonType::FLYING && p.hp == p.maxhp {
        if p1 < 127 { (p1 + 1) as i8 } else { 127 }
    } else if p.ability == Abilities::TRIAGE && choice.flags.heal {
        if p1 < 125 { (p1 + 3) as i8 } else { 127 }
    } else {
        p1
    }
}

/// Raises the priority of `choice` as the attacker's terrain or ability does:
/// Grassy Glide in grassy terrain, Prankster on a status move, Gale Wings on a
/// Flying move at full health, Triage on a healing move.
pub fn modify_choice_priority(state: &State, side_reference: &SideReference, choice: &mut Choice)
    ensures
        *final(choice) == (Choice {
            priority: spec_modified_priority(*state, state.spec_side(*side_reference).spec_active(), *old(choice)),
            ..*old(choice)
        }),
{
    let side = state.get_side_immutable(side_reference);
    let p = side.get_active_immutable();
    if choice.move_id == Choices::GRASSYGLIDE && state.terrain_is_active(&Terrain::GRASSYTERRAIN) {
        choice.priority = if choice.priority < 127 { choice.priority + 1 } else { 127 };
    }
    if p.ability == Abilities::PRANKSTER && choice.category == MoveCategory::Status {
        choice.priority = if choice.priority < 127 { choice.priority + 1 } else { 127 };
    } else if p.ability == Abilities::GALEWINGS && choice.move_type == PokemonType::FLYING && p.hp == p.maxhp {
        choice.priority = if choice.priority < 127 { choice.priority + 1 } else { 127 };
    } else if p.ability == Abilities::TRIAGE && choice.flags.heal {
        choice.priority = if choice.priority < 125 { choice.priority + 3 } else { 127 };
    }
}

/// Whether `p` has a Custap Berry to eat: it holds one below a quarter of
/// its maximum hit points.
pub open spec fn spec_custap_ready(p: Pokemon) -> bool {
    p.item == Items::CUSTAPBERRY && p.hp < trunc_div(p.maxhp as int, 4)
}

/// What deciding the order records: when neither side switches and the
/// priorities are equal, the Custap Berry that side one, or else side two,
/// eats; nothing otherwise.
pub open spec fn spec_custap_record(state: State, one: Choice, two: Choice) -> Seq<Instruction> {
    if one.category == MoveCategory::Switch || two.category == MoveCategory::Switch || one.priority != two.priority {
        seq![]
    } else if spec_custap_ready(state.side_one.spec_active()) {
        seq![Instruction::ChangeItem(ChangeItemInstruction {
            side_ref: SideReference::SideOne, slot: 0, current_item: Items::CUSTAPBERRY, new_item: Items::NONE })]
    } else if spec_custap_ready(state.side_two.spec_active()) {
        seq![Instruction::ChangeItem(ChangeItemInstruction {
            side_ref: SideReference::SideTwo, slot: 0, current_item: Items::CUSTAPBERRY, new_item: Items::NONE })]
    } else {
        seq![]
    }
}

/// Which side moves first: a switch goes before a move (Pursuit goes before
/// a switch), two switches go by speed, otherwise priority decides, then a
/// Custap Berry below a quarter of the hit points, then speed, reversed under
/// Trick Room. A Custap Berry that acts is recorded in `incoming_instructions`.
#[verifier::spinoff_prover]
#[verifier::rlimit(100)]
pub fn moves_first(
    state: &State,
    side_one_choice: &Choice,
    side_two_choice: &Choice,
    incoming_instructions: &mut StateInstructions,
) -> (r: SideMovesFirst)
    requires
        state.spec_side(SideReference::SideOne).spec_boosted_stat_fits(PokemonBoostableStat::Speed),
        state.spec_side(SideReference::SideTwo).spec_boosted_stat_fits(PokemonBoostableStat::Speed),
    ensures
        spec_grows(*old(incoming_instructions), *final(incoming_instructions)),
        final(incoming_instructions).instruction_list@ == old(incoming_instructions).instruction_list@
            + spec_custap_record(*state, *side_one_choice, *side_two_choice),
        ({
            let s1 = spec_effective_speed(*state, SideReference::SideOne);
            let s2 = spec_effective_speed(*state, SideReference::SideTwo);
            if side_one_choice.category == MoveCategory::Switch && side_two_choice.category == MoveCategory::Switch {
                r == (if s1 > s2 { SideMovesFirst::SideOne } else if s1 == s2 { SideMovesFirst::SpeedTie } else { SideMovesFirst::SideTwo })
            } else if side_one_choice.category == MoveCategory::Switch {
                r == (if side_two_choice.move_id != Choices::PURSUIT { SideMovesFirst::SideOne } else { SideMovesFirst::SideTwo })
            } else if side_two_choice.category == MoveCategory::Switch {
                r == (if side_one_choice.move_id == Choices::PURSUIT { SideMovesFirst::SideOne } else { SideMovesFirst::SideTwo })
            } else if side_one_choice.priority != side_two_choice.priority {
                r == (if side_one_choice.priority > side_two_choice.priority { SideMovesFirst::SideOne } else { SideMovesFirst::SideTwo })
            } else {
                let a1 = state.side_one.spec_active();
                let a2 = state.side_two.spec_active();
                if a1.item == Items::CUSTAPBERRY && a1.hp < trunc_div(a1.maxhp as int, 4) {
                    r == SideMovesFirst::SideOne
                } else if a2.item == Items::CUSTAPBERRY && a2.hp < trunc_div(a2.maxhp as int, 4) {
                    r == SideMovesFirst::SideTwo
                } else if s1 == s2 {
                    r == SideMovesFirst::SpeedTie
                } else if state.trick_room.active {
                    r == (if s1 < s2 { SideMovesFirst::SideOne } else { SideMovesFirst::SideTwo })
                } else {
                    r == (if s1 > s2 { SideMovesFirst::SideOne } else { SideMovesFirst::SideTwo })
                }
            }
        }),
{
    let s1 = get_effective_speed(state, &SideReference::SideOne);
    let s2 = get_effective_speed(state, &SideReference::SideTwo);
    if side_one_choice.category == MoveCategory::Switch && side_two_choice.category == MoveCategory::Switch {
        return if s1 > s2 {
            SideMovesFirst::SideOne
        } else if s1 == s2 {
            SideMovesFirst::SpeedTie
        } else {
            SideMovesFirst::SideTwo
        };
    } else if side_one_choice.category == MoveCategory::Switch {
        return if side_two_choice.move_id != Choices::PURSUIT { SideMovesFirst::SideOne } else { SideMovesFirst::SideTwo };
    } else if side_two_choice.category == MoveCategory::Switch {
        return if side_one_choice.move_id == Choices::PURSUIT { SideMovesFirst::SideOne } else { SideMovesFirst::SideTwo };
    }
    let a1 = state.side_one.get_active_immutable();
    let a2 = state.side_two.get_active_immutable();
    if side_one_choice.priority == side_two_choice.priority {
        if a1.item == Items::CUSTAPBERRY && a1.hp < a1.maxhp / 4 {
            incoming_instructions.push(Instruction::ChangeItem(ChangeItemInstruction::new(
                SideReference::SideOne, 0, Items::CUSTAPBERRY, Items::NONE)));
            return SideMovesFirst::SideOne;
        } else if a2.item == Items::CUSTAPBERRY && a2.hp < a2.maxhp / 4 {
            incoming_instructions.push(Instruction::ChangeItem(ChangeItemInstruction::new(
                SideReference::SideTwo, 0, Items::CUSTAPBERRY, Items::NONE)));
            return SideMovesFirst::SideTwo;
        }
        if s1 == s2 {
            return SideMovesFirst::SpeedTie;
        }
        if state.trick_room.active {
            if s1 < s2 { SideMovesFirst::SideOne } else { SideMovesFirst::SideTwo }
        } else {
            if s1 > s2 { SideMovesFirst::SideOne } else { SideMovesFirst::SideTwo }
        }
    } else {
        if side_one_choice.priority > side_two_choice.priority { SideMovesFirst::SideOne } else { SideMovesFirst::SideTwo }
    }
}

} // verus!
