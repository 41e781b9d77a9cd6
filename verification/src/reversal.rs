//! Undoing an instruction right after applying it gives the state back: the
//! law that lets a search walk forward through a turn and back again.

use vstd::prelude::*;
use crate::generate::{spec_damaged, spec_healed, spec_volatile_removed};
use crate::instruction::{
    ChangeSideConditionInstruction,
    spec_applicable_change_side_condition, spec_apply_change_side_condition, spec_reversible_change_side_condition, spec_reverse_change_side_condition,
    ChangeTerrain, ChangeWeather, DamageInstruction, DecrementFutureSightInstruction,
    DecrementWishInstruction, HealInstruction, ToggleTrickRoomInstruction,
    spec_applicable_change_terrain, spec_applicable_change_weather, spec_applicable_damage,
    spec_applicable_decrement_future_sight, spec_applicable_decrement_terrain_turns_remaining,
    spec_applicable_decrement_trick_room_turns_remaining,
    spec_applicable_decrement_weather_turns_remaining, spec_applicable_decrement_wish,
    spec_applicable_heal, spec_applicable_toggle_trick_room, spec_apply_change_terrain,
    spec_apply_change_weather, spec_apply_damage, spec_apply_decrement_future_sight,
    spec_apply_decrement_terrain_turns_remaining, spec_apply_decrement_trick_room_turns_remaining,
    spec_apply_decrement_weather_turns_remaining, spec_apply_decrement_wish, spec_apply_heal,
    spec_apply_toggle_trick_room, spec_reverse_change_terrain, spec_reverse_change_weather,
    spec_reverse_damage, spec_reverse_decrement_future_sight,
    spec_reverse_decrement_terrain_turns_remaining, spec_reverse_decrement_trick_room_turns_remaining,
    spec_reverse_decrement_weather_turns_remaining, spec_reverse_decrement_wish, spec_reverse_heal,
    spec_reverse_toggle_trick_room, spec_reversible_change_terrain, spec_reversible_change_weather,
    spec_reversible_damage, spec_reversible_decrement_future_sight,
    spec_reversible_decrement_terrain_turns_remaining,
    spec_reversible_decrement_trick_room_turns_remaining,
    spec_reversible_decrement_weather_turns_remaining, spec_reversible_decrement_wish,
    spec_reversible_heal, spec_reversible_toggle_trick_room,
    spec_applicable_apply_volatile_status, spec_applicable_boost, spec_applicable_change_attack, spec_applicable_change_defense, spec_applicable_change_item, spec_applicable_change_special_attack, spec_applicable_change_special_defense, spec_applicable_change_speed, spec_applicable_change_status, spec_applicable_change_type, spec_applicable_change_volatile_status_duration, spec_applicable_decrement_rest_turns, spec_applicable_disable_move, spec_applicable_enable_move, spec_applicable_remove_volatile_status, spec_applicable_set_last_used_move, spec_applicable_set_rest_turns, spec_applicable_set_sleep_turns, spec_applicable_toggle_baton_passing, spec_applicable_toggle_shed_tailing, spec_applicable_toggle_side_one_force_switch, spec_applicable_toggle_side_two_force_switch, spec_apply_apply_volatile_status, spec_apply_boost, spec_apply_change_attack, spec_apply_change_defense, spec_apply_change_item, spec_apply_change_special_attack, spec_apply_change_special_defense, spec_apply_change_speed, spec_apply_change_status, spec_apply_change_type, spec_apply_change_volatile_status_duration, spec_apply_decrement_rest_turns, spec_apply_disable_move, spec_apply_enable_move, spec_apply_remove_volatile_status, spec_apply_set_last_used_move, spec_apply_set_rest_turns, spec_apply_set_sleep_turns, spec_apply_toggle_baton_passing, spec_apply_toggle_shed_tailing, spec_apply_toggle_side_one_force_switch, spec_apply_toggle_side_two_force_switch, spec_reverse_apply_volatile_status, spec_reverse_boost, spec_reverse_change_attack, spec_reverse_change_defense, spec_reverse_change_item, spec_reverse_change_special_attack, spec_reverse_change_special_defense, spec_reverse_change_speed, spec_reverse_change_status, spec_reverse_change_type, spec_reverse_change_volatile_status_duration, spec_reverse_decrement_rest_turns, spec_reverse_disable_move, spec_reverse_enable_move, spec_reverse_remove_volatile_status, spec_reverse_set_last_used_move, spec_reverse_set_rest_turns, spec_reverse_set_sleep_turns, spec_reverse_toggle_baton_passing, spec_reverse_toggle_shed_tailing, spec_reverse_toggle_side_one_force_switch, spec_reverse_toggle_side_two_force_switch, spec_reversible_apply_volatile_status, spec_reversible_boost, spec_reversible_change_attack, spec_reversible_change_defense, spec_reversible_change_item, spec_reversible_change_special_attack, spec_reversible_change_special_defense, spec_reversible_change_speed, spec_reversible_change_status, spec_reversible_change_type, spec_reversible_change_volatile_status_duration, spec_reversible_decrement_rest_turns, spec_reversible_disable_move, spec_reversible_enable_move, spec_reversible_remove_volatile_status, spec_reversible_set_last_used_move, spec_reversible_set_rest_turns, spec_reversible_set_sleep_turns, spec_reversible_toggle_baton_passing, spec_reversible_toggle_shed_tailing, spec_reversible_toggle_side_one_force_switch, spec_reversible_toggle_side_two_force_switch, ApplyVolatileStatusInstruction, BoostInstruction, ChangeItemInstruction, ChangeStatInstruction, ChangeStatusInstruction, ChangeType, ChangeVolatileStatusDurationInstruction, DecrementRestTurnsInstruction, EnableMoveInstruction, RemoveVolatileStatusInstruction, SetLastUsedMoveInstruction, SetSleepTurnsInstruction, ToggleBatonPassingInstruction, ToggleShedTailingInstruction,
};
use crate::state::{
    Move, Pokemon, PokemonBoostableStat, PokemonIndex, PokemonMoveIndex, PokemonMoves,
    PokemonSideCondition, PokemonVolatileStatus, Side, SideConditions, SidePokemon, SideReference, State,
};

verus! {

/// Changing the weather and changing it back gives the state back.
pub proof fn law_undo_change_weather(s: State, x: ChangeWeather)
    requires spec_applicable_change_weather(s, x),
    ensures
        spec_reversible_change_weather(spec_apply_change_weather(s, x), x),
        spec_reverse_change_weather(spec_apply_change_weather(s, x), x) == s,
{
    reveal(spec_applicable_change_weather);
    reveal(spec_apply_change_weather);
    reveal(spec_reversible_change_weather);
    reveal(spec_reverse_change_weather);
}

/// Counting down the weather and counting it back up gives the state back.
pub proof fn law_undo_decrement_weather(s: State)
    requires spec_applicable_decrement_weather_turns_remaining(s),
    ensures
        spec_reversible_decrement_weather_turns_remaining(spec_apply_decrement_weather_turns_remaining(s)),
        spec_reverse_decrement_weather_turns_remaining(spec_apply_decrement_weather_turns_remaining(s)) == s,
{
    reveal(spec_applicable_decrement_weather_turns_remaining);
    reveal(spec_apply_decrement_weather_turns_remaining);
    reveal(spec_reversible_decrement_weather_turns_remaining);
    reveal(spec_reverse_decrement_weather_turns_remaining);
}

/// Changing the terrain and changing it back gives the state back.
pub proof fn law_undo_change_terrain(s: State, x: ChangeTerrain)
    requires spec_applicable_change_terrain(s, x),
    ensures
        spec_reversible_change_terrain(spec_apply_change_terrain(s, x), x),
        spec_reverse_change_terrain(spec_apply_change_terrain(s, x), x) == s,
{
    reveal(spec_applicable_change_terrain);
    reveal(spec_apply_change_terrain);
    reveal(spec_reversible_change_terrain);
    reveal(spec_reverse_change_terrain);
}

/// Counting down the terrain and counting it back up gives the state back.
pub proof fn law_undo_decrement_terrain(s: State)
    requires spec_applicable_decrement_terrain_turns_remaining(s),
    ensures
        spec_reversible_decrement_terrain_turns_remaining(spec_apply_decrement_terrain_turns_remaining(s)),
        spec_reverse_decrement_terrain_turns_remaining(spec_apply_decrement_terrain_turns_remaining(s)) == s,
{
    reveal(spec_applicable_decrement_terrain_turns_remaining);
    reveal(spec_apply_decrement_terrain_turns_remaining);
    reveal(spec_reversible_decrement_terrain_turns_remaining);
    reveal(spec_reverse_decrement_terrain_turns_remaining);
}

/// Toggling Trick Room and toggling it back gives the state back.
pub proof fn law_undo_toggle_trick_room(s: State, x: ToggleTrickRoomInstruction)
    requires spec_applicable_toggle_trick_room(s, x),
    ensures
        spec_reversible_toggle_trick_room(spec_apply_toggle_trick_room(s, x), x),
        spec_reverse_toggle_trick_room(spec_apply_toggle_trick_room(s, x), x) == s,
{
    reveal(spec_applicable_toggle_trick_room);
    reveal(spec_apply_toggle_trick_room);
    reveal(spec_reversible_toggle_trick_room);
    reveal(spec_reverse_toggle_trick_room);
}

/// Counting down Trick Room and counting it back up gives the state back.
pub proof fn law_undo_decrement_trick_room(s: State)
    requires spec_applicable_decrement_trick_room_turns_remaining(s),
    ensures
        spec_reversible_decrement_trick_room_turns_remaining(spec_apply_decrement_trick_room_turns_remaining(s)),
        spec_reverse_decrement_trick_room_turns_remaining(spec_apply_decrement_trick_room_turns_remaining(s)) == s,
{
    reveal(spec_applicable_decrement_trick_room_turns_remaining);
    reveal(spec_apply_decrement_trick_room_turns_remaining);
    reveal(spec_reversible_decrement_trick_room_turns_remaining);
    reveal(spec_reverse_decrement_trick_room_turns_remaining);
}

/// Replacing a side and then reading it gives the new side; putting back the
/// side that was there gives the state back.
proof fn lemma_side_round_trip(s: State, r: SideReference, side: Side)
    ensures
        s.spec_set_side(r, side).spec_side(r) == side,
        s.spec_set_side(r, side).spec_set_side(r, s.spec_side(r)) == s,
{
    reveal(State::spec_side);
    reveal(State::spec_set_side);
}

/// Counting down a Wish and counting it back up gives the state back.
#[verifier::spinoff_prover]
pub proof fn law_undo_decrement_wish(s: State, x: DecrementWishInstruction)
    requires spec_applicable_decrement_wish(s, x),
    ensures
        spec_reversible_decrement_wish(spec_apply_decrement_wish(s, x), x),
        spec_reverse_decrement_wish(spec_apply_decrement_wish(s, x), x) == s,
{
    reveal(spec_applicable_decrement_wish);
    reveal(spec_apply_decrement_wish);
    reveal(spec_reversible_decrement_wish);
    reveal(spec_reverse_decrement_wish);
    let side = s.spec_side(x.side_ref);
    let side1 = Side { wish: ((side.wish.0 - 1) as i8, side.wish.1), ..side };
    lemma_side_round_trip(s, x.side_ref, side1);
    let s1 = s.spec_set_side(x.side_ref, side1);
    let side2 = Side { wish: ((side1.wish.0 + 1) as i8, side1.wish.1), ..side1 };
    assert(side2 == side);
    lemma_side_round_trip(s1, x.side_ref, side2);
    assert(s1.spec_set_side(x.side_ref, side2) == s.spec_set_side(x.side_ref, side1).spec_set_side(x.side_ref, side)) by {
        reveal(State::spec_set_side);
    }
}

/// Counting down a Future Sight and counting it back up gives the state back.
#[verifier::spinoff_prover]
pub proof fn law_undo_decrement_future_sight(s: State, x: DecrementFutureSightInstruction)
    requires spec_applicable_decrement_future_sight(s, x),
    ensures
        spec_reversible_decrement_future_sight(spec_apply_decrement_future_sight(s, x), x),
        spec_reverse_decrement_future_sight(spec_apply_decrement_future_sight(s, x), x) == s,
{
    reveal(spec_applicable_decrement_future_sight);
    reveal(spec_apply_decrement_future_sight);
    reveal(spec_reversible_decrement_future_sight);
    reveal(spec_reverse_decrement_future_sight);
    let side = s.spec_side(x.side_ref);
    let side1 = Side { future_sight: ((side.future_sight.0 - 1) as i8, side.future_sight.1), ..side };
    lemma_side_round_trip(s, x.side_ref, side1);
    let s1 = s.spec_set_side(x.side_ref, side1);
    let side2 = Side { future_sight: ((side1.future_sight.0 + 1) as i8, side1.future_sight.1), ..side1 };
    assert(side2 == side);
    lemma_side_round_trip(s1, x.side_ref, side2);
    assert(s1.spec_set_side(x.side_ref, side2) == s.spec_set_side(x.side_ref, side1).spec_set_side(x.side_ref, side)) by {
        reveal(State::spec_set_side);
    }
}

/// Replacing the active Pokemon of a side and then reading it gives the new
/// Pokemon; putting back the one that was there gives the state back.
proof fn lemma_active_round_trip(s: State, r: SideReference, p: Pokemon)
    ensures
        s.spec_with_active(r, p).spec_active(r) == p,
        s.spec_with_active(r, p).spec_with_active(r, s.spec_active(r)) == s,
{
    let side = s.spec_side(r);
    let i = side.spec_active_index();
    let side1 = side.spec_set_active(p);
    lemma_side_round_trip(s, r, side1);
    assert(side1.spec_active() == p) by {
        reveal(SidePokemon::spec_get);
        reveal(SidePokemon::spec_set);
        match i {
            PokemonIndex::P0 => {},
            PokemonIndex::P1 => {},
            PokemonIndex::P2 => {},
            PokemonIndex::P3 => {},
            PokemonIndex::P4 => {},
            PokemonIndex::P5 => {},
        }
    }
    assert(side1.spec_set_active(side.spec_active()) == side) by {
        reveal(SidePokemon::spec_get);
        reveal(SidePokemon::spec_set);
        match i {
            PokemonIndex::P0 => {},
            PokemonIndex::P1 => {},
            PokemonIndex::P2 => {},
            PokemonIndex::P3 => {},
            PokemonIndex::P4 => {},
            PokemonIndex::P5 => {},
        }
    }
    let s1 = s.spec_set_side(r, side1);
    lemma_side_round_trip(s1, r, side);
    assert(s1.spec_set_side(r, side) == s) by {
        reveal(State::spec_side);
        reveal(State::spec_set_side);
    }
}

/// Healing the active Pokemon and taking the hit points away again gives the state back.
#[verifier::spinoff_prover]
pub proof fn law_undo_heal(s: State, x: HealInstruction)
    requires spec_applicable_heal(s, x),
    ensures
        spec_reversible_heal(spec_apply_heal(s, x), x),
        spec_reverse_heal(spec_apply_heal(s, x), x) == s,
{
    reveal(spec_applicable_heal);
    reveal(spec_apply_heal);
    reveal(spec_reversible_heal);
    reveal(spec_reverse_heal);
    let p = s.spec_active(x.side_ref);
    let p1 = Pokemon { hp: (p.hp + x.heal_amount) as i16, ..p };
    lemma_active_round_trip(s, x.side_ref, p1);
    let s1 = s.spec_with_active(x.side_ref, p1);
    let p2 = Pokemon { hp: (p1.hp - x.heal_amount) as i16, ..p1 };
    assert(p2 == p);
}

/// Damaging the active Pokemon and giving the hit points back gives the state back.
#[verifier::spinoff_prover]
pub proof fn law_undo_damage(s: State, x: DamageInstruction)
    requires spec_applicable_damage(s, x),
    ensures
        spec_reversible_damage(spec_apply_damage(s, x), x),
        spec_reverse_damage(spec_apply_damage(s, x), x) == s,
{
    reveal(spec_applicable_damage);
    reveal(spec_apply_damage);
    reveal(spec_reversible_damage);
    reveal(spec_reverse_damage);
    let p = s.spec_active(x.side_ref);
    let p1 = Pokemon { hp: (p.hp - x.damage_amount) as i16, ..p };
    lemma_active_round_trip(s, x.side_ref, p1);
    let p2 = Pokemon { hp: (p1.hp + x.damage_amount) as i16, ..p1 };
    assert(p2 == p);
}

/// Setting a boost and setting it back to what it was gives the Pokemon back.
proof fn lemma_boost_round_trip(p: Pokemon, stat: PokemonBoostableStat, v: i8)
    ensures
        p.spec_with_boost(stat, v).spec_boost(stat) == v,
        p.spec_with_boost(stat, v).spec_with_boost(stat, p.spec_boost(stat)) == p,
{
    match stat {
        PokemonBoostableStat::Attack => {},
        PokemonBoostableStat::Defense => {},
        PokemonBoostableStat::SpecialAttack => {},
        PokemonBoostableStat::SpecialDefense => {},
        PokemonBoostableStat::Speed => {},
        PokemonBoostableStat::Evasion => {},
        PokemonBoostableStat::Accuracy => {},
    }
}

/// Setting a turn counter and setting it back gives the Pokemon back; a status
/// without a counter reads as 0 and is not changed.
#[verifier::spinoff_prover]
#[verifier::rlimit(60)]
proof fn lemma_duration_round_trip(p: Pokemon, vs: PokemonVolatileStatus, v: i8)
    ensures
        p.spec_with_duration(vs, v).spec_with_duration(vs, p.spec_duration(vs)) == p,
        p.spec_with_duration(vs, v).spec_duration(vs) == v || (p.spec_with_duration(vs, v) == p && p.spec_duration(vs) == 0),
{
    if vs == PokemonVolatileStatus::CONFUSION {
    } else if vs == PokemonVolatileStatus::ENCORE {
    } else if vs == PokemonVolatileStatus::LOCKEDMOVE {
    } else if vs == PokemonVolatileStatus::SLOWSTART {
    } else if vs == PokemonVolatileStatus::TAUNT {
    } else if vs == PokemonVolatileStatus::YAWN {
    } else {
        assert(p.spec_with_duration(vs, v) == p);
        assert(p.spec_duration(vs) == 0);
    }
}

/// Setting a move and reading it gives the move; a move set to what it was
/// leaves the moves as they were.
proof fn lemma_moves_round_trip(m: PokemonMoves, i: PokemonMoveIndex)
    ensures
        forall|mv: Move| #[trigger] m.spec_set(i, mv).spec_get(i) == mv,
        forall|mv: Move, mv2: Move| #[trigger] m.spec_set(i, mv).spec_set(i, mv2) == m.spec_set(i, mv2),
        m.spec_set(i, m.spec_get(i)) == m,
{
    match i {
        PokemonMoveIndex::M0 => {},
        PokemonMoveIndex::M1 => {},
        PokemonMoveIndex::M2 => {},
        PokemonMoveIndex::M3 => {},
    }
}

/// Setting a party slot and reading it gives the Pokemon set; setting it back
/// gives the party back.
proof fn lemma_party_slot_round_trip(sp: SidePokemon, i: PokemonIndex, p: Pokemon)
    ensures
        sp.spec_set(i, p).spec_get(i) == p,
        sp.spec_set(i, p).spec_set(i, sp.spec_get(i)) == sp,
{
    reveal(SidePokemon::spec_get);
    reveal(SidePokemon::spec_set);
    match i {
        PokemonIndex::P0 => {},
        PokemonIndex::P1 => {},
        PokemonIndex::P2 => {},
        PokemonIndex::P3 => {},
        PokemonIndex::P4 => {},
        PokemonIndex::P5 => {},
    }
}

/// Replacing a party member and reading it gives the new Pokemon; putting
/// back the one that was there gives the state back.
#[verifier::spinoff_prover]
#[verifier::rlimit(60)]
proof fn lemma_party_round_trip(s: State, r: SideReference, i: PokemonIndex, p: Pokemon)
    ensures
        s.spec_with_party(r, i, p).spec_party(r, i) == p,
        s.spec_with_party(r, i, p).spec_with_party(r, i, s.spec_party(r, i)) == s,
{
    let side = s.spec_side(r);
    let side1 = side.spec_set_party(i, p);
    lemma_side_round_trip(s, r, side1);
    lemma_party_slot_round_trip(side.pokemon, i, p);
    assert(side1.spec_set_party(i, side.pokemon.spec_get(i)) == side);
    let s1 = s.spec_set_side(r, side1);
    lemma_side_round_trip(s1, r, side);
    assert(s1.spec_set_side(r, side) == s) by {
        reveal(State::spec_side);
        reveal(State::spec_set_side);
    }
}

/// Putting on a volatile status and taking it off again gives the state back.
#[verifier::spinoff_prover]
pub proof fn law_undo_apply_volatile_status(s: State, x: ApplyVolatileStatusInstruction)
    requires spec_applicable_apply_volatile_status(s, x),
    ensures
        spec_reversible_apply_volatile_status(spec_apply_apply_volatile_status(s, x), x),
        spec_reverse_apply_volatile_status(spec_apply_apply_volatile_status(s, x), x) == s,
{
    reveal(spec_applicable_apply_volatile_status);
    reveal(spec_apply_apply_volatile_status);
    reveal(spec_reversible_apply_volatile_status);
    reveal(spec_reverse_apply_volatile_status);
    let p = s.spec_active(x.side_ref);
    let p1 = Pokemon { volatile_statuses: p.volatile_statuses.spec_insert(x.volatile_status), ..p };
    lemma_active_round_trip(s, x.side_ref, p1);
    p.volatile_statuses.lemma_insert_then_remove(x.volatile_status);
    assert(Pokemon { volatile_statuses: p1.volatile_statuses.spec_remove(x.volatile_status), ..p1 } == p);
}

/// Taking off a volatile status and putting it back gives the state back.
#[verifier::spinoff_prover]
pub proof fn law_undo_remove_volatile_status(s: State, x: RemoveVolatileStatusInstruction)
    requires spec_applicable_remove_volatile_status(s, x),
    ensures
        spec_reversible_remove_volatile_status(spec_apply_remove_volatile_status(s, x), x),
        spec_reverse_remove_volatile_status(spec_apply_remove_volatile_status(s, x), x) == s,
{
    reveal(spec_applicable_remove_volatile_status);
    reveal(spec_apply_remove_volatile_status);
    reveal(spec_reversible_remove_volatile_status);
    reveal(spec_reverse_remove_volatile_status);
    let p = s.spec_active(x.side_ref);
    let p1 = Pokemon { volatile_statuses: p.volatile_statuses.spec_remove(x.volatile_status), ..p };
    lemma_active_round_trip(s, x.side_ref, p1);
    p.volatile_statuses.lemma_remove_then_insert(x.volatile_status);
    assert(Pokemon { volatile_statuses: p1.volatile_statuses.spec_insert(x.volatile_status), ..p1 } == p);
}

/// Boosting a stat and undoing the boost gives the state back.
#[verifier::spinoff_prover]
pub proof fn law_undo_boost(s: State, x: BoostInstruction)
    requires spec_applicable_boost(s, x),
    ensures
        spec_reversible_boost(spec_apply_boost(s, x), x),
        spec_reverse_boost(spec_apply_boost(s, x), x) == s,
{
    reveal(spec_applicable_boost);
    reveal(spec_apply_boost);
    reveal(spec_reversible_boost);
    reveal(spec_reverse_boost);
    let p = s.spec_active(x.side_ref);
    let p1 = p.spec_with_boost(x.stat, (p.spec_boost(x.stat) + x.amount) as i8);
    lemma_active_round_trip(s, x.side_ref, p1);
    lemma_boost_round_trip(p, x.stat, (p.spec_boost(x.stat) + x.amount) as i8);
    assert(p1.spec_with_boost(x.stat, (p1.spec_boost(x.stat) - x.amount) as i8) == p);
}

/// Changing a turn counter and changing it back gives the state back.
#[verifier::spinoff_prover]
pub proof fn law_undo_change_volatile_status_duration(s: State, x: ChangeVolatileStatusDurationInstruction)
    requires spec_applicable_change_volatile_status_duration(s, x),
    ensures
        spec_reversible_change_volatile_status_duration(spec_apply_change_volatile_status_duration(s, x), x),
        spec_reverse_change_volatile_status_duration(spec_apply_change_volatile_status_duration(s, x), x) == s,
{
    reveal(spec_applicable_change_volatile_status_duration);
    reveal(spec_apply_change_volatile_status_duration);
    reveal(spec_reversible_change_volatile_status_duration);
    reveal(spec_reverse_change_volatile_status_duration);
    let p = s.spec_active(x.side_ref);
    let p1 = p.spec_with_duration(x.volatile_status, (p.spec_duration(x.volatile_status) + x.amount) as i8);
    lemma_active_round_trip(s, x.side_ref, p1);
    lemma_duration_round_trip(p, x.volatile_status, (p.spec_duration(x.volatile_status) + x.amount) as i8);
    assert(p1.spec_with_duration(x.volatile_status, (p1.spec_duration(x.volatile_status) - x.amount) as i8) == p);
}

/// Changing the held item and changing it back gives the state back.
#[verifier::spinoff_prover]
pub proof fn law_undo_change_item(s: State, x: ChangeItemInstruction)
    requires spec_applicable_change_item(s, x),
    ensures
        spec_reversible_change_item(spec_apply_change_item(s, x), x),
        spec_reverse_change_item(spec_apply_change_item(s, x), x) == s,
{
    reveal(spec_applicable_change_item);
    reveal(spec_apply_change_item);
    reveal(spec_reversible_change_item);
    reveal(spec_reverse_change_item);
    let p = s.spec_active(x.side_ref);
    let p1 = Pokemon { item: x.new_item, ..p };
    lemma_active_round_trip(s, x.side_ref, p1);
    
    assert(Pokemon { item: x.current_item, ..p1 } == p);
}

/// Enabling a move and disabling it again gives the state back.
#[verifier::spinoff_prover]
pub proof fn law_undo_enable_move(s: State, x: EnableMoveInstruction)
    requires spec_applicable_enable_move(s, x),
    ensures
        spec_reversible_enable_move(spec_apply_enable_move(s, x), x),
        spec_reverse_enable_move(spec_apply_enable_move(s, x), x) == s,
{
    reveal(spec_applicable_enable_move);
    reveal(spec_apply_enable_move);
    reveal(spec_reversible_enable_move);
    reveal(spec_reverse_enable_move);
    let p = s.spec_active(x.side_ref);
    let p1 = Pokemon { moves: p.moves.spec_set(x.move_index, Move { disabled: false, ..p.moves.spec_get(x.move_index) }), ..p };
    lemma_active_round_trip(s, x.side_ref, p1);
    lemma_moves_round_trip(p.moves, x.move_index);
    assert(Pokemon { moves: p1.moves.spec_set(x.move_index, Move { disabled: true, ..p1.moves.spec_get(x.move_index) }), ..p1 } == p);
}

/// Disabling a move and enabling it again gives the state back.
#[verifier::spinoff_prover]
pub proof fn law_undo_disable_move(s: State, x: EnableMoveInstruction)
    requires spec_applicable_disable_move(s, x),
    ensures
        spec_reversible_disable_move(spec_apply_disable_move(s, x), x),
        spec_reverse_disable_move(spec_apply_disable_move(s, x), x) == s,
{
    reveal(spec_applicable_disable_move);
    reveal(spec_apply_disable_move);
    reveal(spec_reversible_disable_move);
    reveal(spec_reverse_disable_move);
    let p = s.spec_active(x.side_ref);
    let p1 = Pokemon { moves: p.moves.spec_set(x.move_index, Move { disabled: true, ..p.moves.spec_get(x.move_index) }), ..p };
    lemma_active_round_trip(s, x.side_ref, p1);
    lemma_moves_round_trip(p.moves, x.move_index);
    assert(Pokemon { moves: p1.moves.spec_set(x.move_index, Move { disabled: false, ..p1.moves.spec_get(x.move_index) }), ..p1 } == p);
}

/// Counting down Rest and counting it back up gives the state back.
#[verifier::spinoff_prover]
pub proof fn law_undo_decrement_rest_turns(s: State, x: DecrementRestTurnsInstruction)
    requires spec_applicable_decrement_rest_turns(s, x),
    ensures
        spec_reversible_decrement_rest_turns(spec_apply_decrement_rest_turns(s, x), x),
        spec_reverse_decrement_rest_turns(spec_apply_decrement_rest_turns(s, x), x) == s,
{
    reveal(spec_applicable_decrement_rest_turns);
    reveal(spec_apply_decrement_rest_turns);
    reveal(spec_reversible_decrement_rest_turns);
    reveal(spec_reverse_decrement_rest_turns);
    let p = s.spec_active(x.side_ref);
    let p1 = Pokemon { rest_turns: (p.rest_turns - 1) as i8, ..p };
    lemma_active_round_trip(s, x.side_ref, p1);
    
    assert(Pokemon { rest_turns: (p1.rest_turns + 1) as i8, ..p1 } == p);
}

/// Recording the last move used and restoring the one before gives the state back.
#[verifier::spinoff_prover]
pub proof fn law_undo_set_last_used_move(s: State, x: SetLastUsedMoveInstruction)
    requires spec_applicable_set_last_used_move(s, x),
    ensures
        spec_reversible_set_last_used_move(spec_apply_set_last_used_move(s, x), x),
        spec_reverse_set_last_used_move(spec_apply_set_last_used_move(s, x), x) == s,
{
    reveal(spec_applicable_set_last_used_move);
    reveal(spec_apply_set_last_used_move);
    reveal(spec_reversible_set_last_used_move);
    reveal(spec_reverse_set_last_used_move);
    let p = s.spec_active(x.side_ref);
    let p1 = Pokemon { last_used_move: x.last_used_move, ..p };
    lemma_active_round_trip(s, x.side_ref, p1);
    
    assert(Pokemon { last_used_move: x.previous_last_used_move, ..p1 } == p);
}

/// Changing the types and changing them back gives the state back.
#[verifier::spinoff_prover]
pub proof fn law_undo_change_type(s: State, x: ChangeType)
    requires spec_applicable_change_type(s, x),
    ensures
        spec_reversible_change_type(spec_apply_change_type(s, x), x),
        spec_reverse_change_type(spec_apply_change_type(s, x), x) == s,
{
    reveal(spec_applicable_change_type);
    reveal(spec_apply_change_type);
    reveal(spec_reversible_change_type);
    reveal(spec_reverse_change_type);
    let p = s.spec_active(x.side_ref);
    let p1 = Pokemon { types: x.new_types, ..p };
    lemma_active_round_trip(s, x.side_ref, p1);
    
    assert(Pokemon { types: x.old_types, ..p1 } == p);
}

/// Changing the attack stat and changing it back gives the state back.
#[verifier::spinoff_prover]
pub proof fn law_undo_change_attack(s: State, x: ChangeStatInstruction)
    requires spec_applicable_change_attack(s, x),
    ensures
        spec_reversible_change_attack(spec_apply_change_attack(s, x), x),
        spec_reverse_change_attack(spec_apply_change_attack(s, x), x) == s,
{
    reveal(spec_applicable_change_attack);
    reveal(spec_apply_change_attack);
    reveal(spec_reversible_change_attack);
    reveal(spec_reverse_change_attack);
    let p = s.spec_active(x.side_ref);
    let p1 = Pokemon { attack: (p.attack + x.amount) as i16, ..p };
    lemma_active_round_trip(s, x.side_ref, p1);
    
    assert(Pokemon { attack: (p1.attack - x.amount) as i16, ..p1 } == p);
}

/// Changing the defense stat and changing it back gives the state back.
#[verifier::spinoff_prover]
pub proof fn law_undo_change_defense(s: State, x: ChangeStatInstruction)
    requires spec_applicable_change_defense(s, x),
    ensures
        spec_reversible_change_defense(spec_apply_change_defense(s, x), x),
        spec_reverse_change_defense(spec_apply_change_defense(s, x), x) == s,
{
    reveal(spec_applicable_change_defense);
    reveal(spec_apply_change_defense);
    reveal(spec_reversible_change_defense);
    reveal(spec_reverse_change_defense);
    let p = s.spec_active(x.side_ref);
    let p1 = Pokemon { defense: (p.defense + x.amount) as i16, ..p };
    lemma_active_round_trip(s, x.side_ref, p1);
    
    assert(Pokemon { defense: (p1.defense - x.amount) as i16, ..p1 } == p);
}

/// Changing the special attack stat and changing it back gives the state back.
#[verifier::spinoff_prover]
pub proof fn law_undo_change_special_attack(s: State, x: ChangeStatInstruction)
    requires spec_applicable_change_special_attack(s, x),
    ensures
        spec_reversible_change_special_attack(spec_apply_change_special_attack(s, x), x),
        spec_reverse_change_special_attack(spec_apply_change_special_attack(s, x), x) == s,
{
    reveal(spec_applicable_change_special_attack);
    reveal(spec_apply_change_special_attack);
    reveal(spec_reversible_change_special_attack);
    reveal(spec_reverse_change_special_attack);
    let p = s.spec_active(x.side_ref);
    let p1 = Pokemon { special_attack: (p.special_attack + x.amount) as i16, ..p };
    lemma_active_round_trip(s, x.side_ref, p1);
    
    assert(Pokemon { special_attack: (p1.special_attack - x.amount) as i16, ..p1 } == p);
}

/// Changing the special defense stat and changing it back gives the state back.
#[verifier::spinoff_prover]
pub proof fn law_undo_change_special_defense(s: State, x: ChangeStatInstruction)
    requires spec_applicable_change_special_defense(s, x),
    ensures
        spec_reversible_change_special_defense(spec_apply_change_special_defense(s, x), x),
        spec_reverse_change_special_defense(spec_apply_change_special_defense(s, x), x) == s,
{
    reveal(spec_applicable_change_special_defense);
    reveal(spec_apply_change_special_defense);
    reveal(spec_reversible_change_special_defense);
    reveal(spec_reverse_change_special_defense);
    let p = s.spec_active(x.side_ref);
    let p1 = Pokemon { special_defense: (p.special_defense + x.amount) as i16, ..p };
    lemma_active_round_trip(s, x.side_ref, p1);
    
    assert(Pokemon { special_defense: (p1.special_defense - x.amount) as i16, ..p1 } == p);
}

/// Changing the speed stat and changing it back gives the state back.
#[verifier::spinoff_prover]
pub proof fn law_undo_change_speed(s: State, x: ChangeStatInstruction)
    requires spec_applicable_change_speed(s, x),
    ensures
        spec_reversible_change_speed(spec_apply_change_speed(s, x), x),
        spec_reverse_change_speed(spec_apply_change_speed(s, x), x) == s,
{
    reveal(spec_applicable_change_speed);
    reveal(spec_apply_change_speed);
    reveal(spec_reversible_change_speed);
    reveal(spec_reverse_change_speed);
    let p = s.spec_active(x.side_ref);
    let p1 = Pokemon { speed: (p.speed + x.amount) as i16, ..p };
    lemma_active_round_trip(s, x.side_ref, p1);
    
    assert(Pokemon { speed: (p1.speed - x.amount) as i16, ..p1 } == p);
}

/// Changing a status and changing it back gives the state back.
#[verifier::spinoff_prover]
pub proof fn law_undo_change_status(s: State, x: ChangeStatusInstruction)
    requires spec_applicable_change_status(s, x),
    ensures
        spec_reversible_change_status(spec_apply_change_status(s, x), x),
        spec_reverse_change_status(spec_apply_change_status(s, x), x) == s,
{
    reveal(spec_applicable_change_status);
    reveal(spec_apply_change_status);
    reveal(spec_reversible_change_status);
    reveal(spec_reverse_change_status);
    let p = s.spec_party(x.side_ref, x.pokemon_index);
    let p1 = Pokemon { status: x.new_status, ..p };
    lemma_party_round_trip(s, x.side_ref, x.pokemon_index, p1);
    assert(Pokemon { status: x.old_status, ..p1 } == p);
}

/// Setting the sleep counter and restoring it gives the state back.
#[verifier::spinoff_prover]
pub proof fn law_undo_set_sleep_turns(s: State, x: SetSleepTurnsInstruction)
    requires spec_applicable_set_sleep_turns(s, x),
    ensures
        spec_reversible_set_sleep_turns(spec_apply_set_sleep_turns(s, x), x),
        spec_reverse_set_sleep_turns(spec_apply_set_sleep_turns(s, x), x) == s,
{
    reveal(spec_applicable_set_sleep_turns);
    reveal(spec_apply_set_sleep_turns);
    reveal(spec_reversible_set_sleep_turns);
    reveal(spec_reverse_set_sleep_turns);
    let p = s.spec_party(x.side_ref, x.pokemon_index);
    let p1 = Pokemon { sleep_turns: x.new_turns, ..p };
    lemma_party_round_trip(s, x.side_ref, x.pokemon_index, p1);
    assert(Pokemon { sleep_turns: x.previous_turns, ..p1 } == p);
}

/// Setting the Rest counter and restoring it gives the state back.
#[verifier::spinoff_prover]
pub proof fn law_undo_set_rest_turns(s: State, x: SetSleepTurnsInstruction)
    requires spec_applicable_set_rest_turns(s, x),
    ensures
        spec_reversible_set_rest_turns(spec_apply_set_rest_turns(s, x), x),
        spec_reverse_set_rest_turns(spec_apply_set_rest_turns(s, x), x) == s,
{
    reveal(spec_applicable_set_rest_turns);
    reveal(spec_apply_set_rest_turns);
    reveal(spec_reversible_set_rest_turns);
    reveal(spec_reverse_set_rest_turns);
    let p = s.spec_party(x.side_ref, x.pokemon_index);
    let p1 = Pokemon { rest_turns: x.new_turns, ..p };
    lemma_party_round_trip(s, x.side_ref, x.pokemon_index, p1);
    assert(Pokemon { rest_turns: x.previous_turns, ..p1 } == p);
}

/// Starting a Baton Pass and ending it gives the state back.
#[verifier::spinoff_prover]
pub proof fn law_undo_toggle_baton_passing(s: State, x: ToggleBatonPassingInstruction)
    requires spec_applicable_toggle_baton_passing(s, x),
    ensures
        spec_reversible_toggle_baton_passing(spec_apply_toggle_baton_passing(s, x), x),
        spec_reverse_toggle_baton_passing(spec_apply_toggle_baton_passing(s, x), x) == s,
{
    reveal(spec_applicable_toggle_baton_passing);
    reveal(spec_apply_toggle_baton_passing);
    reveal(spec_reversible_toggle_baton_passing);
    reveal(spec_reverse_toggle_baton_passing);
    let side = s.spec_side(x.side_ref);
    let side1 = Side { baton_passing: !side.baton_passing, ..side };
    lemma_side_round_trip(s, x.side_ref, side1);
    let s1 = s.spec_set_side(x.side_ref, side1);
    assert(Side { baton_passing: !side1.baton_passing, ..side1 } == side);
    lemma_side_round_trip(s1, x.side_ref, side);
    assert(s1.spec_set_side(x.side_ref, side) == s.spec_set_side(x.side_ref, side1).spec_set_side(x.side_ref, side)) by {
        reveal(State::spec_set_side);
    }
}

/// Starting a Shed Tail and ending it gives the state back.
#[verifier::spinoff_prover]
pub proof fn law_undo_toggle_shed_tailing(s: State, x: ToggleShedTailingInstruction)
    requires spec_applicable_toggle_shed_tailing(s, x),
    ensures
        spec_reversible_toggle_shed_tailing(spec_apply_toggle_shed_tailing(s, x), x),
        spec_reverse_toggle_shed_tailing(spec_apply_toggle_shed_tailing(s, x), x) == s,
{
    reveal(spec_applicable_toggle_shed_tailing);
    reveal(spec_apply_toggle_shed_tailing);
    reveal(spec_reversible_toggle_shed_tailing);
    reveal(spec_reverse_toggle_shed_tailing);
    let side = s.spec_side(x.side_ref);
    let side1 = Side { shed_tailing: !side.shed_tailing, ..side };
    lemma_side_round_trip(s, x.side_ref, side1);
    let s1 = s.spec_set_side(x.side_ref, side1);
    assert(Side { shed_tailing: !side1.shed_tailing, ..side1 } == side);
    lemma_side_round_trip(s1, x.side_ref, side);
    assert(s1.spec_set_side(x.side_ref, side) == s.spec_set_side(x.side_ref, side1).spec_set_side(x.side_ref, side)) by {
        reveal(State::spec_set_side);
    }
}

/// Setting a forced switch and clearing it gives the state back.
pub proof fn law_undo_toggle_side_one_force_switch(s: State)
    requires spec_applicable_toggle_side_one_force_switch(s),
    ensures
        spec_reversible_toggle_side_one_force_switch(spec_apply_toggle_side_one_force_switch(s)),
        spec_reverse_toggle_side_one_force_switch(spec_apply_toggle_side_one_force_switch(s)) == s,
{
    reveal(spec_applicable_toggle_side_one_force_switch);
    reveal(spec_apply_toggle_side_one_force_switch);
    reveal(spec_reversible_toggle_side_one_force_switch);
    reveal(spec_reverse_toggle_side_one_force_switch);
}

/// Setting a forced switch and clearing it gives the state back.
pub proof fn law_undo_toggle_side_two_force_switch(s: State)
    requires spec_applicable_toggle_side_two_force_switch(s),
    ensures
        spec_reversible_toggle_side_two_force_switch(spec_apply_toggle_side_two_force_switch(s)),
        spec_reverse_toggle_side_two_force_switch(spec_apply_toggle_side_two_force_switch(s)) == s,
{
    reveal(spec_applicable_toggle_side_two_force_switch);
    reveal(spec_apply_toggle_side_two_force_switch);
    reveal(spec_reversible_toggle_side_two_force_switch);
    reveal(spec_reverse_toggle_side_two_force_switch);
}

/// Setting a side condition and reading it gives the value set; setting it
/// back gives the conditions back.
#[verifier::spinoff_prover]
proof fn lemma_condition_round_trip(sc: SideConditions, c: PokemonSideCondition, v: i8)
    ensures
        sc.spec_set(c, v).spec_get(c) == v,
        sc.spec_set(c, v).spec_set(c, sc.spec_get(c)) == sc,
{
    reveal(SideConditions::spec_get);
    reveal(SideConditions::spec_set);
    match c {
        PokemonSideCondition::AuroraVeil => {},
        PokemonSideCondition::CraftyShield => {},
        PokemonSideCondition::HealingWish => {},
        PokemonSideCondition::LightScreen => {},
        PokemonSideCondition::LuckyChant => {},
        PokemonSideCondition::LunarDance => {},
        PokemonSideCondition::MatBlock => {},
        PokemonSideCondition::Mist => {},
        PokemonSideCondition::Protect => {},
        PokemonSideCondition::QuickGuard => {},
        PokemonSideCondition::Reflect => {},
        PokemonSideCondition::Safeguard => {},
        PokemonSideCondition::Spikes => {},
        PokemonSideCondition::Stealthrock => {},
        PokemonSideCondition::StickyWeb => {},
        PokemonSideCondition::Tailwind => {},
        PokemonSideCondition::ToxicCount => {},
        PokemonSideCondition::ToxicSpikes => {},
        PokemonSideCondition::WideGuard => {},
    }
}

/// Changing a side condition and changing it back gives the state back.
#[verifier::spinoff_prover]
pub proof fn law_undo_change_side_condition(s: State, x: ChangeSideConditionInstruction)
    requires spec_applicable_change_side_condition(s, x),
    ensures
        spec_reversible_change_side_condition(spec_apply_change_side_condition(s, x), x),
        spec_reverse_change_side_condition(spec_apply_change_side_condition(s, x), x) == s,
{
    reveal(spec_applicable_change_side_condition);
    reveal(spec_apply_change_side_condition);
    reveal(spec_reversible_change_side_condition);
    reveal(spec_reverse_change_side_condition);
    let side = s.spec_side(x.side_ref);
    let v = side.side_conditions.spec_get(x.side_condition);
    let v1 = (v + x.amount) as i8;
    lemma_condition_round_trip(side.side_conditions, x.side_condition, v1);
    let side1 = side.spec_set_side_condition(x.side_condition, v1);
    lemma_side_round_trip(s, x.side_ref, side1);
    let s1 = s.spec_set_side(x.side_ref, side1);
    assert(((v1 - x.amount) as i8) == v);
    assert(side1.spec_set_side_condition(x.side_condition, v) == side);
    lemma_side_round_trip(s1, x.side_ref, side);
    assert(s1.spec_set_side(x.side_ref, side) == s.spec_set_side(x.side_ref, side1).spec_set_side(x.side_ref, side)) by {
        reveal(State::spec_set_side);
    }
}

/// Damage as the engine deals it (the hit points go down by the amount, held
/// to an `i16`) is the Damage instruction that records it, applied, whenever
/// that instruction applies; undoing it gives the state back.
pub proof fn law_damage_is_recorded(s: State, r: SideReference, amount: i16)
    requires
        spec_applicable_damage(s, DamageInstruction { side_ref: r, slot: 0, damage_amount: amount }),
    ensures
        spec_damaged(s, r, amount) == spec_apply_damage(s, DamageInstruction { side_ref: r, slot: 0, damage_amount: amount }),
        spec_reverse_damage(spec_damaged(s, r, amount), DamageInstruction { side_ref: r, slot: 0, damage_amount: amount }) == s,
{
    reveal(spec_damaged);
    reveal(spec_applicable_damage);
    reveal(spec_apply_damage);
    law_undo_damage(s, DamageInstruction { side_ref: r, slot: 0, damage_amount: amount });
}

/// Healing as the engine does it is the Heal instruction that records it,
/// applied, whenever that instruction applies; undoing it gives the state back.
pub proof fn law_heal_is_recorded(s: State, r: SideReference, amount: i16)
    requires
        spec_applicable_heal(s, HealInstruction { side_ref: r, slot: 0, heal_amount: amount }),
    ensures
        spec_healed(s, r, amount) == spec_apply_heal(s, HealInstruction { side_ref: r, slot: 0, heal_amount: amount }),
        spec_reverse_heal(spec_healed(s, r, amount), HealInstruction { side_ref: r, slot: 0, heal_amount: amount }) == s,
{
    reveal(spec_healed);
    reveal(spec_applicable_heal);
    reveal(spec_apply_heal);
    law_undo_heal(s, HealInstruction { side_ref: r, slot: 0, heal_amount: amount });
}

/// Taking a volatile status off as the engine does it is the instruction that
/// records it, applied; when the status was there, undoing it gives the state
/// back.
pub proof fn law_volatile_removal_is_recorded(s: State, r: SideReference, vs: PokemonVolatileStatus)
    requires
        spec_applicable_remove_volatile_status(s, RemoveVolatileStatusInstruction { side_ref: r, slot: 0, volatile_status: vs }),
    ensures
        spec_volatile_removed(s, r, vs)
            == spec_apply_remove_volatile_status(s, RemoveVolatileStatusInstruction { side_ref: r, slot: 0, volatile_status: vs }),
        spec_reverse_remove_volatile_status(spec_volatile_removed(s, r, vs),
            RemoveVolatileStatusInstruction { side_ref: r, slot: 0, volatile_status: vs }) == s,
{
    reveal(spec_volatile_removed);
    reveal(spec_apply_remove_volatile_status);
    law_undo_remove_volatile_status(s, RemoveVolatileStatusInstruction { side_ref: r, slot: 0, volatile_status: vs });
}

} // verus!
