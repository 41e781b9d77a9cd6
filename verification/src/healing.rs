//! What a Healing Wish does for the Pokemon that comes in.

use vstd::prelude::*;
use crate::generate::{spec_condition_step, spec_heal_step, spec_healed, spec_healing_wish, spec_remove_status_step};
use crate::instruction::{ChangeSideConditionInstruction, ChangeStatusInstruction, Instruction};
use crate::state::{Pokemon, PokemonIndex, PokemonSideCondition, PokemonStatus, Side, SidePokemon, SideReference, State};

verus! {

proof fn lemma_slot_round_trip(sp: SidePokemon, i: PokemonIndex, p: Pokemon)
    ensures
        sp.spec_set(i, p).spec_get(i) == p,
{
    reveal(SidePokemon::spec_get);
    reveal(SidePokemon::spec_set);
    match i {
        PokemonIndex::P0 => {},
        PokemonIndex::P1 => {},
        PokemonIndex::P2 => {},
        PokemonIndex::P3 => {},
        PokemonIndex::P4 => {},
        PokemonIndex::P5 => {},
    }
}

proof fn lemma_set_side_then_side(s: State, r: SideReference, x: Side)
    ensures
        s.spec_set_side(r, x).spec_side(r) == x,
{
    reveal(State::spec_side);
    reveal(State::spec_set_side);
}

proof fn lemma_heal_keeps_status(s: State, r: SideReference, amount: i16)
    ensures
        spec_heal_step(s, r, amount).0.spec_side(r).pokemon.spec_get(s.spec_side(r).active_index).status
            == s.spec_active(r).status,
        spec_heal_step(s, r, amount).0.spec_side(r).active_index == s.spec_side(r).active_index,
{
    reveal(spec_heal_step);
    reveal(spec_healed);
    let side = s.spec_side(r);
    let p = s.spec_active(r);
    let q = Pokemon { hp: crate::generate::clamp16(p.hp + amount), ..p };
    lemma_set_side_then_side(s, r, side.spec_set_active(q));
    lemma_slot_round_trip(side.pokemon, side.active_index, q);
}

proof fn lemma_status_removed(s: State, r: SideReference, index: PokemonIndex)
    ensures
        spec_remove_status_step(s, r, index).1.len() >= 1,
        spec_remove_status_step(s, r, index).1[0] == Instruction::ChangeStatus(ChangeStatusInstruction {
            side_ref: r, pokemon_index: index, old_status: s.spec_side(r).pokemon.spec_get(index).status,
            new_status: PokemonStatus::NONE }),
{
    reveal(spec_remove_status_step);
    let p = s.spec_side(r).pokemon.spec_get(index);
    let count = s.spec_side(r).side_conditions.toxic_count;
    let l = crate::generate::spec_remove_status_list(p, index, r, count);
    assert(spec_remove_status_step(s, r, index).1 == l);
    let first = Instruction::ChangeStatus(ChangeStatusInstruction {
        side_ref: r, pokemon_index: index, old_status: p.status, new_status: PokemonStatus::NONE });
    if p.status == PokemonStatus::SLEEP && p.rest_turns > 0 {
        assert(l[0] == first);
    } else if p.status == PokemonStatus::SLEEP && p.sleep_turns > 0 {
        assert(l[0] == first);
    } else if p.status == PokemonStatus::TOXIC && count != 0 {
        assert(l[0] == first);
    } else {
        assert(l[0] == first);
    }
}

proof fn lemma_condition_step_list(s: State, r: SideReference, c: PokemonSideCondition, amount: i8)
    ensures
        spec_condition_step(s, r, c, amount).1 == seq![Instruction::ChangeSideCondition(
            ChangeSideConditionInstruction { side_ref: r, side_condition: c, amount })],
{
    reveal(spec_condition_step);
}

/// A Healing Wish restores the status of the Pokemon that comes in: where one
/// is waiting on side `r` and its new active Pokemon `index` has a status,
/// the instructions take the status away before the last one, which uses up
/// the Healing Wish.
pub proof fn law_healing_wish_cures_status(s: State, r: SideReference, index: PokemonIndex)
    requires
        s.spec_side(r).active_index == index,
        s.spec_side(r).side_conditions.healing_wish > 0,
        s.spec_active(r).status != PokemonStatus::NONE,
    ensures
        ({
            let t = spec_healing_wish(s, r, index);
            &&& t.1.len() >= 2
            &&& exists|k: int| 0 <= k < t.1.len() - 1 && t.1[k] == Instruction::ChangeStatus(ChangeStatusInstruction {
                    side_ref: r, pokemon_index: index, old_status: s.spec_active(r).status,
                    new_status: PokemonStatus::NONE })
            &&& exists|x: ChangeSideConditionInstruction| t.1.last() == Instruction::ChangeSideCondition(x)
                    && x.side_ref == r && x.side_condition == PokemonSideCondition::HealingWish
        }),
{
    reveal(spec_healing_wish);
    let active = s.spec_active(r);
    let st = active.status;
    let hurt = active.hp < active.maxhp;
    let amount = crate::generate::clamp16(active.maxhp - active.hp);
    let t1 = if hurt { spec_heal_step(s, r, amount) } else { (s, seq![]) };
    if hurt {
        lemma_heal_keeps_status(s, r, amount);
    }
    assert(t1.0.spec_side(r).pokemon.spec_get(index).status == st);
    let t2 = spec_remove_status_step(t1.0, r, index);
    lemma_status_removed(t1.0, r, index);
    let hw = t2.0.spec_side(r).side_conditions.healing_wish;
    let c = crate::generate::clamp8(-hw);
    let t3 = spec_condition_step(t2.0, r, PokemonSideCondition::HealingWish, c);
    lemma_condition_step_list(t2.0, r, PokemonSideCondition::HealingWish, c);
    let x = ChangeSideConditionInstruction { side_ref: r, side_condition: PokemonSideCondition::HealingWish, amount: c };
    let l = t1.1 + t2.1 + t3.1;
    assert(spec_healing_wish(s, r, index).1 == l);
    let k = t1.1.len() as int;
    assert(l[k] == t2.1[0]);
    assert(l[l.len() - 1] == Instruction::ChangeSideCondition(x));
}

} // verus!
