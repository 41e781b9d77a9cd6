//! The choices open to a side: moves, switches, and what stops them.

use vstd::prelude::*;
use crate::abilities::Abilities;
use crate::choices::{Choices, MoveCategory};
use crate::items::Items;
use crate::pokemon::PokemonName;
use crate::state::{
    BattlePosition, LastUsedMove, Move, Pokemon, PokemonIndex, PokemonMoveIndex, PokemonType,
    PokemonVolatileStatus, Side, SideReference, State,
};

verus! {

/// A chosen action for one active Pokemon.
#[derive(Clone, Copy, PartialEq, Eq, Debug, Hash, Structural)]
pub enum MoveChoice {
    MoveTera { move_index: PokemonMoveIndex, target: BattlePosition },
    MoveMega { move_index: PokemonMoveIndex, target: BattlePosition },
    Move { move_index: PokemonMoveIndex, target: BattlePosition },
    Switch(PokemonIndex),
    Nothing,
}

impl MoveChoice {
    pub fn new_move(move_index: PokemonMoveIndex, target: BattlePosition) -> (r: MoveChoice)
        ensures r == (MoveChoice::Move { move_index, target }),
    {
        MoveChoice::Move { move_index, target }
    }

    pub fn new_move_tera(move_index: PokemonMoveIndex, target: BattlePosition) -> (r: MoveChoice)
        ensures r == (MoveChoice::MoveTera { move_index, target }),
    {
        MoveChoice::MoveTera { move_index, target }
    }

    pub fn new_move_mega(move_index: PokemonMoveIndex, target: BattlePosition) -> (r: MoveChoice)
        ensures r == (MoveChoice::MoveMega { move_index, target }),
    {
        MoveChoice::MoveMega { move_index, target }
    }
}

/// The actions of a side, one for each of its active Pokemon.
#[derive(Clone, Copy, PartialEq, Eq, Debug, Hash)]
pub struct SideAction {
    pub actions: [MoveChoice; 1],
}

impl SideAction {
    pub fn new(actions: [MoveChoice; 1]) -> (r: SideAction)
        ensures r.actions == actions,
    {
        SideAction { actions }
    }
}

/// Whether a side's decision is to do nothing.
pub fn is_none_action(choice: &MoveChoice) -> (r: bool)
    ensures r == (*choice == MoveChoice::Nothing),
{
    match choice {
        MoveChoice::Nothing => true,
        _ => false,
    }
}

/// The form that `id` mega evolves into when holding `item`, for the mega
/// stones this engine knows.
pub open spec fn spec_mega_evolve_target(id: PokemonName, item: Items) -> Option<PokemonName> {
    if id == PokemonName::CHARIZARD && item == Items::CHARIZARDITEX {
        Some(PokemonName::CHARIZARDMEGAX)
    } else if id == PokemonName::CHARIZARD && item == Items::CHARIZARDITEY {
        Some(PokemonName::CHARIZARDMEGAY)
    } else if id == PokemonName::VENUSAUR && item == Items::VENUSAURITE {
        Some(PokemonName::VENUSAURMEGA)
    } else if id == PokemonName::BLASTOISE && item == Items::BLASTOISINITE {
        Some(PokemonName::BLASTOISEMEGA)
    } else if id == PokemonName::GENGAR && item == Items::GENGARITE {
        Some(PokemonName::GENGARMEGA)
    } else {
        None
    }
}

pub open spec fn spec_move_is_selectable(
    p: Pokemon,
    move_index: PokemonMoveIndex,
    mv: Move,
    last_used_move: LastUsedMove,
    encored: bool,
    taunted: bool,
) -> bool {
    if mv.disabled || mv.pp <= 0 {
        false
    } else if (last_used_move matches LastUsedMove::Move(last) && encored && last != move_index) {
        false
    } else if (last_used_move matches LastUsedMove::Move(last)
        && (p.moves.spec_get(last).id == Choices::BLOODMOON || p.moves.spec_get(last).id == Choices::GIGATONHAMMER)
        && move_index == last) {
        false
    } else {
        !((p.item == Items::ASSAULTVEST || taunted) && mv.category == MoveCategory::Status)
    }
}

impl Pokemon {
    /// Whether this Pokemon holds the mega stone of its species.
    pub fn can_mega_evolve(&self) -> (r: bool)
        ensures r == spec_mega_evolve_target(self.id, self.item) is Some,
    {
        (self.id == PokemonName::CHARIZARD && self.item == Items::CHARIZARDITEX)
            || (self.id == PokemonName::CHARIZARD && self.item == Items::CHARIZARDITEY)
            || (self.id == PokemonName::VENUSAUR && self.item == Items::VENUSAURITE)
            || (self.id == PokemonName::BLASTOISE && self.item == Items::BLASTOISINITE)
            || (self.id == PokemonName::GENGAR && self.item == Items::GENGARITE)
    }

    /// Whether move `mv` in slot `move_index` can be chosen: not disabled, with
    /// PP left, the encored move if encored, not a repeat of Blood Moon or
    /// Gigaton Hammer, and no status move under Taunt or an Assault Vest.
    fn move_is_selectable(
        &self,
        move_index: PokemonMoveIndex,
        mv: &Move,
        last_used_move: &LastUsedMove,
        encored: bool,
        taunted: bool,
    ) -> (r: bool)
        ensures r == spec_move_is_selectable(*self, move_index, *mv, *last_used_move, encored, taunted),
    {
        if mv.disabled || mv.pp <= 0 {
            return false;
        }
        match last_used_move {
            LastUsedMove::Move(last) => {
                if encored && *last != move_index {
                    return false;
                }
                let id = self.moves.get(*last).id;
                if (id == Choices::BLOODMOON || id == Choices::GIGATONHAMMER) && move_index == *last {
                    return false;
                }
            }
            _ => {}
        }
        if (self.item == Items::ASSAULTVEST || taunted) && mv.category == MoveCategory::Status {
            return false;
        }
        true
    }

    /// Appends an option for each selectable move, each followed by its
    /// Terastallized form when `can_tera` and its mega evolving form when the
    /// Pokemon can mega evolve (see `spec_available_moves`).
    pub fn add_available_moves(
        &self,
        vec: &mut Vec<MoveChoice>,
        last_used_move: &LastUsedMove,
        encored: bool,
        taunted: bool,
        can_tera: bool,
        target: BattlePosition,
    )
        ensures
            final(vec)@ == old(vec)@ + spec_available_moves(*self, *last_used_move, encored, taunted, can_tera, target, 4),
    {
        let idx = [PokemonMoveIndex::M0, PokemonMoveIndex::M1, PokemonMoveIndex::M2, PokemonMoveIndex::M3];
        assert forall|j: int| 0 <= j < 4 implies idx@[j] == spec_move_index_at(j) by {
            if j == 0 {} else if j == 1 {} else if j == 2 {} else {}
        }
        let mega = self.can_mega_evolve();
        let ghost v0 = vec@;
        let mut k: usize = 0;
        while k < 4
            invariant
                k <= 4,
                forall|j: int| 0 <= j < 4 ==> idx@[j] == spec_move_index_at(j),
                mega == spec_mega_evolve_target(self.id, self.item) is Some,
                vec@ == v0 + spec_available_moves(*self, *last_used_move, encored, taunted, can_tera, target, k as nat),
            decreases 4 - k,
        {
            let mi = idx[k];
            let ghost before = vec@;
            self.push_move_options(vec, mi, last_used_move, encored, taunted, can_tera, mega, target);
            proof {
                let prev = spec_available_moves(*self, *last_used_move, encored, taunted, can_tera, target, k as nat);
                let here = spec_move_options(*self, mi, *last_used_move, encored, taunted, can_tera, target);
                assert(mi == spec_move_index_at(k as int));
                assert(spec_available_moves(*self, *last_used_move, encored, taunted, can_tera, target, (k + 1) as nat)
                    == prev + here);
                assert(vec@ =~= v0 + (prev + here));
            }
            k = k + 1;
        }
    }

    fn push_move_options(
        &self,
        vec: &mut Vec<MoveChoice>,
        mi: PokemonMoveIndex,
        last_used_move: &LastUsedMove,
        encored: bool,
        taunted: bool,
        can_tera: bool,
        mega: bool,
        target: BattlePosition,
    )
        requires
            mega == spec_mega_evolve_target(self.id, self.item) is Some,
        ensures
            final(vec)@ == old(vec)@ + spec_move_options(*self, mi, *last_used_move, encored, taunted, can_tera, target),
    {
        reveal(spec_move_options);
        let ghost before = vec@;
        let mv = self.moves.get(mi);
        if self.move_is_selectable(mi, mv, last_used_move, encored, taunted) {
            vec.push(MoveChoice::Move { move_index: mi, target });
            if can_tera {
                vec.push(MoveChoice::MoveTera { move_index: mi, target });
            }
            if mega {
                vec.push(MoveChoice::MoveMega { move_index: mi, target });
            }
        }
        assert(vec@ =~= before + spec_move_options(*self, mi, *last_used_move, encored, taunted, can_tera, target));
    }

    /// Appends an option for each of this Pokemon's moves that is `choice`, in
    /// slot order.
    pub fn add_move_from_choice(&self, vec: &mut Vec<MoveChoice>, choice: Choices, target: BattlePosition)
        ensures
            final(vec)@ == old(vec)@ + spec_moves_of_choice(*self, choice, target, 4),
    {
        let idx = [PokemonMoveIndex::M0, PokemonMoveIndex::M1, PokemonMoveIndex::M2, PokemonMoveIndex::M3];
        assert forall|j: int| 0 <= j < 4 implies idx@[j] == spec_move_index_at(j) by {
            if j == 0 {} else if j == 1 {} else if j == 2 {} else {}
        }
        let ghost v0 = vec@;
        let mut k: usize = 0;
        while k < 4
            invariant
                k <= 4,
                forall|j: int| 0 <= j < 4 ==> idx@[j] == spec_move_index_at(j),
                vec@ == v0 + spec_moves_of_choice(*self, choice, target, k as nat),
            decreases 4 - k,
        {
            let mi = idx[k];
            let ghost before = vec@;
            if self.moves.get(mi).id == choice {
                vec.push(MoveChoice::Move { move_index: mi, target });
            }
            assert(vec@ =~= v0 + spec_moves_of_choice(*self, choice, target, (k + 1) as nat));
            k = k + 1;
        }
    }
}

/// The move slot at position `k`, counting from zero.
pub open spec fn spec_move_index_at(k: int) -> PokemonMoveIndex {
    if k == 0 {
        PokemonMoveIndex::M0
    } else if k == 1 {
        PokemonMoveIndex::M1
    } else if k == 2 {
        PokemonMoveIndex::M2
    } else {
        PokemonMoveIndex::M3
    }
}

/// The options for the move in slot `mi` of `p`: none unless it is
/// selectable; else the move, then its Terastallized form when `can_tera`, then
/// its mega evolving form when `p` can mega evolve.
#[verifier::opaque]
pub open spec fn spec_move_options(
    p: Pokemon,
    mi: PokemonMoveIndex,
    last_used_move: LastUsedMove,
    encored: bool,
    taunted: bool,
    can_tera: bool,
    target: BattlePosition,
) -> Seq<MoveChoice> {
    if spec_move_is_selectable(p, mi, p.moves.spec_get(mi), last_used_move, encored, taunted) {
        let plain = seq![MoveChoice::Move { move_index: mi, target }];
        let tera = if can_tera { plain.push(MoveChoice::MoveTera { move_index: mi, target }) } else { plain };
        if spec_mega_evolve_target(p.id, p.item) is Some {
            tera.push(MoveChoice::MoveMega { move_index: mi, target })
        } else {
            tera
        }
    } else {
        seq![]
    }
}

/// The options for the first `k` move slots of `p`, in slot order.
pub open spec fn spec_available_moves(
    p: Pokemon,
    last_used_move: LastUsedMove,
    encored: bool,
    taunted: bool,
    can_tera: bool,
    target: BattlePosition,
    k: nat,
) -> Seq<MoveChoice>
    decreases k,
{
    if k == 0 {
        seq![]
    } else {
        spec_available_moves(p, last_used_move, encored, taunted, can_tera, target, (k - 1) as nat)
            + spec_move_options(p, spec_move_index_at(k - 1), last_used_move, encored, taunted, can_tera, target)
    }
}

/// A move option for each of the first `k` slots of `p` that holds `choice`.
pub open spec fn spec_moves_of_choice(p: Pokemon, choice: Choices, target: BattlePosition, k: nat) -> Seq<MoveChoice>
    decreases k,
{
    if k == 0 {
        seq![]
    } else {
        let before = spec_moves_of_choice(p, choice, target, (k - 1) as nat);
        let mi = spec_move_index_at(k - 1);
        if p.moves.spec_get(mi).id == choice { before.push(MoveChoice::Move { move_index: mi, target }) } else { before }
    }
}

/// Whether `p` cannot leave the field against `opponent`.
pub open spec fn spec_trapped(p: Pokemon, opponent: Pokemon) -> bool {
    if p.volatile_statuses.spec_contains(PokemonVolatileStatus::LOCKEDMOVE)
        || p.volatile_statuses.spec_contains(PokemonVolatileStatus::NORETREAT) {
        true
    } else if p.item == Items::SHEDSHELL || p.spec_has_type(PokemonType::GHOST) {
        false
    } else {
        p.volatile_statuses.spec_contains(PokemonVolatileStatus::PARTIALLYTRAPPED)
            || opponent.ability == Abilities::SHADOWTAG
            || (opponent.ability == Abilities::ARENATRAP && p.spec_is_grounded())
            || (opponent.ability == Abilities::MAGNETPULL && p.spec_has_type(PokemonType::STEEL))
    }
}

impl Side {
    /// Whether the active Pokemon cannot switch out against `opponent_active`.
    pub fn trapped(&self, opponent_active: &Pokemon) -> (r: bool)
        ensures r == spec_trapped(self.spec_active(), *opponent_active),
    {
        self.trapped_slot(0, opponent_active)
    }

    /// Whether the active Pokemon in `slot` cannot switch out against `opponent_active`.
    pub fn trapped_slot(&self, slot: u8, opponent_active: &Pokemon) -> (r: bool)
        requires slot == 0,
        ensures r == spec_trapped(self.spec_active(), *opponent_active),
    {
        let p = self.get_active_slot_immutable(slot);
        let locked = p.volatile_statuses.contains(&PokemonVolatileStatus::LOCKEDMOVE);
        let no_retreat = p.volatile_statuses.contains(&PokemonVolatileStatus::NORETREAT);
        if locked || no_retreat {
            return true;
        }
        if p.item == Items::SHEDSHELL || p.has_type(&PokemonType::GHOST) {
            return false;
        }
        let bound = p.volatile_statuses.contains(&PokemonVolatileStatus::PARTIALLYTRAPPED);
        let grounded = p.is_grounded();
        let steel = p.has_type(&PokemonType::STEEL);
        bound || opponent_active.ability == Abilities::SHADOWTAG
            || (opponent_active.ability == Abilities::ARENATRAP && grounded)
            || (opponent_active.ability == Abilities::MAGNETPULL && steel)
    }

    /// How many of the side's Pokemon have fainted.
    pub fn num_fainted_pkmn(&self) -> (r: i8)
        ensures
            0 <= r <= 6,
            r == (if self.pokemon.p0.hp == 0 { 1int } else { 0 }) + (if self.pokemon.p1.hp == 0 { 1int } else { 0 })
                + (if self.pokemon.p2.hp == 0 { 1int } else { 0 }) + (if self.pokemon.p3.hp == 0 { 1int } else { 0 })
                + (if self.pokemon.p4.hp == 0 { 1int } else { 0 }) + (if self.pokemon.p5.hp == 0 { 1int } else { 0 }),
    {
        let mut count: i8 = 0;
        if self.pokemon.p0.hp == 0 { count = count + 1; }
        if self.pokemon.p1.hp == 0 { count = count + 1; }
        if self.pokemon.p2.hp == 0 { count = count + 1; }
        if self.pokemon.p3.hp == 0 { count = count + 1; }
        if self.pokemon.p4.hp == 0 { count = count + 1; }
        if self.pokemon.p5.hp == 0 { count = count + 1; }
        count
    }

    /// Appends a switch to each living party member off the field, in party
    /// order; if that leaves `vec` empty, appends doing nothing.
    pub fn add_switches(&self, vec: &mut Vec<MoveChoice>)
        ensures
            old(vec)@.len() <= final(vec)@.len(),
            final(vec)@.len() > 0,
            forall|k: int| 0 <= k < old(vec)@.len() ==> #[trigger] final(vec)@[k] == old(vec)@[k],
            forall|k: int| old(vec)@.len() <= k < final(vec)@.len() ==> (#[trigger] final(vec)@[k] matches
                MoveChoice::Switch(i) && self.pokemon.spec_get(i).hp > 0 && i != self.active_index)
                || (final(vec)@[k] == MoveChoice::Nothing && old(vec)@.len() == 0),
            forall|i: PokemonIndex| self.pokemon.spec_get(i).hp > 0 && i != self.active_index
                ==> #[trigger] final(vec)@.contains(MoveChoice::Switch(i)),
            final(vec)@ == spec_switch_options(*self, old(vec)@),
    {
        let idx = [PokemonIndex::P0, PokemonIndex::P1, PokemonIndex::P2, PokemonIndex::P3, PokemonIndex::P4, PokemonIndex::P5];
        assert forall|j: int| 0 <= j < 6 implies idx@[j] == spec_index_at(j) by {
            if j == 0 {} else if j == 1 {} else if j == 2 {} else if j == 3 {} else if j == 4 {} else {}
        }
        let ghost v0 = vec@;
        let mut k: usize = 0;
        while k < 6
            invariant
                k <= 6,
                forall|j: int| 0 <= j < 6 ==> idx@[j] == spec_index_at(j),
                vec@ == v0 + spec_bench_switches(*self, k as nat),
                idx@ == seq![PokemonIndex::P0, PokemonIndex::P1, PokemonIndex::P2, PokemonIndex::P3, PokemonIndex::P4, PokemonIndex::P5],
                old(vec)@.len() <= vec@.len(),
                forall|j: int| 0 <= j < old(vec)@.len() ==> #[trigger] vec@[j] == old(vec)@[j],
                forall|j: int| old(vec)@.len() <= j < vec@.len() ==> (#[trigger] vec@[j] matches
                    MoveChoice::Switch(i) && self.pokemon.spec_get(i).hp > 0 && i != self.active_index),
                forall|m: int| 0 <= m < k && self.pokemon.spec_get(idx@[m]).hp > 0 && idx@[m] != self.active_index
                    ==> #[trigger] vec@.contains(MoveChoice::Switch(idx@[m])),
            decreases 6 - k,
        {
            let i = idx[k];
            let p = self.pokemon.get(i);
            if p.hp > 0 && i != self.active_index {
                let ghost before = vec@;
                vec.push(MoveChoice::Switch(i));
                assert(vec@[vec@.len() - 1] == MoveChoice::Switch(i));
                assert forall|m: int| 0 <= m < k && self.pokemon.spec_get(idx@[m]).hp > 0 && idx@[m] != self.active_index
                    implies #[trigger] vec@.contains(MoveChoice::Switch(idx@[m])) by {
                    assert(before.contains(MoveChoice::Switch(idx@[m])));
                    let w = choose|w: int| 0 <= w < before.len() && before[w] == MoveChoice::Switch(idx@[m]);
                    assert(vec@[w] == MoveChoice::Switch(idx@[m]));
                }
                assert(vec@.contains(MoveChoice::Switch(idx@[k as int])));
            }
            assert(idx@[k as int] == spec_index_at(k as int));
            assert(vec@ =~= v0 + spec_bench_switches(*self, (k + 1) as nat));
            k = k + 1;
        }
        assert forall|i: PokemonIndex| self.pokemon.spec_get(i).hp > 0 && i != self.active_index
            implies #[trigger] vec@.contains(MoveChoice::Switch(i)) by {
            match i {
                PokemonIndex::P0 => assert(idx@[0] == i),
                PokemonIndex::P1 => assert(idx@[1] == i),
                PokemonIndex::P2 => assert(idx@[2] == i),
                PokemonIndex::P3 => assert(idx@[3] == i),
                PokemonIndex::P4 => assert(idx@[4] == i),
                PokemonIndex::P5 => assert(idx@[5] == i),
            }
        }
        if vec.len() == 0 {
            let ghost before = vec@;
            vec.push(MoveChoice::Nothing);
            assert forall|i: PokemonIndex| self.pokemon.spec_get(i).hp > 0 && i != self.active_index
                implies #[trigger] vec@.contains(MoveChoice::Switch(i)) by {
                assert(before.contains(MoveChoice::Switch(i)));
            }
        }
    }
}

/// A switch to each living Pokemon among the first `k` of `side` that is not
/// on the field, in party order.
pub open spec fn spec_bench_switches(side: Side, k: nat) -> Seq<MoveChoice>
    decreases k,
{
    if k == 0 {
        seq![]
    } else {
        let before = spec_bench_switches(side, (k - 1) as nat);
        let i = spec_index_at(k - 1);
        if side.pokemon.spec_get(i).hp > 0 && i != side.active_index {
            before.push(MoveChoice::Switch(i))
        } else {
            before
        }
    }
}

/// `before` with the switches of `side` after it; doing nothing if that
/// leaves it empty.
pub open spec fn spec_switch_options(side: Side, before: Seq<MoveChoice>) -> Seq<MoveChoice> {
    let l = before + spec_bench_switches(side, 6);
    if l.len() == 0 { seq![MoveChoice::Nothing] } else { l }
}

/// The options of a side that waits while the other must switch: the move it
/// saved for after the switch, each slot that holds it, or doing nothing.
pub open spec fn spec_saved_move_options(side: Side, target: BattlePosition) -> Seq<MoveChoice> {
    if side.switch_out_move_second_saved_move == Choices::NONE {
        seq![MoveChoice::Nothing]
    } else {
        spec_moves_of_choice(side.spec_active(), side.switch_out_move_second_saved_move, target, 4)
    }
}

/// The ordinary options of `side` against `foe`: doing nothing while it must
/// recharge; the move it is charging; otherwise its selectable moves, then,
/// unless it is trapped, its switches.
pub open spec fn spec_ordinary_options(side: Side, foe: Pokemon, target: BattlePosition) -> Seq<MoveChoice> {
    let p = side.spec_active();
    if p.volatile_statuses.spec_contains(PokemonVolatileStatus::MUSTRECHARGE) {
        seq![MoveChoice::Nothing]
    } else if spec_charging_from(p, 0) is Some {
        seq![MoveChoice::Move { move_index: spec_charging_from(p, 0)->0, target }]
    } else {
        let moves = spec_available_moves(p, p.last_used_move,
            p.volatile_statuses.spec_contains(PokemonVolatileStatus::ENCORE),
            p.volatile_statuses.spec_contains(PokemonVolatileStatus::TAUNT), false, target, 4);
        if spec_trapped(p, foe) { moves } else { spec_switch_options(side, moves) }
    }
}

/// `l`, or doing nothing if it is empty.
pub open spec fn spec_or_nothing(l: Seq<MoveChoice>) -> Seq<MoveChoice> {
    if l.len() == 0 { seq![MoveChoice::Nothing] } else { l }
}

/// The options of both sides in `state`: a side that must switch gets its
/// switches while the other gets its saved move; a side whose active Pokemon
/// fainted gets its switches while the other waits; otherwise each side gets
/// its ordinary options, or nothing if it has none.
#[verifier::opaque]
pub open spec fn spec_all_options(state: State) -> (Seq<MoveChoice>, Seq<MoveChoice>) {
    let to_two = BattlePosition { side: SideReference::SideTwo, slot: 0 };
    let to_one = BattlePosition { side: SideReference::SideOne, slot: 0 };
    let one = state.side_one;
    let two = state.side_two;
    if one.force_switch {
        (spec_switch_options(one, seq![]), spec_saved_move_options(two, to_one))
    } else if two.force_switch {
        (spec_saved_move_options(one, to_two), spec_switch_options(two, seq![]))
    } else if one.spec_active().hp <= 0 || two.spec_active().hp <= 0 {
        (if one.spec_active().hp <= 0 { spec_switch_options(one, seq![]) } else { seq![MoveChoice::Nothing] },
            if two.spec_active().hp <= 0 { spec_switch_options(two, seq![]) } else { seq![MoveChoice::Nothing] })
    } else {
        (spec_or_nothing(spec_ordinary_options(one, two.spec_active(), to_two)),
            spec_or_nothing(spec_ordinary_options(two, one.spec_active(), to_one)))
    }
}

/// Whether Pokemon `p` knows one of `moves`.
pub open spec fn spec_pokemon_knows_any(p: Pokemon, moves: Seq<Choices>) -> bool {
    exists|m: PokemonMoveIndex| moves.contains(#[trigger] p.moves.spec_get(m).id)
}

/// Whether a Pokemon of `side` knows one of `moves`.
pub open spec fn spec_side_knows_any(side: Side, moves: Seq<Choices>) -> bool {
    exists|i: PokemonIndex| spec_pokemon_knows_any(#[trigger] side.pokemon.spec_get(i), moves)
}

/// Whether a Pokemon on either side of `state` knows one of `moves`.
pub open spec fn spec_state_knows_any(state: State, moves: Seq<Choices>) -> bool {
    spec_side_knows_any(state.side_one, moves) || spec_side_knows_any(state.side_two, moves)
}

fn choices_contain(moves: &[Choices], id: Choices) -> (r: bool)
    ensures r == moves@.contains(id),
{
    let mut c: usize = 0;
    while c < moves.len()
        invariant
            c <= moves.len(),
            forall|j: int| 0 <= j < c ==> moves@[j] != id,
        decreases moves.len() - c,
    {
        if moves[c] == id {
            assert(moves@[c as int] == id);
            return true;
        }
        c = c + 1;
    }
    false
}

fn pokemon_knows_any(p: &Pokemon, moves: &[Choices]) -> (r: bool)
    ensures r == spec_pokemon_knows_any(*p, moves@),
{
    let r = choices_contain(moves, p.moves.get(PokemonMoveIndex::M0).id)
        || choices_contain(moves, p.moves.get(PokemonMoveIndex::M1).id)
        || choices_contain(moves, p.moves.get(PokemonMoveIndex::M2).id)
        || choices_contain(moves, p.moves.get(PokemonMoveIndex::M3).id);
    proof {
        if !r {
            assert forall|m: PokemonMoveIndex| !moves@.contains(#[trigger] p.moves.spec_get(m).id) by {
                match m {
                    PokemonMoveIndex::M0 => {},
                    PokemonMoveIndex::M1 => {},
                    PokemonMoveIndex::M2 => {},
                    PokemonMoveIndex::M3 => {},
                }
            }
        }
    }
    r
}

fn side_knows_any(side: &Side, moves: &[Choices]) -> (r: bool)
    ensures r == spec_side_knows_any(*side, moves@),
{
    let r = pokemon_knows_any(side.pokemon.get(PokemonIndex::P0), moves)
        || pokemon_knows_any(side.pokemon.get(PokemonIndex::P1), moves)
        || pokemon_knows_any(side.pokemon.get(PokemonIndex::P2), moves)
        || pokemon_knows_any(side.pokemon.get(PokemonIndex::P3), moves)
        || pokemon_knows_any(side.pokemon.get(PokemonIndex::P4), moves)
        || pokemon_knows_any(side.pokemon.get(PokemonIndex::P5), moves);
    proof {
        if !r {
            assert forall|i: PokemonIndex| !spec_pokemon_knows_any(#[trigger] side.pokemon.spec_get(i), moves@) by {
                match i {
                    PokemonIndex::P0 => {},
                    PokemonIndex::P1 => {},
                    PokemonIndex::P2 => {},
                    PokemonIndex::P3 => {},
                    PokemonIndex::P4 => {},
                    PokemonIndex::P5 => {},
                }
            }
        }
    }
    r
}

/// Whether any Pokemon on either side knows one of `moves`.
fn state_contains_any_move(state: &State, moves: &[Choices]) -> (r: bool)
    ensures r == spec_state_knows_any(*state, moves@),
{
    side_knows_any(&state.side_one, moves) || side_knows_any(&state.side_two, moves)
}

/// The moves that need the damage dealt in the turn to be tracked.
pub open spec fn spec_damage_dealt_moves() -> Seq<Choices> {
    seq![Choices::COUNTER, Choices::MIRRORCOAT, Choices::METALBURST, Choices::COMEUPPANCE,
        Choices::FOCUSPUNCH, Choices::AVALANCHE]
}

/// The moves that need the last used move to be tracked.
pub open spec fn spec_last_used_move_moves() -> Seq<Choices> {
    seq![Choices::ENCORE, Choices::FAKEOUT, Choices::FIRSTIMPRESSION, Choices::BLOODMOON,
        Choices::GIGATONHAMMER]
}

impl State {
    /// Turns on the tracking of damage dealt when a move that needs it is known.
    pub fn set_damage_dealt_flag(&mut self)
        ensures
            final(self).use_damage_dealt
                == (old(self).use_damage_dealt || spec_state_knows_any(*old(self), spec_damage_dealt_moves())),
            *final(self) == (State { use_damage_dealt: final(self).use_damage_dealt, ..*old(self) }),
    {
        let moves = [Choices::COUNTER, Choices::MIRRORCOAT, Choices::METALBURST, Choices::COMEUPPANCE,
            Choices::FOCUSPUNCH, Choices::AVALANCHE];
        assert(moves@ =~= spec_damage_dealt_moves());
        if state_contains_any_move(self, &moves) {
            self.use_damage_dealt = true;
        }
    }

    /// Turns on the tracking of the last used move when a move that needs it is known.
    pub fn set_last_used_move_flag(&mut self)
        ensures
            final(self).use_last_used_move
                == (old(self).use_last_used_move || spec_state_knows_any(*old(self), spec_last_used_move_moves())),
            *final(self) == (State { use_last_used_move: final(self).use_last_used_move, ..*old(self) }),
    {
        let moves = [Choices::ENCORE, Choices::FAKEOUT, Choices::FIRSTIMPRESSION, Choices::BLOODMOON,
            Choices::GIGATONHAMMER];
        assert(moves@ =~= spec_last_used_move_moves());
        if state_contains_any_move(self, &moves) {
            self.use_last_used_move = true;
        }
    }

    /// Turns on the mechanics that only some moves need.
    pub fn set_conditional_mechanics(&mut self)
        ensures
            final(self).use_damage_dealt
                == (old(self).use_damage_dealt || spec_state_knows_any(*old(self), spec_damage_dealt_moves())),
            final(self).use_last_used_move
                == (old(self).use_last_used_move || spec_state_knows_any(*old(self), spec_last_used_move_moves())),
            *final(self) == (State {
                use_damage_dealt: final(self).use_damage_dealt,
                use_last_used_move: final(self).use_last_used_move,
                ..*old(self)
            }),
    {
        let ghost s0 = *self;
        self.set_damage_dealt_flag();
        let ghost s1 = *self;
        self.set_last_used_move_flag();
        assert(s1.side_one == s0.side_one && s1.side_two == s0.side_two);
    }
}


/// The charging moves and the volatile status each leaves while it charges.
pub open spec fn spec_charge_pairs() -> Seq<(PokemonVolatileStatus, Choices)> {
    seq![
        (PokemonVolatileStatus::BOUNCE, Choices::BOUNCE),
        (PokemonVolatileStatus::DIG, Choices::DIG),
        (PokemonVolatileStatus::DIVE, Choices::DIVE),
        (PokemonVolatileStatus::FLY, Choices::FLY),
        (PokemonVolatileStatus::FREEZESHOCK, Choices::FREEZESHOCK),
        (PokemonVolatileStatus::GEOMANCY, Choices::GEOMANCY),
        (PokemonVolatileStatus::ICEBURN, Choices::ICEBURN),
        (PokemonVolatileStatus::METEORBEAM, Choices::METEORBEAM),
        (PokemonVolatileStatus::ELECTROSHOT, Choices::ELECTROSHOT),
        (PokemonVolatileStatus::PHANTOMFORCE, Choices::PHANTOMFORCE),
        (PokemonVolatileStatus::RAZORWIND, Choices::RAZORWIND),
        (PokemonVolatileStatus::SHADOWFORCE, Choices::SHADOWFORCE),
        (PokemonVolatileStatus::SKULLBASH, Choices::SKULLBASH),
        (PokemonVolatileStatus::SKYATTACK, Choices::SKYATTACK),
        (PokemonVolatileStatus::SKYDROP, Choices::SKYDROP),
        (PokemonVolatileStatus::SOLARBEAM, Choices::SOLARBEAM),
        (PokemonVolatileStatus::SOLARBLADE, Choices::SOLARBLADE),
    ]
}

/// The first slot of `p` holding move `id`, if any.
pub open spec fn spec_first_slot_with(p: Pokemon, id: Choices) -> Option<PokemonMoveIndex> {
    if p.moves.spec_get(PokemonMoveIndex::M0).id == id {
        Some(PokemonMoveIndex::M0)
    } else if p.moves.spec_get(PokemonMoveIndex::M1).id == id {
        Some(PokemonMoveIndex::M1)
    } else if p.moves.spec_get(PokemonMoveIndex::M2).id == id {
        Some(PokemonMoveIndex::M2)
    } else if p.moves.spec_get(PokemonMoveIndex::M3).id == id {
        Some(PokemonMoveIndex::M3)
    } else {
        None
    }
}

/// The move `p` is charging, looking from pair `k` of `spec_charge_pairs` on:
/// the slot of the move of the first pair whose volatile status `p` has and
/// whose move it knows.
pub open spec fn spec_charging_from(p: Pokemon, k: nat) -> Option<PokemonMoveIndex>
    decreases 17 - k,
{
    if k >= 17 {
        None
    } else {
        let (vs, id) = spec_charge_pairs()[k as int];
        if p.volatile_statuses.spec_contains(vs) && spec_first_slot_with(p, id) is Some {
            spec_first_slot_with(p, id)
        } else {
            spec_charging_from(p, k + 1)
        }
    }
}

fn first_slot_with(p: &Pokemon, id: Choices) -> (r: Option<PokemonMoveIndex>)
    ensures r == spec_first_slot_with(*p, id),
{
    if p.moves.get(PokemonMoveIndex::M0).id == id {
        Some(PokemonMoveIndex::M0)
    } else if p.moves.get(PokemonMoveIndex::M1).id == id {
        Some(PokemonMoveIndex::M1)
    } else if p.moves.get(PokemonMoveIndex::M2).id == id {
        Some(PokemonMoveIndex::M2)
    } else if p.moves.get(PokemonMoveIndex::M3).id == id {
        Some(PokemonMoveIndex::M3)
    } else {
        None
    }
}

impl Side {
    /// The slot of the move the active Pokemon is charging, if it is charging one.
    pub fn active_is_charging_move(&self) -> (r: Option<PokemonMoveIndex>)
        ensures
            r == spec_charging_from(self.spec_active(), 0),
    {
        self.active_is_charging_move_slot(0)
    }

    /// The slot of the move the active Pokemon in `slot` is charging, if any.
    pub fn active_is_charging_move_slot(&self, slot: u8) -> (r: Option<PokemonMoveIndex>)
        requires slot == 0,
        ensures
            r == spec_charging_from(self.spec_active(), 0),
    {
        let pairs = [
            (PokemonVolatileStatus::BOUNCE, Choices::BOUNCE),
            (PokemonVolatileStatus::DIG, Choices::DIG),
            (PokemonVolatileStatus::DIVE, Choices::DIVE),
            (PokemonVolatileStatus::FLY, Choices::FLY),
            (PokemonVolatileStatus::FREEZESHOCK, Choices::FREEZESHOCK),
            (PokemonVolatileStatus::GEOMANCY, Choices::GEOMANCY),
            (PokemonVolatileStatus::ICEBURN, Choices::ICEBURN),
            (PokemonVolatileStatus::METEORBEAM, Choices::METEORBEAM),
            (PokemonVolatileStatus::ELECTROSHOT, Choices::ELECTROSHOT),
            (PokemonVolatileStatus::PHANTOMFORCE, Choices::PHANTOMFORCE),
            (PokemonVolatileStatus::RAZORWIND, Choices::RAZORWIND),
            (PokemonVolatileStatus::SHADOWFORCE, Choices::SHADOWFORCE),
            (PokemonVolatileStatus::SKULLBASH, Choices::SKULLBASH),
            (PokemonVolatileStatus::SKYATTACK, Choices::SKYATTACK),
            (PokemonVolatileStatus::SKYDROP, Choices::SKYDROP),
            (PokemonVolatileStatus::SOLARBEAM, Choices::SOLARBEAM),
            (PokemonVolatileStatus::SOLARBLADE, Choices::SOLARBLADE),
        ];
        assert(pairs@ =~= spec_charge_pairs());
        let active = self.get_active_slot_immutable(slot);
        let mut k: usize = 0;
        while k < 17
            invariant
                k <= 17,
                pairs@ == spec_charge_pairs(),
                *active == self.spec_active(),
                spec_charging_from(*active, 0) == spec_charging_from(*active, k as nat),
            decreases 17 - k,
        {
            let (vs, id) = pairs[k];
            if active.volatile_statuses.contains(&vs) {
                let found = first_slot_with(active, id);
                if found.is_some() {
                    return found;
                }
            }
            k = k + 1;
        }
        None
    }
}


/// The options of the side that is not forced to switch while the other is:
/// the move it saved for after the switch, or nothing.
fn saved_move_options(side: &Side, target: BattlePosition) -> (r: Vec<MoveChoice>)
    ensures
        r@.len() > 0 || side.switch_out_move_second_saved_move != Choices::NONE,
        r@ == spec_saved_move_options(*side, target),
{
    let mut options: Vec<MoveChoice> = Vec::new();
    if side.switch_out_move_second_saved_move == Choices::NONE {
        options.push(MoveChoice::Nothing);
    } else {
        side.get_active_immutable().add_move_from_choice(&mut options, side.switch_out_move_second_saved_move, target);
    }
    options
}

/// The ordinary options of `side` against `foe`: nothing while it must
/// recharge, the move it is charging, or its selectable moves and, unless it
/// is trapped, its switches.
fn ordinary_options(side: &Side, foe: &Pokemon, target: BattlePosition) -> (r: Vec<MoveChoice>)
    ensures
        side.spec_active().volatile_statuses.spec_contains(PokemonVolatileStatus::MUSTRECHARGE)
            ==> r@ == seq![MoveChoice::Nothing],
        r@ == spec_ordinary_options(*side, *foe, target),
{
    let mut options: Vec<MoveChoice> = Vec::new();
    let active = side.get_active_immutable();
    if active.volatile_statuses.contains(&PokemonVolatileStatus::MUSTRECHARGE) {
        options.push(MoveChoice::Nothing);
    } else if let Some(mv_index) = side.active_is_charging_move() {
        options.push(MoveChoice::Move { move_index: mv_index, target });
    } else {
        let encored = active.volatile_statuses.contains(&PokemonVolatileStatus::ENCORE);
        let taunted = active.volatile_statuses.contains(&PokemonVolatileStatus::TAUNT);
        let can_tera = side.can_use_tera();
        active.add_available_moves(&mut options, &active.last_used_move, encored, taunted,
            can_tera, target);
        assert(options@ =~= spec_available_moves(*active, active.last_used_move, encored, taunted, false, target, 4));
        if !side.trapped(foe) {
            side.add_switches(&mut options);
        }
    }
    options
}

/// `l` without its switches, in order.
pub open spec fn spec_without_switches(l: Seq<MoveChoice>) -> Seq<MoveChoice>
    decreases l.len(),
{
    if l.len() == 0 {
        seq![]
    } else {
        let before = spec_without_switches(l.drop_last());
        if l.last() is Switch { before } else { before.push(l.last()) }
    }
}

/// Keeps only the options that are not switches, in their order.
fn without_switches(options: Vec<MoveChoice>) -> (r: Vec<MoveChoice>)
    ensures
        r@ == spec_without_switches(options@),
{
    let mut kept: Vec<MoveChoice> = Vec::new();
    let mut k: usize = 0;
    while k < options.len()
        invariant
            k <= options.len(),
            kept@ == spec_without_switches(options@.subrange(0, k as int)),
        decreases options.len() - k,
    {
        assert(options@.subrange(0, k as int + 1).drop_last() =~= options@.subrange(0, k as int));
        match options[k] {
            MoveChoice::Switch(_) => {},
            other => { kept.push(other); },
        }
        k = k + 1;
    }
    assert(options@.subrange(0, options@.len() as int) =~= options@);
    kept
}

/// The moves `side` may use against `target`: its selectable moves, in slot order.
pub open spec fn spec_move_only_options(side: Side, target: BattlePosition) -> Seq<MoveChoice> {
    let p = side.spec_active();
    spec_available_moves(p, p.last_used_move,
        p.volatile_statuses.spec_contains(PokemonVolatileStatus::ENCORE),
        p.volatile_statuses.spec_contains(PokemonVolatileStatus::TAUNT), false, target, 4)
}

/// The selectable moves of `side` against `target`, without its switches.
fn move_options(side: &Side, target: BattlePosition) -> (r: Vec<MoveChoice>)
    ensures r@ == spec_move_only_options(*side, target),
{
    let mut options: Vec<MoveChoice> = Vec::new();
    let active = side.get_active_immutable();
    let encored = active.volatile_statuses.contains(&PokemonVolatileStatus::ENCORE);
    let taunted = active.volatile_statuses.contains(&PokemonVolatileStatus::TAUNT);
    let can_tera = side.can_use_tera();
    active.add_available_moves(&mut options, &active.last_used_move, encored, taunted,
        can_tera, target);
    assert(options@ =~= spec_move_only_options(*side, target));
    options
}

/// The options of one side at the root of the search, from its options
/// `all`: without switches if the foe holds it in place, only its moves if it
/// is finishing a slow U-turn, and doing nothing if that leaves none.
pub open spec fn spec_root_side_options(side: Side, all: Seq<MoveChoice>, target: BattlePosition) -> Seq<MoveChoice> {
    let trapped = if side.force_trapped { spec_without_switches(all) } else { all };
    let moved = if side.slow_uturn_move { spec_move_only_options(side, target) } else { trapped };
    spec_or_nothing(moved)
}

/// The options of both sides at the root of the search: every living Pokemon
/// at team preview; otherwise `spec_all_options` as `spec_root_side_options`
/// narrows it.
pub open spec fn spec_root_options(state: State) -> (Seq<MoveChoice>, Seq<MoveChoice>) {
    if state.team_preview {
        (spec_living_switches(state.side_one, 6), spec_living_switches(state.side_two, 6))
    } else {
        let (a, b) = spec_all_options(state);
        (spec_root_side_options(state.side_one, a, BattlePosition { side: SideReference::SideTwo, slot: 0 }),
            spec_root_side_options(state.side_two, b, BattlePosition { side: SideReference::SideOne, slot: 0 }))
    }
}

/// The party index at position `k`, counting from zero.
pub open spec fn spec_index_at(k: int) -> PokemonIndex {
    if k == 0 {
        PokemonIndex::P0
    } else if k == 1 {
        PokemonIndex::P1
    } else if k == 2 {
        PokemonIndex::P2
    } else if k == 3 {
        PokemonIndex::P3
    } else if k == 4 {
        PokemonIndex::P4
    } else {
        PokemonIndex::P5
    }
}

/// The living Pokemon among the first `k` of `side`, in party order, each as a switch.
pub open spec fn spec_living_switches(side: Side, k: nat) -> Seq<MoveChoice>
    decreases k,
{
    if k == 0 {
        seq![]
    } else {
        let before = spec_living_switches(side, (k - 1) as nat);
        let i = spec_index_at(k - 1);
        if side.pokemon.spec_get(i).hp > 0 { before.push(MoveChoice::Switch(i)) } else { before }
    }
}

/// The living Pokemon of `side`, each as a switch, for team preview.
fn preview_options(side: &Side) -> (r: Vec<MoveChoice>)
    ensures r@ == spec_living_switches(*side, 6),
{
    let idx = [PokemonIndex::P0, PokemonIndex::P1, PokemonIndex::P2, PokemonIndex::P3, PokemonIndex::P4, PokemonIndex::P5];
    let mut options: Vec<MoveChoice> = Vec::new();
    let mut k: usize = 0;
    assert forall|j: int| 0 <= j < 6 implies idx@[j] == spec_index_at(j) by {
        if j == 0 {} else if j == 1 {} else if j == 2 {} else if j == 3 {} else if j == 4 {} else {}
    }
    while k < 6
        invariant
            k <= 6,
            forall|j: int| 0 <= j < 6 ==> idx@[j] == spec_index_at(j),
            options@ == spec_living_switches(*side, k as nat),
        decreases 6 - k,
    {
        assert(idx@[k as int] == spec_index_at(k as int));
        if side.pokemon.get(idx[k]).hp > 0 {
            options.push(MoveChoice::Switch(idx[k]));
        }
        k = k + 1;
    }
    options
}

impl State {
    /// The options of both sides in this state. A side that must switch gets
    /// its switches while the other gets the move it saved, or nothing; a side
    /// whose active Pokemon fainted gets its switches while the other waits;
    /// otherwise each side gets its ordinary options, or nothing if it has none.
    pub fn get_all_options(&self) -> (r: (Vec<MoveChoice>, Vec<MoveChoice>))
        ensures
            self.side_one.force_switch ==> r.0@.len() > 0
                && (r.1@.len() > 0 || self.side_two.switch_out_move_second_saved_move != Choices::NONE),
            !self.side_one.force_switch && self.side_two.force_switch ==> r.1@.len() > 0
                && (r.0@.len() > 0 || self.side_one.switch_out_move_second_saved_move != Choices::NONE),
            !self.side_one.force_switch && !self.side_two.force_switch ==> r.0@.len() > 0 && r.1@.len() > 0,
            self.side_one.force_switch ==> forall|k: int| 0 <= k < r.0@.len()
                ==> (#[trigger] r.0@[k] is Switch || r.0@[k] is Nothing),
            !self.side_one.force_switch && self.side_two.force_switch ==> forall|k: int| 0 <= k < r.1@.len()
                ==> (#[trigger] r.1@[k] is Switch || r.1@[k] is Nothing),
            r.0@ == spec_all_options(*self).0 && r.1@ == spec_all_options(*self).1,
    {
        reveal(spec_all_options);
        let to_two = BattlePosition::new(SideReference::SideTwo, 0);
        let to_one = BattlePosition::new(SideReference::SideOne, 0);
        if self.side_one.force_switch {
            let mut s1: Vec<MoveChoice> = Vec::new();
            self.side_one.add_switches(&mut s1);
            let s2 = saved_move_options(&self.side_two, to_one);
            return (s1, s2);
        }
        if self.side_two.force_switch {
            let mut s2: Vec<MoveChoice> = Vec::new();
            self.side_two.add_switches(&mut s2);
            let s1 = saved_move_options(&self.side_one, to_two);
            return (s1, s2);
        }
        let one_fainted = self.side_one.get_active_immutable().hp <= 0;
        let two_fainted = self.side_two.get_active_immutable().hp <= 0;
        if one_fainted || two_fainted {
            let mut s1: Vec<MoveChoice> = Vec::new();
            let mut s2: Vec<MoveChoice> = Vec::new();
            if one_fainted {
                self.side_one.add_switches(&mut s1);
            } else {
                s1.push(MoveChoice::Nothing);
            }
            if two_fainted {
                self.side_two.add_switches(&mut s2);
            } else {
                s2.push(MoveChoice::Nothing);
            }
            return (s1, s2);
        }
        let mut s1 = ordinary_options(&self.side_one, self.side_two.get_active_immutable(), to_two);
        let mut s2 = ordinary_options(&self.side_two, self.side_one.get_active_immutable(), to_one);
        if s1.len() == 0 {
            s1.push(MoveChoice::Nothing);
        }
        if s2.len() == 0 {
            s2.push(MoveChoice::Nothing);
        }
        (s1, s2)
    }

    /// The options at the root of the search: at team preview each side may
    /// lead with any living Pokemon; a side the foe holds in place loses its
    /// switches; a side finishing a slow U-turn may only use its moves. Past
    /// team preview, neither list is empty.
    pub fn root_get_all_options(&self) -> (r: (Vec<MoveChoice>, Vec<MoveChoice>))
        ensures
            !self.team_preview ==> r.0@.len() > 0 && r.1@.len() > 0,
            r.0@ == spec_root_options(*self).0,
            r.1@ == spec_root_options(*self).1,
    {
        if self.team_preview {
            return (preview_options(&self.side_one), preview_options(&self.side_two));
        }
        let (mut s1, mut s2) = self.get_all_options();
        if self.side_one.force_trapped {
            s1 = without_switches(s1);
        }
        if self.side_one.slow_uturn_move {
            s1 = move_options(&self.side_one, BattlePosition::new(SideReference::SideTwo, 0));
        }
        if self.side_two.force_trapped {
            s2 = without_switches(s2);
        }
        if self.side_two.slow_uturn_move {
            s2 = move_options(&self.side_two, BattlePosition::new(SideReference::SideOne, 0));
        }
        if s1.len() == 0 {
            s1.push(MoveChoice::Nothing);
        }
        if s2.len() == 0 {
            s2.push(MoveChoice::Nothing);
        }
        (s1, s2)
    }
}

} // verus!
