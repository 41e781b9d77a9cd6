//! Instructions: the single, reversible changes that a turn makes to the
//! state, and the branches of a turn (a chance and a list of instructions).

use vstd::prelude::*;
use crate::items::Items;
use crate::state::{
    lemma_bit_round_trips, lemma_index_injective,
    LastUsedMove, Move, Pokemon, SideConditions, SidePokemon, PokemonBoostableStat, PokemonIndex, PokemonMoveIndex, PokemonSideCondition,
    PokemonStatus, PokemonType, PokemonVolatileStatus, Side, SideReference, State, StateTerrain, StateTrickRoom,
    StateWeather, Terrain, VolatileStatusDurations, Weather,
};

verus! {

/// Hit points taken from the active Pokemon.
#[derive(Clone, Copy, PartialEq, Eq, Debug, Hash, Structural)]
pub struct DamageInstruction {
    pub side_ref: SideReference,
    pub slot: u8,
    pub damage_amount: i16,
}

impl DamageInstruction {
    pub fn new(side_ref: SideReference, slot: u8, damage_amount: i16) -> (r: DamageInstruction)
        ensures r == (DamageInstruction { side_ref, slot, damage_amount }),
    {
        DamageInstruction { side_ref, slot, damage_amount }
    }
}

/// Hit points given back to the active Pokemon.
#[derive(Clone, Copy, PartialEq, Eq, Debug, Hash, Structural)]
pub struct HealInstruction {
    pub side_ref: SideReference,
    pub slot: u8,
    pub heal_amount: i16,
}

impl HealInstruction {
    pub fn new(side_ref: SideReference, slot: u8, heal_amount: i16) -> (r: HealInstruction)
        ensures r == (HealInstruction { side_ref, slot, heal_amount }),
    {
        HealInstruction { side_ref, slot, heal_amount }
    }
}

/// A change to one boost of the active Pokemon.
#[derive(Clone, Copy, PartialEq, Eq, Debug, Hash, Structural)]
pub struct BoostInstruction {
    pub side_ref: SideReference,
    pub slot: u8,
    pub stat: PokemonBoostableStat,
    pub amount: i8,
}

impl BoostInstruction {
    pub fn new(side_ref: SideReference, slot: u8, stat: PokemonBoostableStat, amount: i8) -> (r: BoostInstruction)
        ensures r == (BoostInstruction { side_ref, slot, stat, amount }),
    {
        BoostInstruction { side_ref, slot, stat, amount }
    }
}

/// A change to one stat of the active Pokemon.
#[derive(Clone, Copy, PartialEq, Eq, Debug, Hash, Structural)]
pub struct ChangeStatInstruction {
    pub side_ref: SideReference,
    pub slot: u8,
    pub amount: i16,
}

impl ChangeStatInstruction {
    pub fn new(side_ref: SideReference, slot: u8, amount: i16) -> (r: ChangeStatInstruction)
        ensures r == (ChangeStatInstruction { side_ref, slot, amount }),
    {
        ChangeStatInstruction { side_ref, slot, amount }
    }
}

/// A change to the count of a side condition.
#[derive(Clone, Copy, PartialEq, Eq, Debug, Hash, Structural)]
pub struct ChangeSideConditionInstruction {
    pub side_ref: SideReference,
    pub side_condition: PokemonSideCondition,
    pub amount: i8,
}

/// The active Pokemon of a side is replaced by another of its party.
#[derive(Clone, Copy, PartialEq, Eq, Debug, Hash, Structural)]
pub struct SwitchInstruction {
    pub side_ref: SideReference,
    pub previous_index: PokemonIndex,
    pub next_index: PokemonIndex,
}

/// A Pokemon's status goes from one value to another.
#[derive(Clone, Copy, PartialEq, Eq, Debug, Hash, Structural)]
pub struct ChangeStatusInstruction {
    pub side_ref: SideReference,
    pub pokemon_index: PokemonIndex,
    pub old_status: PokemonStatus,
    pub new_status: PokemonStatus,
}

/// A Pokemon's sleep (or rest) counter goes from one value to another.
#[derive(Clone, Copy, PartialEq, Eq, Debug, Hash, Structural)]
pub struct SetSleepTurnsInstruction {
    pub side_ref: SideReference,
    pub pokemon_index: PokemonIndex,
    pub new_turns: i8,
    pub previous_turns: i8,
}

/// The active Pokemon's rest counter goes down by one.
#[derive(Clone, Copy, PartialEq, Eq, Debug, Hash, Structural)]
pub struct DecrementRestTurnsInstruction {
    pub side_ref: SideReference,
}

/// The side's wish counter goes down by one.
#[derive(Clone, Copy, PartialEq, Eq, Debug, Hash, Structural)]
pub struct DecrementWishInstruction {
    pub side_ref: SideReference,
}

/// The side's future sight counter goes down by one.
#[derive(Clone, Copy, PartialEq, Eq, Debug, Hash, Structural)]
pub struct DecrementFutureSightInstruction {
    pub side_ref: SideReference,
}

/// A volatile status is put on the active Pokemon.
#[derive(Clone, Copy, PartialEq, Eq, Debug, Hash, Structural)]
pub struct ApplyVolatileStatusInstruction {
    pub side_ref: SideReference,
    pub slot: u8,
    pub volatile_status: PokemonVolatileStatus,
}

impl ApplyVolatileStatusInstruction {
    pub fn new(side_ref: SideReference, slot: u8, volatile_status: PokemonVolatileStatus) -> (r: ApplyVolatileStatusInstruction)
        ensures r == (ApplyVolatileStatusInstruction { side_ref, slot, volatile_status }),
    {
        ApplyVolatileStatusInstruction { side_ref, slot, volatile_status }
    }
}

/// A volatile status is taken off the active Pokemon.
#[derive(Clone, Copy, PartialEq, Eq, Debug, Hash, Structural)]
pub struct RemoveVolatileStatusInstruction {
    pub side_ref: SideReference,
    pub slot: u8,
    pub volatile_status: PokemonVolatileStatus,
}

impl RemoveVolatileStatusInstruction {
    pub fn new(side_ref: SideReference, slot: u8, volatile_status: PokemonVolatileStatus) -> (r: RemoveVolatileStatusInstruction)
        ensures r == (RemoveVolatileStatusInstruction { side_ref, slot, volatile_status }),
    {
        RemoveVolatileStatusInstruction { side_ref, slot, volatile_status }
    }
}

/// The turn counter of a volatile status on the active Pokemon changes.
#[derive(Clone, Copy, PartialEq, Eq, Debug, Hash, Structural)]
pub struct ChangeVolatileStatusDurationInstruction {
    pub side_ref: SideReference,
    pub slot: u8,
    pub volatile_status: PokemonVolatileStatus,
    pub amount: i8,
}

impl ChangeVolatileStatusDurationInstruction {
    pub fn new(side_ref: SideReference, slot: u8, volatile_status: PokemonVolatileStatus, amount: i8) -> (r: ChangeVolatileStatusDurationInstruction)
        ensures r == (ChangeVolatileStatusDurationInstruction { side_ref, slot, volatile_status, amount }),
    {
        ChangeVolatileStatusDurationInstruction { side_ref, slot, volatile_status, amount }
    }
}

/// A move of the active Pokemon is enabled again, or disabled.
#[derive(Clone, Copy, PartialEq, Eq, Debug, Hash, Structural)]
pub struct EnableMoveInstruction {
    pub side_ref: SideReference,
    pub slot: u8,
    pub move_index: PokemonMoveIndex,
}

impl EnableMoveInstruction {
    pub fn new(side_ref: SideReference, slot: u8, move_index: PokemonMoveIndex) -> (r: EnableMoveInstruction)
        ensures r == (EnableMoveInstruction { side_ref, slot, move_index }),
    {
        EnableMoveInstruction { side_ref, slot, move_index }
    }
}

/// The active Pokemon's item goes from one to another.
#[derive(Clone, Copy, PartialEq, Eq, Debug, Hash, Structural)]
pub struct ChangeItemInstruction {
    pub side_ref: SideReference,
    pub slot: u8,
    pub current_item: Items,
    pub new_item: Items,
}

impl ChangeItemInstruction {
    pub fn new(side_ref: SideReference, slot: u8, current_item: Items, new_item: Items) -> (r: ChangeItemInstruction)
        ensures r == (ChangeItemInstruction { side_ref, slot, current_item, new_item }),
    {
        ChangeItemInstruction { side_ref, slot, current_item, new_item }
    }
}

/// The weather goes from one to another.
#[derive(Clone, Copy, PartialEq, Eq, Debug, Hash, Structural)]
pub struct ChangeWeather {
    pub new_weather: Weather,
    pub new_weather_turns_remaining: i8,
    pub previous_weather: Weather,
    pub previous_weather_turns_remaining: i8,
}

/// The terrain goes from one to another.
#[derive(Clone, Copy, PartialEq, Eq, Debug, Hash, Structural)]
pub struct ChangeTerrain {
    pub new_terrain: Terrain,
    pub new_terrain_turns_remaining: i8,
    pub previous_terrain: Terrain,
    pub previous_terrain_turns_remaining: i8,
}

/// Trick Room goes up or down.
#[derive(Clone, Copy, PartialEq, Eq, Debug, Hash, Structural)]
pub struct ToggleTrickRoomInstruction {
    pub currently_active: bool,
    pub new_trickroom_turns_remaining: i8,
    pub previous_trickroom_turns_remaining: i8,
}

/// The side's baton pass flag flips.
#[derive(Clone, Copy, PartialEq, Eq, Debug, Hash, Structural)]
pub struct ToggleBatonPassingInstruction {
    pub side_ref: SideReference,
}

/// The side's shed tail flag flips.
#[derive(Clone, Copy, PartialEq, Eq, Debug, Hash, Structural)]
pub struct ToggleShedTailingInstruction {
    pub side_ref: SideReference,
}

/// What the active Pokemon did last goes from one value to another.
#[derive(Clone, Copy, PartialEq, Eq, Debug, Hash, Structural)]
pub struct SetLastUsedMoveInstruction {
    pub side_ref: SideReference,
    pub slot: u8,
    pub last_used_move: LastUsedMove,
    pub previous_last_used_move: LastUsedMove,
}

impl SetLastUsedMoveInstruction {
    pub fn new(side_ref: SideReference, slot: u8, last_used_move: LastUsedMove, previous_last_used_move: LastUsedMove) -> (r: SetLastUsedMoveInstruction)
        ensures r == (SetLastUsedMoveInstruction { side_ref, slot, last_used_move, previous_last_used_move }),
    {
        SetLastUsedMoveInstruction { side_ref, slot, last_used_move, previous_last_used_move }
    }
}

/// The active Pokemon's types go from one pair to another.
#[derive(Clone, Copy, PartialEq, Eq, Debug, Hash)]
pub struct ChangeType {
    pub side_ref: SideReference,
    pub slot: u8,
    pub new_types: (PokemonType, PokemonType),
    pub old_types: (PokemonType, PokemonType),
}

impl ChangeType {
    pub fn new(side_ref: SideReference, slot: u8, new_types: (PokemonType, PokemonType), old_types: (PokemonType, PokemonType)) -> (r: ChangeType)
        ensures r == (ChangeType { side_ref, slot, new_types, old_types }),
    {
        ChangeType { side_ref, slot, new_types, old_types }
    }
}

/// One reversible change to the state.
#[derive(Clone, Copy, PartialEq, Eq, Debug, Hash)]
pub enum Instruction {
    Switch(SwitchInstruction),
    ApplyVolatileStatus(ApplyVolatileStatusInstruction),
    RemoveVolatileStatus(RemoveVolatileStatusInstruction),
    ChangeStatus(ChangeStatusInstruction),
    Heal(HealInstruction),
    Damage(DamageInstruction),
    Boost(BoostInstruction),
    ChangeSideCondition(ChangeSideConditionInstruction),
    ChangeVolatileStatusDuration(ChangeVolatileStatusDurationInstruction),
    ChangeWeather(ChangeWeather),
    DecrementWeatherTurnsRemaining,
    ChangeTerrain(ChangeTerrain),
    DecrementTerrainTurnsRemaining,
    ToggleTrickRoom(ToggleTrickRoomInstruction),
    DecrementTrickRoomTurnsRemaining,
    ChangeItem(ChangeItemInstruction),
    EnableMove(EnableMoveInstruction),
    DisableMove(EnableMoveInstruction),
    SetSleepTurns(SetSleepTurnsInstruction),
    SetRestTurns(SetSleepTurnsInstruction),
    DecrementRestTurns(DecrementRestTurnsInstruction),
    DecrementWish(DecrementWishInstruction),
    DecrementFutureSight(DecrementFutureSightInstruction),
    ToggleSideOneForceSwitch,
    ToggleSideTwoForceSwitch,
    ToggleBatonPassing(ToggleBatonPassingInstruction),
    ToggleShedTailing(ToggleShedTailingInstruction),
    SetLastUsedMove(SetLastUsedMoveInstruction),
    ChangeType(ChangeType),
    ChangeAttack(ChangeStatInstruction),
    ChangeDefense(ChangeStatInstruction),
    ChangeSpecialAttack(ChangeStatInstruction),
    ChangeSpecialDefense(ChangeStatInstruction),
    ChangeSpeed(ChangeStatInstruction),
}


impl Pokemon {
    pub open spec fn spec_boost(self, stat: PokemonBoostableStat) -> i8 {
        match stat {
            PokemonBoostableStat::Attack => self.attack_boost,
            PokemonBoostableStat::Defense => self.defense_boost,
            PokemonBoostableStat::SpecialAttack => self.special_attack_boost,
            PokemonBoostableStat::SpecialDefense => self.special_defense_boost,
            PokemonBoostableStat::Speed => self.speed_boost,
            PokemonBoostableStat::Evasion => self.evasion_boost,
            PokemonBoostableStat::Accuracy => self.accuracy_boost,
        }
    }

    pub open spec fn spec_with_boost(self, stat: PokemonBoostableStat, v: i8) -> Pokemon {
        match stat {
            PokemonBoostableStat::Attack => Pokemon { attack_boost: v, ..self },
            PokemonBoostableStat::Defense => Pokemon { defense_boost: v, ..self },
            PokemonBoostableStat::SpecialAttack => Pokemon { special_attack_boost: v, ..self },
            PokemonBoostableStat::SpecialDefense => Pokemon { special_defense_boost: v, ..self },
            PokemonBoostableStat::Speed => Pokemon { speed_boost: v, ..self },
            PokemonBoostableStat::Evasion => Pokemon { evasion_boost: v, ..self },
            PokemonBoostableStat::Accuracy => Pokemon { accuracy_boost: v, ..self },
        }
    }

    /// The turn counter kept for `vs`; statuses without a counter read as 0.
    pub open spec fn spec_duration(self, vs: PokemonVolatileStatus) -> i8 {
        match vs {
            PokemonVolatileStatus::CONFUSION => self.volatile_status_durations.confusion,
            PokemonVolatileStatus::ENCORE => self.volatile_status_durations.encore,
            PokemonVolatileStatus::LOCKEDMOVE => self.volatile_status_durations.lockedmove,
            PokemonVolatileStatus::SLOWSTART => self.volatile_status_durations.slowstart,
            PokemonVolatileStatus::TAUNT => self.volatile_status_durations.taunt,
            PokemonVolatileStatus::YAWN => self.volatile_status_durations.yawn,
            _ => 0,
        }
    }

    pub open spec fn spec_with_duration(self, vs: PokemonVolatileStatus, v: i8) -> Pokemon {
        let d = self.volatile_status_durations;
        match vs {
            PokemonVolatileStatus::CONFUSION => Pokemon { volatile_status_durations: VolatileStatusDurations { confusion: v, ..d }, ..self },
            PokemonVolatileStatus::ENCORE => Pokemon { volatile_status_durations: VolatileStatusDurations { encore: v, ..d }, ..self },
            PokemonVolatileStatus::LOCKEDMOVE => Pokemon { volatile_status_durations: VolatileStatusDurations { lockedmove: v, ..d }, ..self },
            PokemonVolatileStatus::SLOWSTART => Pokemon { volatile_status_durations: VolatileStatusDurations { slowstart: v, ..d }, ..self },
            PokemonVolatileStatus::TAUNT => Pokemon { volatile_status_durations: VolatileStatusDurations { taunt: v, ..d }, ..self },
            PokemonVolatileStatus::YAWN => Pokemon { volatile_status_durations: VolatileStatusDurations { yawn: v, ..d }, ..self },
            _ => self,
        }
    }

    /// This Pokemon with the state that goes with being active (boosts,
    /// volatile statuses and their counters) taken from `other`.
    pub open spec fn spec_with_active_state_of(self, other: Pokemon) -> Pokemon {
        Pokemon {
            attack_boost: other.attack_boost,
            defense_boost: other.defense_boost,
            special_attack_boost: other.special_attack_boost,
            special_defense_boost: other.special_defense_boost,
            speed_boost: other.speed_boost,
            accuracy_boost: other.accuracy_boost,
            evasion_boost: other.evasion_boost,
            volatile_statuses: other.volatile_statuses,
            volatile_status_durations: other.volatile_status_durations,
            ..self
        }
    }
}

impl Side {
    pub open spec fn spec_set_party(self, i: PokemonIndex, p: Pokemon) -> Side {
        Side { pokemon: self.pokemon.spec_set(i, p), ..self }
    }

    pub open spec fn spec_set_side_condition(self, c: PokemonSideCondition, v: i8) -> Side {
        Side { side_conditions: self.side_conditions.spec_set(c, v), ..self }
    }

    /// The side with the active state of Pokemon `a` and `b` exchanged.
    pub open spec fn spec_swap_active_state(self, a: PokemonIndex, b: PokemonIndex) -> Side {
        let pa = self.pokemon.spec_get(a);
        let pb = self.pokemon.spec_get(b);
        let p1 = self.pokemon.spec_set(a, pa.spec_with_active_state_of(pb));
        Side { pokemon: p1.spec_set(b, pb.spec_with_active_state_of(pa)), ..self }
    }

    pub open spec fn spec_switch(self, previous: PokemonIndex, next: PokemonIndex) -> Side {
        let swapped = self.spec_swap_active_state(previous, next);
        Side { active_index: next, ..swapped }
    }
}

pub open spec fn in_i16(x: int) -> bool {
    i16::MIN <= x <= i16::MAX
}

pub open spec fn in_i8(x: int) -> bool {
    i8::MIN <= x <= i8::MAX
}

impl State {
    pub open spec fn spec_active(self, r: SideReference) -> Pokemon {
        self.spec_side(r).spec_active()
    }

    pub open spec fn spec_with_active(self, r: SideReference, p: Pokemon) -> State {
        self.spec_set_side(r, self.spec_side(r).spec_set_active(p))
    }

    pub open spec fn spec_party(self, r: SideReference, i: PokemonIndex) -> Pokemon {
        self.spec_side(r).pokemon.spec_get(i)
    }

    pub open spec fn spec_with_party(self, r: SideReference, i: PokemonIndex, p: Pokemon) -> State {
        self.spec_set_side(r, self.spec_side(r).spec_set_party(i, p))
    }

    pub open spec fn spec_with_side_condition(self, r: SideReference, c: PokemonSideCondition, v: i8) -> State {
        self.spec_set_side(r, self.spec_side(r).spec_set_side_condition(c, v))
    }
}

/// Whether `i` can be applied to `s`: what it expects to find is there, and
/// the new values fit their types.
pub open spec fn spec_applicable(s: State, i: Instruction) -> bool {
    match i {
        Instruction::Switch(x) => spec_applicable_switch(s, x),
        Instruction::ApplyVolatileStatus(x) => spec_applicable_apply_volatile_status(s, x),
        Instruction::RemoveVolatileStatus(x) => spec_applicable_remove_volatile_status(s, x),
        Instruction::ChangeStatus(x) => spec_applicable_change_status(s, x),
        Instruction::Heal(x) => spec_applicable_heal(s, x),
        Instruction::Damage(x) => spec_applicable_damage(s, x),
        Instruction::Boost(x) => spec_applicable_boost(s, x),
        Instruction::ChangeSideCondition(x) => spec_applicable_change_side_condition(s, x),
        Instruction::ChangeVolatileStatusDuration(x) => spec_applicable_change_volatile_status_duration(s, x),
        Instruction::ChangeWeather(x) => spec_applicable_change_weather(s, x),
        Instruction::DecrementWeatherTurnsRemaining => spec_applicable_decrement_weather_turns_remaining(s),
        Instruction::ChangeTerrain(x) => spec_applicable_change_terrain(s, x),
        Instruction::DecrementTerrainTurnsRemaining => spec_applicable_decrement_terrain_turns_remaining(s),
        Instruction::ToggleTrickRoom(x) => spec_applicable_toggle_trick_room(s, x),
        Instruction::DecrementTrickRoomTurnsRemaining => spec_applicable_decrement_trick_room_turns_remaining(s),
        Instruction::ChangeItem(x) => spec_applicable_change_item(s, x),
        Instruction::EnableMove(x) => spec_applicable_enable_move(s, x),
        Instruction::DisableMove(x) => spec_applicable_disable_move(s, x),
        Instruction::SetSleepTurns(x) => spec_applicable_set_sleep_turns(s, x),
        Instruction::SetRestTurns(x) => spec_applicable_set_rest_turns(s, x),
        Instruction::DecrementRestTurns(x) => spec_applicable_decrement_rest_turns(s, x),
        Instruction::DecrementWish(x) => spec_applicable_decrement_wish(s, x),
        Instruction::DecrementFutureSight(x) => spec_applicable_decrement_future_sight(s, x),
        Instruction::ToggleSideOneForceSwitch => spec_applicable_toggle_side_one_force_switch(s),
        Instruction::ToggleSideTwoForceSwitch => spec_applicable_toggle_side_two_force_switch(s),
        Instruction::ToggleBatonPassing(x) => spec_applicable_toggle_baton_passing(s, x),
        Instruction::ToggleShedTailing(x) => spec_applicable_toggle_shed_tailing(s, x),
        Instruction::SetLastUsedMove(x) => spec_applicable_set_last_used_move(s, x),
        Instruction::ChangeType(x) => spec_applicable_change_type(s, x),
        Instruction::ChangeAttack(x) => spec_applicable_change_attack(s, x),
        Instruction::ChangeDefense(x) => spec_applicable_change_defense(s, x),
        Instruction::ChangeSpecialAttack(x) => spec_applicable_change_special_attack(s, x),
        Instruction::ChangeSpecialDefense(x) => spec_applicable_change_special_defense(s, x),
        Instruction::ChangeSpeed(x) => spec_applicable_change_speed(s, x),
    }
}

/// The state after `i`.
pub open spec fn spec_apply(s: State, i: Instruction) -> State {
    match i {
        Instruction::Switch(x) => spec_apply_switch(s, x),
        Instruction::ApplyVolatileStatus(x) => spec_apply_apply_volatile_status(s, x),
        Instruction::RemoveVolatileStatus(x) => spec_apply_remove_volatile_status(s, x),
        Instruction::ChangeStatus(x) => spec_apply_change_status(s, x),
        Instruction::Heal(x) => spec_apply_heal(s, x),
        Instruction::Damage(x) => spec_apply_damage(s, x),
        Instruction::Boost(x) => spec_apply_boost(s, x),
        Instruction::ChangeSideCondition(x) => spec_apply_change_side_condition(s, x),
        Instruction::ChangeVolatileStatusDuration(x) => spec_apply_change_volatile_status_duration(s, x),
        Instruction::ChangeWeather(x) => spec_apply_change_weather(s, x),
        Instruction::DecrementWeatherTurnsRemaining => spec_apply_decrement_weather_turns_remaining(s),
        Instruction::ChangeTerrain(x) => spec_apply_change_terrain(s, x),
        Instruction::DecrementTerrainTurnsRemaining => spec_apply_decrement_terrain_turns_remaining(s),
        Instruction::ToggleTrickRoom(x) => spec_apply_toggle_trick_room(s, x),
        Instruction::DecrementTrickRoomTurnsRemaining => spec_apply_decrement_trick_room_turns_remaining(s),
        Instruction::ChangeItem(x) => spec_apply_change_item(s, x),
        Instruction::EnableMove(x) => spec_apply_enable_move(s, x),
        Instruction::DisableMove(x) => spec_apply_disable_move(s, x),
        Instruction::SetSleepTurns(x) => spec_apply_set_sleep_turns(s, x),
        Instruction::SetRestTurns(x) => spec_apply_set_rest_turns(s, x),
        Instruction::DecrementRestTurns(x) => spec_apply_decrement_rest_turns(s, x),
        Instruction::DecrementWish(x) => spec_apply_decrement_wish(s, x),
        Instruction::DecrementFutureSight(x) => spec_apply_decrement_future_sight(s, x),
        Instruction::ToggleSideOneForceSwitch => spec_apply_toggle_side_one_force_switch(s),
        Instruction::ToggleSideTwoForceSwitch => spec_apply_toggle_side_two_force_switch(s),
        Instruction::ToggleBatonPassing(x) => spec_apply_toggle_baton_passing(s, x),
        Instruction::ToggleShedTailing(x) => spec_apply_toggle_shed_tailing(s, x),
        Instruction::SetLastUsedMove(x) => spec_apply_set_last_used_move(s, x),
        Instruction::ChangeType(x) => spec_apply_change_type(s, x),
        Instruction::ChangeAttack(x) => spec_apply_change_attack(s, x),
        Instruction::ChangeDefense(x) => spec_apply_change_defense(s, x),
        Instruction::ChangeSpecialAttack(x) => spec_apply_change_special_attack(s, x),
        Instruction::ChangeSpecialDefense(x) => spec_apply_change_special_defense(s, x),
        Instruction::ChangeSpeed(x) => spec_apply_change_speed(s, x),
    }
}


/// Whether `i` can be undone on `s`: what it left behind is there, and the
/// old values fit their types.
pub open spec fn spec_reversible(s: State, i: Instruction) -> bool {
    match i {
        Instruction::Switch(x) => spec_reversible_switch(s, x),
        Instruction::ApplyVolatileStatus(x) => spec_reversible_apply_volatile_status(s, x),
        Instruction::RemoveVolatileStatus(x) => spec_reversible_remove_volatile_status(s, x),
        Instruction::ChangeStatus(x) => spec_reversible_change_status(s, x),
        Instruction::Heal(x) => spec_reversible_heal(s, x),
        Instruction::Damage(x) => spec_reversible_damage(s, x),
        Instruction::Boost(x) => spec_reversible_boost(s, x),
        Instruction::ChangeSideCondition(x) => spec_reversible_change_side_condition(s, x),
        Instruction::ChangeVolatileStatusDuration(x) => spec_reversible_change_volatile_status_duration(s, x),
        Instruction::ChangeWeather(x) => spec_reversible_change_weather(s, x),
        Instruction::DecrementWeatherTurnsRemaining => spec_reversible_decrement_weather_turns_remaining(s),
        Instruction::ChangeTerrain(x) => spec_reversible_change_terrain(s, x),
        Instruction::DecrementTerrainTurnsRemaining => spec_reversible_decrement_terrain_turns_remaining(s),
        Instruction::ToggleTrickRoom(x) => spec_reversible_toggle_trick_room(s, x),
        Instruction::DecrementTrickRoomTurnsRemaining => spec_reversible_decrement_trick_room_turns_remaining(s),
        Instruction::ChangeItem(x) => spec_reversible_change_item(s, x),
        Instruction::EnableMove(x) => spec_reversible_enable_move(s, x),
        Instruction::DisableMove(x) => spec_reversible_disable_move(s, x),
        Instruction::SetSleepTurns(x) => spec_reversible_set_sleep_turns(s, x),
        Instruction::SetRestTurns(x) => spec_reversible_set_rest_turns(s, x),
        Instruction::DecrementRestTurns(x) => spec_reversible_decrement_rest_turns(s, x),
        Instruction::DecrementWish(x) => spec_reversible_decrement_wish(s, x),
        Instruction::DecrementFutureSight(x) => spec_reversible_decrement_future_sight(s, x),
        Instruction::ToggleSideOneForceSwitch => spec_reversible_toggle_side_one_force_switch(s),
        Instruction::ToggleSideTwoForceSwitch => spec_reversible_toggle_side_two_force_switch(s),
        Instruction::ToggleBatonPassing(x) => spec_reversible_toggle_baton_passing(s, x),
        Instruction::ToggleShedTailing(x) => spec_reversible_toggle_shed_tailing(s, x),
        Instruction::SetLastUsedMove(x) => spec_reversible_set_last_used_move(s, x),
        Instruction::ChangeType(x) => spec_reversible_change_type(s, x),
        Instruction::ChangeAttack(x) => spec_reversible_change_attack(s, x),
        Instruction::ChangeDefense(x) => spec_reversible_change_defense(s, x),
        Instruction::ChangeSpecialAttack(x) => spec_reversible_change_special_attack(s, x),
        Instruction::ChangeSpecialDefense(x) => spec_reversible_change_special_defense(s, x),
        Instruction::ChangeSpeed(x) => spec_reversible_change_speed(s, x),
    }
}

/// The state before `i`, given the state after it.
pub open spec fn spec_reverse(s: State, i: Instruction) -> State {
    match i {
        Instruction::Switch(x) => spec_reverse_switch(s, x),
        Instruction::ApplyVolatileStatus(x) => spec_reverse_apply_volatile_status(s, x),
        Instruction::RemoveVolatileStatus(x) => spec_reverse_remove_volatile_status(s, x),
        Instruction::ChangeStatus(x) => spec_reverse_change_status(s, x),
        Instruction::Heal(x) => spec_reverse_heal(s, x),
        Instruction::Damage(x) => spec_reverse_damage(s, x),
        Instruction::Boost(x) => spec_reverse_boost(s, x),
        Instruction::ChangeSideCondition(x) => spec_reverse_change_side_condition(s, x),
        Instruction::ChangeVolatileStatusDuration(x) => spec_reverse_change_volatile_status_duration(s, x),
        Instruction::ChangeWeather(x) => spec_reverse_change_weather(s, x),
        Instruction::DecrementWeatherTurnsRemaining => spec_reverse_decrement_weather_turns_remaining(s),
        Instruction::ChangeTerrain(x) => spec_reverse_change_terrain(s, x),
        Instruction::DecrementTerrainTurnsRemaining => spec_reverse_decrement_terrain_turns_remaining(s),
        Instruction::ToggleTrickRoom(x) => spec_reverse_toggle_trick_room(s, x),
        Instruction::DecrementTrickRoomTurnsRemaining => spec_reverse_decrement_trick_room_turns_remaining(s),
        Instruction::ChangeItem(x) => spec_reverse_change_item(s, x),
        Instruction::EnableMove(x) => spec_reverse_enable_move(s, x),
        Instruction::DisableMove(x) => spec_reverse_disable_move(s, x),
        Instruction::SetSleepTurns(x) => spec_reverse_set_sleep_turns(s, x),
        Instruction::SetRestTurns(x) => spec_reverse_set_rest_turns(s, x),
        Instruction::DecrementRestTurns(x) => spec_reverse_decrement_rest_turns(s, x),
        Instruction::DecrementWish(x) => spec_reverse_decrement_wish(s, x),
        Instruction::DecrementFutureSight(x) => spec_reverse_decrement_future_sight(s, x),
        Instruction::ToggleSideOneForceSwitch => spec_reverse_toggle_side_one_force_switch(s),
        Instruction::ToggleSideTwoForceSwitch => spec_reverse_toggle_side_two_force_switch(s),
        Instruction::ToggleBatonPassing(x) => spec_reverse_toggle_baton_passing(s, x),
        Instruction::ToggleShedTailing(x) => spec_reverse_toggle_shed_tailing(s, x),
        Instruction::SetLastUsedMove(x) => spec_reverse_set_last_used_move(s, x),
        Instruction::ChangeType(x) => spec_reverse_change_type(s, x),
        Instruction::ChangeAttack(x) => spec_reverse_change_attack(s, x),
        Instruction::ChangeDefense(x) => spec_reverse_change_defense(s, x),
        Instruction::ChangeSpecialAttack(x) => spec_reverse_change_special_attack(s, x),
        Instruction::ChangeSpecialDefense(x) => spec_reverse_change_special_defense(s, x),
        Instruction::ChangeSpeed(x) => spec_reverse_change_speed(s, x),
    }
}

#[verifier::opaque]
pub open spec fn spec_applicable_switch(s: State, x: SwitchInstruction) -> bool {
    s.spec_side(x.side_ref).spec_active_index() == x.previous_index
}

#[verifier::opaque]
pub open spec fn spec_applicable_apply_volatile_status(s: State, x: ApplyVolatileStatusInstruction) -> bool {
    !s.spec_active(x.side_ref).volatile_statuses.spec_contains(x.volatile_status)
}

#[verifier::opaque]
pub open spec fn spec_applicable_remove_volatile_status(s: State, x: RemoveVolatileStatusInstruction) -> bool {
    s.spec_active(x.side_ref).volatile_statuses.spec_contains(x.volatile_status)
}

#[verifier::opaque]
pub open spec fn spec_applicable_change_status(s: State, x: ChangeStatusInstruction) -> bool {
    s.spec_party(x.side_ref, x.pokemon_index).status == x.old_status
}

#[verifier::opaque]
pub open spec fn spec_applicable_heal(s: State, x: HealInstruction) -> bool {
    in_i16(s.spec_active(x.side_ref).hp + x.heal_amount)
}

#[verifier::opaque]
pub open spec fn spec_applicable_damage(s: State, x: DamageInstruction) -> bool {
    in_i16(s.spec_active(x.side_ref).hp - x.damage_amount)
}

#[verifier::opaque]
pub open spec fn spec_applicable_boost(s: State, x: BoostInstruction) -> bool {
    in_i8(s.spec_active(x.side_ref).spec_boost(x.stat) + x.amount)
}

#[verifier::opaque]
pub open spec fn spec_applicable_change_side_condition(s: State, x: ChangeSideConditionInstruction) -> bool {
    in_i8(s.spec_side(x.side_ref).side_conditions.spec_get(x.side_condition) + x.amount)
}

#[verifier::opaque]
pub open spec fn spec_applicable_change_volatile_status_duration(s: State, x: ChangeVolatileStatusDurationInstruction) -> bool {
    in_i8(s.spec_active(x.side_ref).spec_duration(x.volatile_status) + x.amount) && x.amount > i8::MIN
}

#[verifier::opaque]
pub open spec fn spec_applicable_change_weather(s: State, x: ChangeWeather) -> bool {
    s.weather.weather_type == x.previous_weather && s.weather.turns_remaining == x.previous_weather_turns_remaining
}

#[verifier::opaque]
pub open spec fn spec_applicable_decrement_weather_turns_remaining(s: State) -> bool {
    in_i8(s.weather.turns_remaining - 1)
}

#[verifier::opaque]
pub open spec fn spec_applicable_change_terrain(s: State, x: ChangeTerrain) -> bool {
    s.terrain.terrain_type == x.previous_terrain && s.terrain.turns_remaining == x.previous_terrain_turns_remaining
}

#[verifier::opaque]
pub open spec fn spec_applicable_decrement_terrain_turns_remaining(s: State) -> bool {
    in_i8(s.terrain.turns_remaining - 1)
}

#[verifier::opaque]
pub open spec fn spec_applicable_toggle_trick_room(s: State, x: ToggleTrickRoomInstruction) -> bool {
    s.trick_room.active == x.currently_active && s.trick_room.turns_remaining == x.previous_trickroom_turns_remaining
}

#[verifier::opaque]
pub open spec fn spec_applicable_decrement_trick_room_turns_remaining(s: State) -> bool {
    in_i8(s.trick_room.turns_remaining - 1)
}

#[verifier::opaque]
pub open spec fn spec_applicable_change_item(s: State, x: ChangeItemInstruction) -> bool {
    s.spec_active(x.side_ref).item == x.current_item
}

#[verifier::opaque]
pub open spec fn spec_applicable_enable_move(s: State, x: EnableMoveInstruction) -> bool {
    s.spec_active(x.side_ref).moves.spec_get(x.move_index).disabled
}

#[verifier::opaque]
pub open spec fn spec_applicable_disable_move(s: State, x: EnableMoveInstruction) -> bool {
    !s.spec_active(x.side_ref).moves.spec_get(x.move_index).disabled
}

#[verifier::opaque]
pub open spec fn spec_applicable_set_sleep_turns(s: State, x: SetSleepTurnsInstruction) -> bool {
    s.spec_party(x.side_ref, x.pokemon_index).sleep_turns == x.previous_turns
}

#[verifier::opaque]
pub open spec fn spec_applicable_set_rest_turns(s: State, x: SetSleepTurnsInstruction) -> bool {
    s.spec_party(x.side_ref, x.pokemon_index).rest_turns == x.previous_turns
}

#[verifier::opaque]
pub open spec fn spec_applicable_decrement_rest_turns(s: State, x: DecrementRestTurnsInstruction) -> bool {
    in_i8(s.spec_active(x.side_ref).rest_turns - 1)
}

#[verifier::opaque]
pub open spec fn spec_applicable_decrement_wish(s: State, x: DecrementWishInstruction) -> bool {
    in_i8(s.spec_side(x.side_ref).wish.0 - 1)
}

#[verifier::opaque]
pub open spec fn spec_applicable_decrement_future_sight(s: State, x: DecrementFutureSightInstruction) -> bool {
    in_i8(s.spec_side(x.side_ref).future_sight.0 - 1)
}

#[verifier::opaque]
pub open spec fn spec_applicable_toggle_side_one_force_switch(s: State) -> bool {
    true
}

#[verifier::opaque]
pub open spec fn spec_applicable_toggle_side_two_force_switch(s: State) -> bool {
    true
}

#[verifier::opaque]
pub open spec fn spec_applicable_toggle_baton_passing(s: State, x: ToggleBatonPassingInstruction) -> bool {
    true
}

#[verifier::opaque]
pub open spec fn spec_applicable_toggle_shed_tailing(s: State, x: ToggleShedTailingInstruction) -> bool {
    true
}

#[verifier::opaque]
pub open spec fn spec_applicable_set_last_used_move(s: State, x: SetLastUsedMoveInstruction) -> bool {
    s.spec_active(x.side_ref).last_used_move == x.previous_last_used_move
}

#[verifier::opaque]
pub open spec fn spec_applicable_change_type(s: State, x: ChangeType) -> bool {
    s.spec_active(x.side_ref).types == x.old_types
}

#[verifier::opaque]
pub open spec fn spec_applicable_change_attack(s: State, x: ChangeStatInstruction) -> bool {
    in_i16(s.spec_active(x.side_ref).attack + x.amount)
}

#[verifier::opaque]
pub open spec fn spec_applicable_change_defense(s: State, x: ChangeStatInstruction) -> bool {
    in_i16(s.spec_active(x.side_ref).defense + x.amount)
}

#[verifier::opaque]
pub open spec fn spec_applicable_change_special_attack(s: State, x: ChangeStatInstruction) -> bool {
    in_i16(s.spec_active(x.side_ref).special_attack + x.amount)
}

#[verifier::opaque]
pub open spec fn spec_applicable_change_special_defense(s: State, x: ChangeStatInstruction) -> bool {
    in_i16(s.spec_active(x.side_ref).special_defense + x.amount)
}

#[verifier::opaque]
pub open spec fn spec_applicable_change_speed(s: State, x: ChangeStatInstruction) -> bool {
    in_i16(s.spec_active(x.side_ref).speed + x.amount)
}

#[verifier::opaque]
pub open spec fn spec_apply_switch(s: State, x: SwitchInstruction) -> State {
    s.spec_set_side(x.side_ref, s.spec_side(x.side_ref).spec_switch(x.previous_index, x.next_index))
}

#[verifier::opaque]
pub open spec fn spec_apply_apply_volatile_status(s: State, x: ApplyVolatileStatusInstruction) -> State {
    let p = s.spec_active(x.side_ref);
    s.spec_with_active(x.side_ref, Pokemon { volatile_statuses: p.volatile_statuses.spec_insert(x.volatile_status), ..p })
}

#[verifier::opaque]
pub open spec fn spec_apply_remove_volatile_status(s: State, x: RemoveVolatileStatusInstruction) -> State {
    let p = s.spec_active(x.side_ref);
    s.spec_with_active(x.side_ref, Pokemon { volatile_statuses: p.volatile_statuses.spec_remove(x.volatile_status), ..p })
}

#[verifier::opaque]
pub open spec fn spec_apply_change_status(s: State, x: ChangeStatusInstruction) -> State {
    let p = s.spec_party(x.side_ref, x.pokemon_index);
    s.spec_with_party(x.side_ref, x.pokemon_index, Pokemon { status: x.new_status, ..p })
}

#[verifier::opaque]
pub open spec fn spec_apply_heal(s: State, x: HealInstruction) -> State {
    let p = s.spec_active(x.side_ref);
    s.spec_with_active(x.side_ref, Pokemon { hp: (p.hp + x.heal_amount) as i16, ..p })
}

#[verifier::opaque]
pub open spec fn spec_apply_damage(s: State, x: DamageInstruction) -> State {
    let p = s.spec_active(x.side_ref);
    s.spec_with_active(x.side_ref, Pokemon { hp: (p.hp - x.damage_amount) as i16, ..p })
}

#[verifier::opaque]
pub open spec fn spec_apply_boost(s: State, x: BoostInstruction) -> State {
    let p = s.spec_active(x.side_ref);
    s.spec_with_active(x.side_ref, p.spec_with_boost(x.stat, (p.spec_boost(x.stat) + x.amount) as i8))
}

#[verifier::opaque]
pub open spec fn spec_apply_change_side_condition(s: State, x: ChangeSideConditionInstruction) -> State {
    let v = s.spec_side(x.side_ref).side_conditions.spec_get(x.side_condition);
    s.spec_with_side_condition(x.side_ref, x.side_condition, (v + x.amount) as i8)
}

#[verifier::opaque]
pub open spec fn spec_apply_change_volatile_status_duration(s: State, x: ChangeVolatileStatusDurationInstruction) -> State {
    let p = s.spec_active(x.side_ref);
    s.spec_with_active(x.side_ref, p.spec_with_duration(x.volatile_status, (p.spec_duration(x.volatile_status) + x.amount) as i8))
}

#[verifier::opaque]
pub open spec fn spec_apply_change_weather(s: State, x: ChangeWeather) -> State {
    State {
    weather: StateWeather { weather_type: x.new_weather, turns_remaining: x.new_weather_turns_remaining },
    ..s
}
}

#[verifier::opaque]
pub open spec fn spec_apply_decrement_weather_turns_remaining(s: State) -> State {
    State {
    weather: StateWeather { turns_remaining: (s.weather.turns_remaining - 1) as i8, ..s.weather },
    ..s
}
}

#[verifier::opaque]
pub open spec fn spec_apply_change_terrain(s: State, x: ChangeTerrain) -> State {
    State {
    terrain: StateTerrain { terrain_type: x.new_terrain, turns_remaining: x.new_terrain_turns_remaining },
    ..s
}
}

#[verifier::opaque]
pub open spec fn spec_apply_decrement_terrain_turns_remaining(s: State) -> State {
    State {
    terrain: StateTerrain { turns_remaining: (s.terrain.turns_remaining - 1) as i8, ..s.terrain },
    ..s
}
}

#[verifier::opaque]
pub open spec fn spec_apply_toggle_trick_room(s: State, x: ToggleTrickRoomInstruction) -> State {
    State {
    trick_room: StateTrickRoom { active: !x.currently_active, turns_remaining: x.new_trickroom_turns_remaining },
    ..s
}
}

#[verifier::opaque]
pub open spec fn spec_apply_decrement_trick_room_turns_remaining(s: State) -> State {
    State {
    trick_room: StateTrickRoom { turns_remaining: (s.trick_room.turns_remaining - 1) as i8, ..s.trick_room },
    ..s
}
}

#[verifier::opaque]
pub open spec fn spec_apply_change_item(s: State, x: ChangeItemInstruction) -> State {
    let p = s.spec_active(x.side_ref);
    s.spec_with_active(x.side_ref, Pokemon { item: x.new_item, ..p })
}

#[verifier::opaque]
pub open spec fn spec_apply_enable_move(s: State, x: EnableMoveInstruction) -> State {
    let p = s.spec_active(x.side_ref);
    let m = p.moves.spec_get(x.move_index);
    s.spec_with_active(x.side_ref, Pokemon { moves: p.moves.spec_set(x.move_index, Move { disabled: false, ..m }), ..p })
}

#[verifier::opaque]
pub open spec fn spec_apply_disable_move(s: State, x: EnableMoveInstruction) -> State {
    let p = s.spec_active(x.side_ref);
    let m = p.moves.spec_get(x.move_index);
    s.spec_with_active(x.side_ref, Pokemon { moves: p.moves.spec_set(x.move_index, Move { disabled: true, ..m }), ..p })
}

#[verifier::opaque]
pub open spec fn spec_apply_set_sleep_turns(s: State, x: SetSleepTurnsInstruction) -> State {
    let p = s.spec_party(x.side_ref, x.pokemon_index);
    s.spec_with_party(x.side_ref, x.pokemon_index, Pokemon { sleep_turns: x.new_turns, ..p })
}

#[verifier::opaque]
pub open spec fn spec_apply_set_rest_turns(s: State, x: SetSleepTurnsInstruction) -> State {
    let p = s.spec_party(x.side_ref, x.pokemon_index);
    s.spec_with_party(x.side_ref, x.pokemon_index, Pokemon { rest_turns: x.new_turns, ..p })
}

#[verifier::opaque]
pub open spec fn spec_apply_decrement_rest_turns(s: State, x: DecrementRestTurnsInstruction) -> State {
    let p = s.spec_active(x.side_ref);
    s.spec_with_active(x.side_ref, Pokemon { rest_turns: (p.rest_turns - 1) as i8, ..p })
}

#[verifier::opaque]
pub open spec fn spec_apply_decrement_wish(s: State, x: DecrementWishInstruction) -> State {
    let side = s.spec_side(x.side_ref);
    s.spec_set_side(x.side_ref, Side { wish: ((side.wish.0 - 1) as i8, side.wish.1), ..side })
}

#[verifier::opaque]
pub open spec fn spec_apply_decrement_future_sight(s: State, x: DecrementFutureSightInstruction) -> State {
    let side = s.spec_side(x.side_ref);
    s.spec_set_side(x.side_ref, Side { future_sight: ((side.future_sight.0 - 1) as i8, side.future_sight.1), ..side })
}

#[verifier::opaque]
pub open spec fn spec_apply_toggle_side_one_force_switch(s: State) -> State {
    State {
    side_one: Side { force_switch: !s.side_one.force_switch, ..s.side_one },
    ..s
}
}

#[verifier::opaque]
pub open spec fn spec_apply_toggle_side_two_force_switch(s: State) -> State {
    State {
    side_two: Side { force_switch: !s.side_two.force_switch, ..s.side_two },
    ..s
}
}

#[verifier::opaque]
pub open spec fn spec_apply_toggle_baton_passing(s: State, x: ToggleBatonPassingInstruction) -> State {
    let side = s.spec_side(x.side_ref);
    s.spec_set_side(x.side_ref, Side { baton_passing: !side.baton_passing, ..side })
}

#[verifier::opaque]
pub open spec fn spec_apply_toggle_shed_tailing(s: State, x: ToggleShedTailingInstruction) -> State {
    let side = s.spec_side(x.side_ref);
    s.spec_set_side(x.side_ref, Side { shed_tailing: !side.shed_tailing, ..side })
}

#[verifier::opaque]
pub open spec fn spec_apply_set_last_used_move(s: State, x: SetLastUsedMoveInstruction) -> State {
    let p = s.spec_active(x.side_ref);
    s.spec_with_active(x.side_ref, Pokemon { last_used_move: x.last_used_move, ..p })
}

#[verifier::opaque]
pub open spec fn spec_apply_change_type(s: State, x: ChangeType) -> State {
    let p = s.spec_active(x.side_ref);
    s.spec_with_active(x.side_ref, Pokemon { types: x.new_types, ..p })
}

#[verifier::opaque]
pub open spec fn spec_apply_change_attack(s: State, x: ChangeStatInstruction) -> State {
    let p = s.spec_active(x.side_ref);
    s.spec_with_active(x.side_ref, Pokemon { attack: (p.attack + x.amount) as i16, ..p })
}

#[verifier::opaque]
pub open spec fn spec_apply_change_defense(s: State, x: ChangeStatInstruction) -> State {
    let p = s.spec_active(x.side_ref);
    s.spec_with_active(x.side_ref, Pokemon { defense: (p.defense + x.amount) as i16, ..p })
}

#[verifier::opaque]
pub open spec fn spec_apply_change_special_attack(s: State, x: ChangeStatInstruction) -> State {
    let p = s.spec_active(x.side_ref);
    s.spec_with_active(x.side_ref, Pokemon { special_attack: (p.special_attack + x.amount) as i16, ..p })
}

#[verifier::opaque]
pub open spec fn spec_apply_change_special_defense(s: State, x: ChangeStatInstruction) -> State {
    let p = s.spec_active(x.side_ref);
    s.spec_with_active(x.side_ref, Pokemon { special_defense: (p.special_defense + x.amount) as i16, ..p })
}

#[verifier::opaque]
pub open spec fn spec_apply_change_speed(s: State, x: ChangeStatInstruction) -> State {
    let p = s.spec_active(x.side_ref);
    s.spec_with_active(x.side_ref, Pokemon { speed: (p.speed + x.amount) as i16, ..p })
}

#[verifier::opaque]
pub open spec fn spec_reversible_switch(s: State, x: SwitchInstruction) -> bool {
    s.spec_side(x.side_ref).spec_active_index() == x.next_index
}

#[verifier::opaque]
pub open spec fn spec_reversible_apply_volatile_status(s: State, x: ApplyVolatileStatusInstruction) -> bool {
    s.spec_active(x.side_ref).volatile_statuses.spec_contains(x.volatile_status)
}

#[verifier::opaque]
pub open spec fn spec_reversible_remove_volatile_status(s: State, x: RemoveVolatileStatusInstruction) -> bool {
    !s.spec_active(x.side_ref).volatile_statuses.spec_contains(x.volatile_status)
}

#[verifier::opaque]
pub open spec fn spec_reversible_change_status(s: State, x: ChangeStatusInstruction) -> bool {
    s.spec_party(x.side_ref, x.pokemon_index).status == x.new_status
}

#[verifier::opaque]
pub open spec fn spec_reversible_heal(s: State, x: HealInstruction) -> bool {
    in_i16(s.spec_active(x.side_ref).hp - x.heal_amount)
}

#[verifier::opaque]
pub open spec fn spec_reversible_damage(s: State, x: DamageInstruction) -> bool {
    in_i16(s.spec_active(x.side_ref).hp + x.damage_amount)
}

#[verifier::opaque]
pub open spec fn spec_reversible_boost(s: State, x: BoostInstruction) -> bool {
    in_i8(s.spec_active(x.side_ref).spec_boost(x.stat) - x.amount)
}

#[verifier::opaque]
pub open spec fn spec_reversible_change_side_condition(s: State, x: ChangeSideConditionInstruction) -> bool {
    in_i8(s.spec_side(x.side_ref).side_conditions.spec_get(x.side_condition) - x.amount)
}

#[verifier::opaque]
pub open spec fn spec_reversible_change_volatile_status_duration(s: State, x: ChangeVolatileStatusDurationInstruction) -> bool {
    in_i8(s.spec_active(x.side_ref).spec_duration(x.volatile_status) - x.amount)
}

#[verifier::opaque]
pub open spec fn spec_reversible_change_weather(s: State, x: ChangeWeather) -> bool {
    s.weather.weather_type == x.new_weather && s.weather.turns_remaining == x.new_weather_turns_remaining
}

#[verifier::opaque]
pub open spec fn spec_reversible_decrement_weather_turns_remaining(s: State) -> bool {
    in_i8(s.weather.turns_remaining + 1)
}

#[verifier::opaque]
pub open spec fn spec_reversible_change_terrain(s: State, x: ChangeTerrain) -> bool {
    s.terrain.terrain_type == x.new_terrain && s.terrain.turns_remaining == x.new_terrain_turns_remaining
}

#[verifier::opaque]
pub open spec fn spec_reversible_decrement_terrain_turns_remaining(s: State) -> bool {
    in_i8(s.terrain.turns_remaining + 1)
}

#[verifier::opaque]
pub open spec fn spec_reversible_toggle_trick_room(s: State, x: ToggleTrickRoomInstruction) -> bool {
    s.trick_room.active == !x.currently_active && s.trick_room.turns_remaining == x.new_trickroom_turns_remaining
}

#[verifier::opaque]
pub open spec fn spec_reversible_decrement_trick_room_turns_remaining(s: State) -> bool {
    in_i8(s.trick_room.turns_remaining + 1)
}

#[verifier::opaque]
pub open spec fn spec_reversible_change_item(s: State, x: ChangeItemInstruction) -> bool {
    s.spec_active(x.side_ref).item == x.new_item
}

#[verifier::opaque]
pub open spec fn spec_reversible_enable_move(s: State, x: EnableMoveInstruction) -> bool {
    !s.spec_active(x.side_ref).moves.spec_get(x.move_index).disabled
}

#[verifier::opaque]
pub open spec fn spec_reversible_disable_move(s: State, x: EnableMoveInstruction) -> bool {
    s.spec_active(x.side_ref).moves.spec_get(x.move_index).disabled
}

#[verifier::opaque]
pub open spec fn spec_reversible_set_sleep_turns(s: State, x: SetSleepTurnsInstruction) -> bool {
    s.spec_party(x.side_ref, x.pokemon_index).sleep_turns == x.new_turns
}

#[verifier::opaque]
pub open spec fn spec_reversible_set_rest_turns(s: State, x: SetSleepTurnsInstruction) -> bool {
    s.spec_party(x.side_ref, x.pokemon_index).rest_turns == x.new_turns
}

#[verifier::opaque]
pub open spec fn spec_reversible_decrement_rest_turns(s: State, x: DecrementRestTurnsInstruction) -> bool {
    in_i8(s.spec_active(x.side_ref).rest_turns + 1)
}

#[verifier::opaque]
pub open spec fn spec_reversible_decrement_wish(s: State, x: DecrementWishInstruction) -> bool {
    in_i8(s.spec_side(x.side_ref).wish.0 + 1)
}

#[verifier::opaque]
pub open spec fn spec_reversible_decrement_future_sight(s: State, x: DecrementFutureSightInstruction) -> bool {
    in_i8(s.spec_side(x.side_ref).future_sight.0 + 1)
}

#[verifier::opaque]
pub open spec fn spec_reversible_toggle_side_one_force_switch(s: State) -> bool {
    true
}

#[verifier::opaque]
pub open spec fn spec_reversible_toggle_side_two_force_switch(s: State) -> bool {
    true
}

#[verifier::opaque]
pub open spec fn spec_reversible_toggle_baton_passing(s: State, x: ToggleBatonPassingInstruction) -> bool {
    true
}

#[verifier::opaque]
pub open spec fn spec_reversible_toggle_shed_tailing(s: State, x: ToggleShedTailingInstruction) -> bool {
    true
}

#[verifier::opaque]
pub open spec fn spec_reversible_set_last_used_move(s: State, x: SetLastUsedMoveInstruction) -> bool {
    s.spec_active(x.side_ref).last_used_move == x.last_used_move
}

#[verifier::opaque]
pub open spec fn spec_reversible_change_type(s: State, x: ChangeType) -> bool {
    s.spec_active(x.side_ref).types == x.new_types
}

#[verifier::opaque]
pub open spec fn spec_reversible_change_attack(s: State, x: ChangeStatInstruction) -> bool {
    in_i16(s.spec_active(x.side_ref).attack - x.amount)
}

#[verifier::opaque]
pub open spec fn spec_reversible_change_defense(s: State, x: ChangeStatInstruction) -> bool {
    in_i16(s.spec_active(x.side_ref).defense - x.amount)
}

#[verifier::opaque]
pub open spec fn spec_reversible_change_special_attack(s: State, x: ChangeStatInstruction) -> bool {
    in_i16(s.spec_active(x.side_ref).special_attack - x.amount)
}

#[verifier::opaque]
pub open spec fn spec_reversible_change_special_defense(s: State, x: ChangeStatInstruction) -> bool {
    in_i16(s.spec_active(x.side_ref).special_defense - x.amount)
}

#[verifier::opaque]
pub open spec fn spec_reversible_change_speed(s: State, x: ChangeStatInstruction) -> bool {
    in_i16(s.spec_active(x.side_ref).speed - x.amount)
}

#[verifier::opaque]
pub open spec fn spec_reverse_switch(s: State, x: SwitchInstruction) -> State {
    let side = s.spec_side(x.side_ref);
    let back = Side { active_index: x.previous_index, ..side };
    s.spec_set_side(x.side_ref, back.spec_swap_active_state(x.previous_index, x.next_index))
}

#[verifier::opaque]
pub open spec fn spec_reverse_apply_volatile_status(s: State, x: ApplyVolatileStatusInstruction) -> State {
    let p = s.spec_active(x.side_ref);
    s.spec_with_active(x.side_ref, Pokemon { volatile_statuses: p.volatile_statuses.spec_remove(x.volatile_status), ..p })
}

#[verifier::opaque]
pub open spec fn spec_reverse_remove_volatile_status(s: State, x: RemoveVolatileStatusInstruction) -> State {
    let p = s.spec_active(x.side_ref);
    s.spec_with_active(x.side_ref, Pokemon { volatile_statuses: p.volatile_statuses.spec_insert(x.volatile_status), ..p })
}

#[verifier::opaque]
pub open spec fn spec_reverse_change_status(s: State, x: ChangeStatusInstruction) -> State {
    let p = s.spec_party(x.side_ref, x.pokemon_index);
    s.spec_with_party(x.side_ref, x.pokemon_index, Pokemon { status: x.old_status, ..p })
}

#[verifier::opaque]
pub open spec fn spec_reverse_heal(s: State, x: HealInstruction) -> State {
    let p = s.spec_active(x.side_ref);
    s.spec_with_active(x.side_ref, Pokemon { hp: (p.hp - x.heal_amount) as i16, ..p })
}

#[verifier::opaque]
pub open spec fn spec_reverse_damage(s: State, x: DamageInstruction) -> State {
    let p = s.spec_active(x.side_ref);
    s.spec_with_active(x.side_ref, Pokemon { hp: (p.hp + x.damage_amount) as i16, ..p })
}

#[verifier::opaque]
pub open spec fn spec_reverse_boost(s: State, x: BoostInstruction) -> State {
    let p = s.spec_active(x.side_ref);
    s.spec_with_active(x.side_ref, p.spec_with_boost(x.stat, (p.spec_boost(x.stat) - x.amount) as i8))
}

#[verifier::opaque]
pub open spec fn spec_reverse_change_side_condition(s: State, x: ChangeSideConditionInstruction) -> State {
    let v = s.spec_side(x.side_ref).side_conditions.spec_get(x.side_condition);
    s.spec_with_side_condition(x.side_ref, x.side_condition, (v - x.amount) as i8)
}

#[verifier::opaque]
pub open spec fn spec_reverse_change_volatile_status_duration(s: State, x: ChangeVolatileStatusDurationInstruction) -> State {
    let p = s.spec_active(x.side_ref);
    s.spec_with_active(x.side_ref, p.spec_with_duration(x.volatile_status, (p.spec_duration(x.volatile_status) - x.amount) as i8))
}

#[verifier::opaque]
pub open spec fn spec_reverse_change_weather(s: State, x: ChangeWeather) -> State {
    State {
    weather: StateWeather { weather_type: x.previous_weather, turns_remaining: x.previous_weather_turns_remaining },
    ..s
}
}

#[verifier::opaque]
pub open spec fn spec_reverse_decrement_weather_turns_remaining(s: State) -> State {
    State {
    weather: StateWeather { turns_remaining: (s.weather.turns_remaining + 1) as i8, ..s.weather },
    ..s
}
}

#[verifier::opaque]
pub open spec fn spec_reverse_change_terrain(s: State, x: ChangeTerrain) -> State {
    State {
    terrain: StateTerrain { terrain_type: x.previous_terrain, turns_remaining: x.previous_terrain_turns_remaining },
    ..s
}
}

#[verifier::opaque]
pub open spec fn spec_reverse_decrement_terrain_turns_remaining(s: State) -> State {
    State {
    terrain: StateTerrain { turns_remaining: (s.terrain.turns_remaining + 1) as i8, ..s.terrain },
    ..s
}
}

#[verifier::opaque]
pub open spec fn spec_reverse_toggle_trick_room(s: State, x: ToggleTrickRoomInstruction) -> State {
    State {
    trick_room: StateTrickRoom { active: x.currently_active, turns_remaining: x.previous_trickroom_turns_remaining },
    ..s
}
}

#[verifier::opaque]
pub open spec fn spec_reverse_decrement_trick_room_turns_remaining(s: State) -> State {
    State {
    trick_room: StateTrickRoom { turns_remaining: (s.trick_room.turns_remaining + 1) as i8, ..s.trick_room },
    ..s
}
}

#[verifier::opaque]
pub open spec fn spec_reverse_change_item(s: State, x: ChangeItemInstruction) -> State {
    let p = s.spec_active(x.side_ref);
    s.spec_with_active(x.side_ref, Pokemon { item: x.current_item, ..p })
}

#[verifier::opaque]
pub open spec fn spec_reverse_enable_move(s: State, x: EnableMoveInstruction) -> State {
    let p = s.spec_active(x.side_ref);
    let m = p.moves.spec_get(x.move_index);
    s.spec_with_active(x.side_ref, Pokemon { moves: p.moves.spec_set(x.move_index, Move { disabled: true, ..m }), ..p })
}

#[verifier::opaque]
pub open spec fn spec_reverse_disable_move(s: State, x: EnableMoveInstruction) -> State {
    let p = s.spec_active(x.side_ref);
    let m = p.moves.spec_get(x.move_index);
    s.spec_with_active(x.side_ref, Pokemon { moves: p.moves.spec_set(x.move_index, Move { disabled: false, ..m }), ..p })
}

#[verifier::opaque]
pub open spec fn spec_reverse_set_sleep_turns(s: State, x: SetSleepTurnsInstruction) -> State {
    let p = s.spec_party(x.side_ref, x.pokemon_index);
    s.spec_with_party(x.side_ref, x.pokemon_index, Pokemon { sleep_turns: x.previous_turns, ..p })
}

#[verifier::opaque]
pub open spec fn spec_reverse_set_rest_turns(s: State, x: SetSleepTurnsInstruction) -> State {
    let p = s.spec_party(x.side_ref, x.pokemon_index);
    s.spec_with_party(x.side_ref, x.pokemon_index, Pokemon { rest_turns: x.previous_turns, ..p })
}

#[verifier::opaque]
pub open spec fn spec_reverse_decrement_rest_turns(s: State, x: DecrementRestTurnsInstruction) -> State {
    let p = s.spec_active(x.side_ref);
    s.spec_with_active(x.side_ref, Pokemon { rest_turns: (p.rest_turns + 1) as i8, ..p })
}

#[verifier::opaque]
pub open spec fn spec_reverse_decrement_wish(s: State, x: DecrementWishInstruction) -> State {
    let side = s.spec_side(x.side_ref);
    s.spec_set_side(x.side_ref, Side { wish: ((side.wish.0 + 1) as i8, side.wish.1), ..side })
}

#[verifier::opaque]
pub open spec fn spec_reverse_decrement_future_sight(s: State, x: DecrementFutureSightInstruction) -> State {
    let side = s.spec_side(x.side_ref);
    s.spec_set_side(x.side_ref, Side { future_sight: ((side.future_sight.0 + 1) as i8, side.future_sight.1), ..side })
}

#[verifier::opaque]
pub open spec fn spec_reverse_toggle_side_one_force_switch(s: State) -> State {
    State {
    side_one: Side { force_switch: !s.side_one.force_switch, ..s.side_one },
    ..s
}
}

#[verifier::opaque]
pub open spec fn spec_reverse_toggle_side_two_force_switch(s: State) -> State {
    State {
    side_two: Side { force_switch: !s.side_two.force_switch, ..s.side_two },
    ..s
}
}

#[verifier::opaque]
pub open spec fn spec_reverse_toggle_baton_passing(s: State, x: ToggleBatonPassingInstruction) -> State {
    let side = s.spec_side(x.side_ref);
    s.spec_set_side(x.side_ref, Side { baton_passing: !side.baton_passing, ..side })
}

#[verifier::opaque]
pub open spec fn spec_reverse_toggle_shed_tailing(s: State, x: ToggleShedTailingInstruction) -> State {
    let side = s.spec_side(x.side_ref);
    s.spec_set_side(x.side_ref, Side { shed_tailing: !side.shed_tailing, ..side })
}

#[verifier::opaque]
pub open spec fn spec_reverse_set_last_used_move(s: State, x: SetLastUsedMoveInstruction) -> State {
    let p = s.spec_active(x.side_ref);
    s.spec_with_active(x.side_ref, Pokemon { last_used_move: x.previous_last_used_move, ..p })
}

#[verifier::opaque]
pub open spec fn spec_reverse_change_type(s: State, x: ChangeType) -> State {
    let p = s.spec_active(x.side_ref);
    s.spec_with_active(x.side_ref, Pokemon { types: x.old_types, ..p })
}

#[verifier::opaque]
pub open spec fn spec_reverse_change_attack(s: State, x: ChangeStatInstruction) -> State {
    let p = s.spec_active(x.side_ref);
    s.spec_with_active(x.side_ref, Pokemon { attack: (p.attack - x.amount) as i16, ..p })
}

#[verifier::opaque]
pub open spec fn spec_reverse_change_defense(s: State, x: ChangeStatInstruction) -> State {
    let p = s.spec_active(x.side_ref);
    s.spec_with_active(x.side_ref, Pokemon { defense: (p.defense - x.amount) as i16, ..p })
}

#[verifier::opaque]
pub open spec fn spec_reverse_change_special_attack(s: State, x: ChangeStatInstruction) -> State {
    let p = s.spec_active(x.side_ref);
    s.spec_with_active(x.side_ref, Pokemon { special_attack: (p.special_attack - x.amount) as i16, ..p })
}

#[verifier::opaque]
pub open spec fn spec_reverse_change_special_defense(s: State, x: ChangeStatInstruction) -> State {
    let p = s.spec_active(x.side_ref);
    s.spec_with_active(x.side_ref, Pokemon { special_defense: (p.special_defense - x.amount) as i16, ..p })
}

#[verifier::opaque]
pub open spec fn spec_reverse_change_speed(s: State, x: ChangeStatInstruction) -> State {
    let p = s.spec_active(x.side_ref);
    s.spec_with_active(x.side_ref, Pokemon { speed: (p.speed - x.amount) as i16, ..p })
}

/// A chance, in percent, kept as an exact fraction `numerator / denominator`.
#[derive(Clone, Copy, PartialEq, Eq, Debug, Hash, Structural)]
pub struct Percentage {
    pub numerator: u64,
    pub denominator: u64,
}

/// `(n, d)` with both halved, a zero denominator read as one, until both fit a
/// `u64`.
#[verifier::opaque]
pub open spec fn spec_halve_to_fit(n: nat, d: nat) -> (nat, nat)
    decreases n + d,
{
    if n <= u64::MAX && d <= u64::MAX {
        (n, d)
    } else {
        let d2: nat = if d / 2 == 0 { 1 } else { d / 2 };
        spec_halve_to_fit(n / 2, d2)
    }
}

impl Percentage {
    /// The chance times `num / den`: the exact fraction while its parts fit a
    /// `u64`, otherwise that fraction with both parts halved until they do.
    pub open spec fn spec_scaled(self, num: u64, den: u64) -> Percentage {
        let (n, d) = spec_halve_to_fit((self.numerator * num) as nat, (self.denominator * den) as nat);
        Percentage { numerator: n as u64, denominator: d as u64 }
    }

    /// Scales the chance by `num / den`. The fraction is exact while its parts fit
    /// a `u64`; past that both parts are halved until they do, which keeps the
    /// value to within a rounding error.
    pub fn scaled(&self, num: u64, den: u64) -> (r: Percentage)
        ensures
            r == self.spec_scaled(num, den),
            self.numerator * num <= u64::MAX && self.denominator * den <= u64::MAX
                ==> r.numerator == self.numerator * num && r.denominator == self.denominator * den,
    {
        let a: u128 = self.numerator as u128;
        let b: u128 = num as u128;
        let c: u128 = self.denominator as u128;
        let e: u128 = den as u128;
        proof {
            assert(a * b <= 0xffff_ffff_ffff_ffffu128 * 0xffff_ffff_ffff_ffffu128) by (nonlinear_arith)
                requires a <= 0xffff_ffff_ffff_ffffu128, b <= 0xffff_ffff_ffff_ffffu128;
            assert(c * e <= 0xffff_ffff_ffff_ffffu128 * 0xffff_ffff_ffff_ffffu128) by (nonlinear_arith)
                requires c <= 0xffff_ffff_ffff_ffffu128, e <= 0xffff_ffff_ffff_ffffu128;
        }
        let mut n: u128 = a * b;
        let mut d: u128 = c * e;
        proof {
            reveal(spec_halve_to_fit);
        }
        let ghost target = spec_halve_to_fit(n as nat, d as nat);
        while n > 0xffff_ffff_ffff_ffffu128 || d > 0xffff_ffff_ffff_ffffu128
            invariant
                spec_halve_to_fit(n as nat, d as nat) == target,
            decreases n + d,
        {
            proof {
                reveal(spec_halve_to_fit);
            }
            n = n / 2;
            d = d / 2;
            if d == 0 {
                d = 1;
            }
        }
        proof {
            reveal(spec_halve_to_fit);
        }
        Percentage { numerator: n as u64, denominator: d as u64 }
    }
}

/// One branch of a turn: how likely it is, and the instructions it makes.
#[derive(Clone, Debug, PartialEq)]
pub struct StateInstructions {
    pub percentage: Percentage,
    pub instruction_list: Vec<Instruction>,
}

/// Every instruction of `before` stands, in its place, at the start of `after`.
pub open spec fn spec_extends(before: Seq<Instruction>, after: Seq<Instruction>) -> bool {
    &&& before.len() <= after.len()
    &&& forall|k: int| 0 <= k < before.len() ==> #[trigger] after[k] == before[k]
}

/// `after` is `before` with instructions added at the end and the same chance.
pub open spec fn spec_grows(before: StateInstructions, after: StateInstructions) -> bool {
    spec_extends(before.instruction_list@, after.instruction_list@) && after.percentage == before.percentage
}

/// A part of a turn taken from state `s0` with branch `i0` to state `s1`
/// with branch `i1`, as `t` gives it: `s1` is the state `t` leaves, and `i1`
/// is `i0` with the instructions of `t` appended, with the same chance.
pub open spec fn spec_step(s0: State, i0: StateInstructions, s1: State, i1: StateInstructions,
    t: (State, Seq<Instruction>)) -> bool
{
    &&& s1 == t.0
    &&& i1.instruction_list@ == i0.instruction_list@ + t.1
    &&& i1.percentage == i0.percentage
}

/// Part `t1` of a turn followed by part `t2`, taken from the state `t1` leaves.
pub open spec fn spec_then(t1: (State, Seq<Instruction>), t2: (State, Seq<Instruction>)) -> (State, Seq<Instruction>) {
    (t2.0, t1.1 + t2.1)
}

impl StateInstructions {
    pub open spec fn spec_default_percentage() -> Percentage {
        Percentage { numerator: 100, denominator: 1 }
    }

    /// An empty branch that happens for certain.
    pub fn new() -> (r: StateInstructions)
        ensures
            r.percentage == Self::spec_default_percentage(),
            r.instruction_list@ == Seq::<Instruction>::empty(),
    {
        StateInstructions { percentage: Percentage { numerator: 100, denominator: 1 }, instruction_list: Vec::new() }
    }

    /// Scales the chance of this branch by `num / den`.
    pub fn update_percentage(&mut self, num: u64, den: u64)
        ensures
            final(self).percentage == old(self).percentage.spec_scaled(num, den),
            final(self).instruction_list@ == old(self).instruction_list@,
    {
        self.percentage = self.percentage.scaled(num, den);
    }

    /// A copy of this branch, instruction for instruction.
    pub fn duplicate(&self) -> (r: StateInstructions)
        ensures
            r.percentage == self.percentage,
            r.instruction_list@ == self.instruction_list@,
    {
        let mut list: Vec<Instruction> = Vec::new();
        let mut k: usize = 0;
        while k < self.instruction_list.len()
            invariant
                k <= self.instruction_list.len(),
                list@ == self.instruction_list@.subrange(0, k as int),
            decreases self.instruction_list.len() - k,
        {
            list.push(self.instruction_list[k]);
            k = k + 1;
            assert(list@ =~= self.instruction_list@.subrange(0, k as int));
        }
        assert(list@ =~= self.instruction_list@);
        StateInstructions { percentage: self.percentage, instruction_list: list }
    }

    /// Adds `i` at the end of the branch.
    pub fn push(&mut self, i: Instruction)
        ensures
            final(self).instruction_list@ == old(self).instruction_list@.push(i),
            final(self).percentage == old(self).percentage,
    {
        self.instruction_list.push(i);
    }
}

impl Default for StateInstructions {
    fn default() -> (r: StateInstructions)
        ensures
            r.percentage == StateInstructions::spec_default_percentage(),
            r.instruction_list@ == Seq::<Instruction>::empty(),
    {
        StateInstructions::new()
    }
}

} // verus!
