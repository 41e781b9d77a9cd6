//! Reading and writing the boosts, turn counters and active-state fields of
//! Pokemon, as the instructions do.

use vstd::prelude::*;
use crate::state::{Pokemon, PokemonBoostableStat, PokemonIndex, PokemonVolatileStatus, Side};

verus! {

impl Pokemon {
    pub fn get_boost(&self, stat: PokemonBoostableStat) -> (r: i8)
        ensures r == self.spec_boost(stat),
    {
        match stat {
            PokemonBoostableStat::Attack => self.attack_boost,
            PokemonBoostableStat::Defense => self.defense_boost,
            PokemonBoostableStat::SpecialAttack => self.special_attack_boost,
            PokemonBoostableStat::SpecialDefense => self.special_defense_boost,
            PokemonBoostableStat::Speed => self.speed_boost,
            PokemonBoostableStat::Evasion => self.evasion_boost,
            PokemonBoostableStat::Accuracy => self.accuracy_boost,
        }
    }

    pub fn set_boost(&mut self, stat: PokemonBoostableStat, v: i8)
        ensures *final(self) == old(self).spec_with_boost(stat, v),
    {
        match stat {
            PokemonBoostableStat::Attack => self.attack_boost = v,
            PokemonBoostableStat::Defense => self.defense_boost = v,
            PokemonBoostableStat::SpecialAttack => self.special_attack_boost = v,
            PokemonBoostableStat::SpecialDefense => self.special_defense_boost = v,
            PokemonBoostableStat::Speed => self.speed_boost = v,
            PokemonBoostableStat::Evasion => self.evasion_boost = v,
            PokemonBoostableStat::Accuracy => self.accuracy_boost = v,
        }
    }

    pub fn get_duration(&self, vs: PokemonVolatileStatus) -> (r: i8)
        ensures r == self.spec_duration(vs),
    {
        match vs {
            PokemonVolatileStatus::CONFUSION => self.volatile_status_durations.confusion,
            PokemonVolatileStatus::ENCORE => self.volatile_status_durations.encore,
            PokemonVolatileStatus::LOCKEDMOVE => self.volatile_status_durations.lockedmove,
            PokemonVolatileStatus::SLOWSTART => self.volatile_status_durations.slowstart,
            PokemonVolatileStatus::TAUNT => self.volatile_status_durations.taunt,
            PokemonVolatileStatus::YAWN => self.volatile_status_durations.yawn,
            _ => 0,
        }
    }

    pub fn set_duration(&mut self, vs: PokemonVolatileStatus, v: i8)
        ensures *final(self) == old(self).spec_with_duration(vs, v),
    {
        match vs {
            PokemonVolatileStatus::CONFUSION => self.volatile_status_durations.confusion = v,
            PokemonVolatileStatus::ENCORE => self.volatile_status_durations.encore = v,
            PokemonVolatileStatus::LOCKEDMOVE => self.volatile_status_durations.lockedmove = v,
            PokemonVolatileStatus::SLOWSTART => self.volatile_status_durations.slowstart = v,
            PokemonVolatileStatus::TAUNT => self.volatile_status_durations.taunt = v,
            PokemonVolatileStatus::YAWN => self.volatile_status_durations.yawn = v,
            _ => {},
        }
    }

    pub fn with_boost(&self, stat: PokemonBoostableStat, v: i8) -> (r: Pokemon)
        ensures r == self.spec_with_boost(stat, v),
    {
        let mut p = *self;
        p.set_boost(stat, v);
        p
    }

    pub fn with_duration(&self, vs: PokemonVolatileStatus, v: i8) -> (r: Pokemon)
        ensures r == self.spec_with_duration(vs, v),
    {
        let mut p = *self;
        p.set_duration(vs, v);
        p
    }

    pub fn with_active_state_of(&self, other: &Pokemon) -> (r: Pokemon)
        ensures r == self.spec_with_active_state_of(*other),
    {
        Pokemon {
            attack_boost: other.attack_boost,
            defense_boost: other.defense_boost,
            special_attack_boost: other.special_attack_boost,
            special_defense_boost: other.special_defense_boost,
            speed_boost: other.speed_boost,
            accuracy_boost: other.accuracy_boost,
            evasion_boost: other.evasion_boost,
            volatile_statuses: other.volatile_statuses,
            volatile_status_durations: other.volatile_status_durations,
            ..*self
        }
    }
}

impl Side {
    /// Exchanges what Pokemon `a` and `b` carry as the active Pokemon.
    pub fn swap_active_state(&mut self, a: PokemonIndex, b: PokemonIndex)
        ensures *final(self) == old(self).spec_swap_active_state(a, b),
    {
        let pa = *self.pokemon.get(a);
        let pb = *self.pokemon.get(b);
        let na = pa.with_active_state_of(&pb);
        let nb = pb.with_active_state_of(&pa);
        *self.pokemon.get_mut(a) = na;
        *self.pokemon.get_mut(b) = nb;
    }
}

} // verus!
