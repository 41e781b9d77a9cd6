//! What a Pokemon, a side or the field is: types, grounding, held items,
//! boosted stats, and the weather and terrain in force.

use vstd::prelude::*;
use crate::abilities::Abilities;
use crate::items::Items;
use crate::pokemon::PokemonName;
use crate::state::{
    Pokemon, PokemonBoostableStat, PokemonIndex, PokemonStatus, PokemonType, PokemonVolatileStatus, Side,
    State, Terrain, VolatileStatusBitset, Weather,
};

verus! {

/// Integer division that rounds toward zero, as Rust's `/` does.
pub open spec fn trunc_div(a: int, d: int) -> int {
    if a >= 0 { a / d } else { -((-a) / d) }
}

/// The factor `(numerator, denominator)` that a boost stage puts on a stat.
pub open spec fn boost_factor(boost: i8) -> (int, int) {
    if boost >= 0 { (2 + boost as int, 2) } else { (2, 2 - boost as int) }
}

/// `stat_value` under `boost_num` stages: `stat_value * numerator / denominator`.
pub open spec fn spec_multiply_boost(boost_num: i8, stat_value: i16) -> int {
    let (n, d) = boost_factor(boost_num);
    trunc_div(stat_value * n, d)
}

/// Whether the product that the boost computes first fits an `i16`.
pub open spec fn boost_fits(boost_num: i8, stat_value: i16) -> bool {
    let (n, d) = boost_factor(boost_num);
    -6 <= boost_num <= 6 && i16::MIN <= stat_value * n <= i16::MAX
}

/// A stat under a number of boost stages, from -6 to 6.
pub fn multiply_boost(boost_num: i8, stat_value: i16) -> (r: i16)
    requires
        boost_fits(boost_num, stat_value),
    ensures
        r == spec_multiply_boost(boost_num, stat_value),
{
    let (n, d): (i32, i32) = if boost_num >= 0 { (2 + boost_num as i32, 2) } else { (2, 2 - boost_num as i32) };
    let prod: i32 = stat_value as i32 * n;
    let q: i32 = if prod >= 0 { prod / d } else { -((-prod) / d) };
    proof {
        assert(0 <= (if prod >= 0 { prod as int } else { -prod as int }) / (d as int) <= (if prod >= 0 { prod as int } else { -prod as int })) by (nonlinear_arith)
            requires d >= 1;
    }
    q as i16
}

impl Pokemon {
    pub open spec fn spec_has_type(self, t: PokemonType) -> bool {
        t == self.types.0 || t == self.types.1
    }

    pub fn has_type(&self, pkmn_type: &PokemonType) -> (r: bool)
        ensures r == self.spec_has_type(*pkmn_type),
    {
        *pkmn_type == self.types.0 || *pkmn_type == self.types.1
    }

    pub open spec fn spec_is_grounded(self) -> bool {
        self.item == Items::IRONBALL || !(self.spec_has_type(PokemonType::FLYING)
            || self.ability == Abilities::LEVITATE || self.item == Items::AIRBALLOON)
    }

    /// On the ground: not Flying, not levitating, no balloon; an iron ball grounds anyone.
    pub fn is_grounded(&self) -> (r: bool)
        ensures r == self.spec_is_grounded(),
    {
        if self.item == Items::IRONBALL {
            return true;
        }
        if self.has_type(&PokemonType::FLYING) || self.ability == Abilities::LEVITATE
            || self.item == Items::AIRBALLOON {
            return false;
        }
        true
    }

    pub open spec fn spec_item_is_permanent(self) -> bool {
        match self.item {
            Items::LUSTROUSGLOBE => self.id == PokemonName::PALKIAORIGIN,
            Items::GRISEOUSCORE => self.id == PokemonName::GIRATINAORIGIN,
            Items::ADAMANTCRYSTAL => self.id == PokemonName::DIALGAORIGIN,
            Items::RUSTEDSWORD => self.id == PokemonName::ZACIANCROWNED || self.id == PokemonName::ZACIAN,
            Items::RUSTEDSHIELD => self.id == PokemonName::ZAMAZENTACROWNED || self.id == PokemonName::ZAMAZENTA,
            Items::SPLASHPLATE => self.id == PokemonName::ARCEUSWATER,
            Items::TOXICPLATE => self.id == PokemonName::ARCEUSPOISON,
            Items::EARTHPLATE => self.id == PokemonName::ARCEUSGROUND,
            Items::STONEPLATE => self.id == PokemonName::ARCEUSROCK,
            Items::INSECTPLATE => self.id == PokemonName::ARCEUSBUG,
            Items::SPOOKYPLATE => self.id == PokemonName::ARCEUSGHOST,
            Items::IRONPLATE => self.id == PokemonName::ARCEUSSTEEL,
            Items::FLAMEPLATE => self.id == PokemonName::ARCEUSFIRE,
            Items::MEADOWPLATE => self.id == PokemonName::ARCEUSGRASS,
            Items::ZAPPLATE => self.id == PokemonName::ARCEUSELECTRIC,
            Items::MINDPLATE => self.id == PokemonName::ARCEUSPSYCHIC,
            Items::ICICLEPLATE => self.id == PokemonName::ARCEUSICE,
            Items::DRACOPLATE => self.id == PokemonName::ARCEUSDRAGON,
            Items::DREADPLATE => self.id == PokemonName::ARCEUSDARK,
            Items::FISTPLATE => self.id == PokemonName::ARCEUSFIGHTING,
            Items::BLANKPLATE => self.id == PokemonName::ARCEUS,
            Items::SKYPLATE => self.id == PokemonName::ARCEUSFLYING,
            Items::PIXIEPLATE => self.id == PokemonName::ARCEUSFAIRY,
            Items::BUGMEMORY => self.id == PokemonName::SILVALLYBUG,
            Items::FIGHTINGMEMORY => self.id == PokemonName::SILVALLYFIGHTING,
            Items::GHOSTMEMORY => self.id == PokemonName::SILVALLYGHOST,
            Items::PSYCHICMEMORY => self.id == PokemonName::SILVALLYPSYCHIC,
            Items::FLYINGMEMORY => self.id == PokemonName::SILVALLYFLYING,
            Items::STEELMEMORY => self.id == PokemonName::SILVALLYSTEEL,
            Items::ICEMEMORY => self.id == PokemonName::SILVALLYICE,
            Items::POISONMEMORY => self.id == PokemonName::SILVALLYPOISON,
            Items::FIREMEMORY => self.id == PokemonName::SILVALLYFIRE,
            Items::DRAGONMEMORY => self.id == PokemonName::SILVALLYDRAGON,
            Items::GROUNDMEMORY => self.id == PokemonName::SILVALLYGROUND,
            Items::WATERMEMORY => self.id == PokemonName::SILVALLYWATER,
            Items::DARKMEMORY => self.id == PokemonName::SILVALLYDARK,
            Items::ROCKMEMORY => self.id == PokemonName::SILVALLYROCK,
            Items::GRASSMEMORY => self.id == PokemonName::SILVALLYGRASS,
            Items::FAIRYMEMORY => self.id == PokemonName::SILVALLYFAIRY,
            Items::ELECTRICMEMORY => self.id == PokemonName::SILVALLYELECTRIC,
            Items::CORNERSTONEMASK => self.id == PokemonName::OGERPONCORNERSTONE || self.id == PokemonName::OGERPONCORNERSTONETERA,
            Items::HEARTHFLAMEMASK => self.id == PokemonName::OGERPONHEARTHFLAME || self.id == PokemonName::OGERPONHEARTHFLAMETERA,
            Items::WELLSPRINGMASK => self.id == PokemonName::OGERPONWELLSPRING || self.id == PokemonName::OGERPONWELLSPRINGTERA,

            _ => false,
        }
    }

    /// Whether the held item belongs to this form for good (a plate, a memory, a mask...).
    pub fn item_is_permanent(&self) -> (r: bool)
        ensures r == self.spec_item_is_permanent(),
    {
        match self.item {
            Items::LUSTROUSGLOBE => self.id == PokemonName::PALKIAORIGIN,
            Items::GRISEOUSCORE => self.id == PokemonName::GIRATINAORIGIN,
            Items::ADAMANTCRYSTAL => self.id == PokemonName::DIALGAORIGIN,
            Items::RUSTEDSWORD => self.id == PokemonName::ZACIANCROWNED || self.id == PokemonName::ZACIAN,
            Items::RUSTEDSHIELD => self.id == PokemonName::ZAMAZENTACROWNED || self.id == PokemonName::ZAMAZENTA,
            Items::SPLASHPLATE => self.id == PokemonName::ARCEUSWATER,
            Items::TOXICPLATE => self.id == PokemonName::ARCEUSPOISON,
            Items::EARTHPLATE => self.id == PokemonName::ARCEUSGROUND,
            Items::STONEPLATE => self.id == PokemonName::ARCEUSROCK,
            Items::INSECTPLATE => self.id == PokemonName::ARCEUSBUG,
            Items::SPOOKYPLATE => self.id == PokemonName::ARCEUSGHOST,
            Items::IRONPLATE => self.id == PokemonName::ARCEUSSTEEL,
            Items::FLAMEPLATE => self.id == PokemonName::ARCEUSFIRE,
            Items::MEADOWPLATE => self.id == PokemonName::ARCEUSGRASS,
            Items::ZAPPLATE => self.id == PokemonName::ARCEUSELECTRIC,
            Items::MINDPLATE => self.id == PokemonName::ARCEUSPSYCHIC,
            Items::ICICLEPLATE => self.id == PokemonName::ARCEUSICE,
            Items::DRACOPLATE => self.id == PokemonName::ARCEUSDRAGON,
            Items::DREADPLATE => self.id == PokemonName::ARCEUSDARK,
            Items::FISTPLATE => self.id == PokemonName::ARCEUSFIGHTING,
            Items::BLANKPLATE => self.id == PokemonName::ARCEUS,
            Items::SKYPLATE => self.id == PokemonName::ARCEUSFLYING,
            Items::PIXIEPLATE => self.id == PokemonName::ARCEUSFAIRY,
            Items::BUGMEMORY => self.id == PokemonName::SILVALLYBUG,
            Items::FIGHTINGMEMORY => self.id == PokemonName::SILVALLYFIGHTING,
            Items::GHOSTMEMORY => self.id == PokemonName::SILVALLYGHOST,
            Items::PSYCHICMEMORY => self.id == PokemonName::SILVALLYPSYCHIC,
            Items::FLYINGMEMORY => self.id == PokemonName::SILVALLYFLYING,
            Items::STEELMEMORY => self.id == PokemonName::SILVALLYSTEEL,
            Items::ICEMEMORY => self.id == PokemonName::SILVALLYICE,
            Items::POISONMEMORY => self.id == PokemonName::SILVALLYPOISON,
            Items::FIREMEMORY => self.id == PokemonName::SILVALLYFIRE,
            Items::DRAGONMEMORY => self.id == PokemonName::SILVALLYDRAGON,
            Items::GROUNDMEMORY => self.id == PokemonName::SILVALLYGROUND,
            Items::WATERMEMORY => self.id == PokemonName::SILVALLYWATER,
            Items::DARKMEMORY => self.id == PokemonName::SILVALLYDARK,
            Items::ROCKMEMORY => self.id == PokemonName::SILVALLYROCK,
            Items::GRASSMEMORY => self.id == PokemonName::SILVALLYGRASS,
            Items::FAIRYMEMORY => self.id == PokemonName::SILVALLYFAIRY,
            Items::ELECTRICMEMORY => self.id == PokemonName::SILVALLYELECTRIC,
            Items::CORNERSTONEMASK => self.id == PokemonName::OGERPONCORNERSTONE || self.id == PokemonName::OGERPONCORNERSTONETERA,
            Items::HEARTHFLAMEMASK => self.id == PokemonName::OGERPONHEARTHFLAME || self.id == PokemonName::OGERPONHEARTHFLAMETERA,
            Items::WELLSPRINGMASK => self.id == PokemonName::OGERPONWELLSPRING || self.id == PokemonName::OGERPONWELLSPRINGTERA,

            _ => false,
        }
    }

    pub open spec fn spec_item_can_be_removed(self) -> bool {
        self.ability != Abilities::STICKYHOLD && !self.spec_item_is_permanent()
    }

    pub fn item_can_be_removed(&self) -> (r: bool)
        ensures r == self.spec_item_can_be_removed(),
    {
        if self.ability == Abilities::STICKYHOLD {
            return false;
        }
        !self.item_is_permanent()
    }

    pub open spec fn spec_volatile_status_can_be_applied(
        self,
        vs: PokemonVolatileStatus,
        active: VolatileStatusBitset,
        first_move: bool,
    ) -> bool {
        if active.spec_contains(vs) || self.hp == 0 {
            false
        } else {
            if vs == PokemonVolatileStatus::LEECHSEED {
                !self.spec_has_type(PokemonType::GRASS) && !active.spec_contains(PokemonVolatileStatus::SUBSTITUTE)
            } else if vs == PokemonVolatileStatus::CONFUSION {
                !active.spec_contains(PokemonVolatileStatus::SUBSTITUTE)
            } else if vs == PokemonVolatileStatus::SUBSTITUTE {
                self.hp > trunc_div(self.maxhp as int, 4)
            } else if vs == PokemonVolatileStatus::FLINCH {
                first_move && self.ability != Abilities::INNERFOCUS
            } else if vs == PokemonVolatileStatus::PROTECT {
                first_move
            } else if vs == PokemonVolatileStatus::TAUNT || vs == PokemonVolatileStatus::TORMENT
                || vs == PokemonVolatileStatus::ENCORE || vs == PokemonVolatileStatus::DISABLE
                || vs == PokemonVolatileStatus::HEALBLOCK || vs == PokemonVolatileStatus::ATTRACT {
                self.ability != Abilities::AROMAVEIL
            } else {
                true
            }
        }
    }

    /// Whether `volatile_status` may be put on this Pokemon, given the volatiles it has.
    pub fn volatile_status_can_be_applied(
        &self,
        volatile_status: &PokemonVolatileStatus,
        active_volatiles: &VolatileStatusBitset,
        first_move: bool,
    ) -> (r: bool)
        ensures r == self.spec_volatile_status_can_be_applied(*volatile_status, *active_volatiles, first_move),
    {
        if active_volatiles.contains(volatile_status) || self.hp == 0 {
            return false;
        }
        let vs = *volatile_status;
        if vs == PokemonVolatileStatus::LEECHSEED {
            let grass = self.has_type(&PokemonType::GRASS);
            let sub = active_volatiles.contains(&PokemonVolatileStatus::SUBSTITUTE);
            !grass && !sub
        } else if vs == PokemonVolatileStatus::CONFUSION {
            !active_volatiles.contains(&PokemonVolatileStatus::SUBSTITUTE)
        } else if vs == PokemonVolatileStatus::SUBSTITUTE {
            self.hp > self.maxhp / 4
        } else if vs == PokemonVolatileStatus::FLINCH {
            first_move && self.ability != Abilities::INNERFOCUS
        } else if vs == PokemonVolatileStatus::PROTECT {
            first_move
        } else if vs == PokemonVolatileStatus::TAUNT || vs == PokemonVolatileStatus::TORMENT
            || vs == PokemonVolatileStatus::ENCORE || vs == PokemonVolatileStatus::DISABLE
            || vs == PokemonVolatileStatus::HEALBLOCK || vs == PokemonVolatileStatus::ATTRACT {
            self.ability != Abilities::AROMAVEIL
        } else {
            true
        }
    }

    pub open spec fn spec_immune_to_stats_lowered_by_opponent(
        self,
        stat: PokemonBoostableStat,
        volatiles: VolatileStatusBitset,
    ) -> bool {
        ||| self.ability == Abilities::CLEARBODY
        ||| self.ability == Abilities::WHITESMOKE
        ||| self.ability == Abilities::FULLMETALBODY
        ||| self.item == Items::CLEARAMULET
        ||| volatiles.spec_contains(PokemonVolatileStatus::SUBSTITUTE)
        ||| (stat == PokemonBoostableStat::Attack && self.ability == Abilities::HYPERCUTTER)
        ||| (stat == PokemonBoostableStat::Accuracy && self.ability == Abilities::KEENEYE)
    }

    /// Whether an opponent cannot lower `stat` of this Pokemon.
    pub fn immune_to_stats_lowered_by_opponent(
        &self,
        stat: &PokemonBoostableStat,
        volatiles: &VolatileStatusBitset,
    ) -> (r: bool)
        ensures r == self.spec_immune_to_stats_lowered_by_opponent(*stat, *volatiles),
    {
        if self.ability == Abilities::CLEARBODY || self.ability == Abilities::WHITESMOKE
            || self.ability == Abilities::FULLMETALBODY || self.item == Items::CLEARAMULET {
            return true;
        }
        if volatiles.contains(&PokemonVolatileStatus::SUBSTITUTE) {
            return true;
        }
        if *stat == PokemonBoostableStat::Attack && self.ability == Abilities::HYPERCUTTER {
            return true;
        } else if *stat == PokemonBoostableStat::Accuracy && self.ability == Abilities::KEENEYE {
            return true;
        }
        false
    }

    /// Asleep, alive, and not asleep from Rest.
    pub open spec fn spec_sleeping_not_rested(self) -> bool {
        self.status == PokemonStatus::SLEEP && self.hp > 0 && self.rest_turns == 0
    }
}

/// The stat of `p` that a boost of `stat` raises, and its number of stages.
pub open spec fn stat_and_boost(p: Pokemon, stat: PokemonBoostableStat) -> (i16, i8) {
    match stat {
        PokemonBoostableStat::Attack => (p.attack, p.attack_boost),
        PokemonBoostableStat::Defense => (p.defense, p.defense_boost),
        PokemonBoostableStat::SpecialAttack => (p.special_attack, p.special_attack_boost),
        PokemonBoostableStat::SpecialDefense => (p.special_defense, p.special_defense_boost),
        _ => (p.speed, p.speed_boost),
    }
}

/// A stat that boosts act on: not evasion or accuracy.
pub open spec fn is_battle_stat(stat: PokemonBoostableStat) -> bool {
    stat != PokemonBoostableStat::Evasion && stat != PokemonBoostableStat::Accuracy
}

impl Side {
    pub open spec fn spec_boosted_stat(self, stat: PokemonBoostableStat) -> int {
        let (v, b) = stat_and_boost(self.spec_active(), stat);
        spec_multiply_boost(b, v)
    }

    pub open spec fn spec_boosted_stat_fits(self, stat: PokemonBoostableStat) -> bool {
        let (v, b) = stat_and_boost(self.spec_active(), stat);
        boost_fits(b, v)
    }

    /// The active Pokemon's stat with its boost stages applied.
    pub fn calculate_boosted_stat(&self, stat: PokemonBoostableStat) -> (r: i16)
        requires
            is_battle_stat(stat),
            self.spec_boosted_stat_fits(stat),
        ensures
            r == self.spec_boosted_stat(stat),
    {
        let active = self.get_active_immutable();
        match stat {
            PokemonBoostableStat::Attack => multiply_boost(active.attack_boost, active.attack),
            PokemonBoostableStat::Defense => multiply_boost(active.defense_boost, active.defense),
            PokemonBoostableStat::SpecialAttack => multiply_boost(active.special_attack_boost, active.special_attack),
            PokemonBoostableStat::SpecialDefense => multiply_boost(active.special_defense_boost, active.special_defense),
            _ => multiply_boost(active.speed_boost, active.speed),
        }
    }

    /// The boost stages of the active Pokemon in `boost_enum`.
    pub fn get_boost_from_boost_enum(&self, boost_enum: &PokemonBoostableStat) -> (r: i8)
        ensures r == self.spec_active().spec_boost(*boost_enum),
    {
        self.get_active_immutable().get_boost(*boost_enum)
    }

    /// The highest of the active Pokemon's boosted attack, defense, special attack,
    /// special defense and speed; the earlier one wins a tie.
    pub fn calculate_highest_stat(&self) -> (r: PokemonBoostableStat)
        requires
            self.spec_boosted_stat_fits(PokemonBoostableStat::Attack),
            self.spec_boosted_stat_fits(PokemonBoostableStat::Defense),
            self.spec_boosted_stat_fits(PokemonBoostableStat::SpecialAttack),
            self.spec_boosted_stat_fits(PokemonBoostableStat::SpecialDefense),
            self.spec_boosted_stat_fits(PokemonBoostableStat::Speed),
        ensures
            is_battle_stat(r),
            forall|s: PokemonBoostableStat| is_battle_stat(s) ==> #[trigger] self.spec_boosted_stat(s) <= self.spec_boosted_stat(r),
            forall|s: PokemonBoostableStat| #[trigger] self.spec_boosted_stat(s) == self.spec_boosted_stat(r) && is_battle_stat(s)
                ==> stat_rank(r) <= stat_rank(s),
    {
        let mut highest_stat = PokemonBoostableStat::Attack;
        let mut highest_stat_value = self.calculate_boosted_stat(PokemonBoostableStat::Attack);
        let v = self.calculate_boosted_stat(PokemonBoostableStat::Defense);
        if v > highest_stat_value { highest_stat = PokemonBoostableStat::Defense; highest_stat_value = v; }
        let v = self.calculate_boosted_stat(PokemonBoostableStat::SpecialAttack);
        if v > highest_stat_value { highest_stat = PokemonBoostableStat::SpecialAttack; highest_stat_value = v; }
        let v = self.calculate_boosted_stat(PokemonBoostableStat::SpecialDefense);
        if v > highest_stat_value { highest_stat = PokemonBoostableStat::SpecialDefense; highest_stat_value = v; }
        let v = self.calculate_boosted_stat(PokemonBoostableStat::Speed);
        if v > highest_stat_value { highest_stat = PokemonBoostableStat::Speed; highest_stat_value = v; }
        assert forall|s: PokemonBoostableStat| is_battle_stat(s) implies #[trigger] self.spec_boosted_stat(s) <= self.spec_boosted_stat(highest_stat) by {
            match s { _ => {} }
        }
        highest_stat
    }

    pub open spec fn spec_has_alive_non_rested_sleeping_pkmn(self) -> bool {
        exists|i: PokemonIndex| #[trigger] self.pokemon.spec_get(i).spec_sleeping_not_rested()
    }

    /// Whether a Pokemon of this side is alive and asleep, but not from Rest.
    pub fn has_alive_non_rested_sleeping_pkmn(&self) -> (r: bool)
        ensures r == self.spec_has_alive_non_rested_sleeping_pkmn(),
    {
        let idx = [PokemonIndex::P0, PokemonIndex::P1, PokemonIndex::P2, PokemonIndex::P3, PokemonIndex::P4, PokemonIndex::P5];
        let mut k: usize = 0;
        while k < 6
            invariant
                k <= 6,
                idx@ == seq![PokemonIndex::P0, PokemonIndex::P1, PokemonIndex::P2, PokemonIndex::P3, PokemonIndex::P4, PokemonIndex::P5],
                forall|j: int| 0 <= j < k ==> !(#[trigger] self.pokemon.spec_get(idx@[j])).spec_sleeping_not_rested(),
            decreases 6 - k,
        {
            let p = self.pokemon.get(idx[k]);
            if p.status == PokemonStatus::SLEEP && p.hp > 0 && p.rest_turns == 0 {
                return true;
            }
            k = k + 1;
        }
        assert forall|i: PokemonIndex| !(#[trigger] self.pokemon.spec_get(i)).spec_sleeping_not_rested() by {
            match i {
                PokemonIndex::P0 => assert(idx@[0] == i),
                PokemonIndex::P1 => assert(idx@[1] == i),
                PokemonIndex::P2 => assert(idx@[2] == i),
                PokemonIndex::P3 => assert(idx@[3] == i),
                PokemonIndex::P4 => assert(idx@[4] == i),
                PokemonIndex::P5 => assert(idx@[5] == i),
            }
        }
        false
    }

    /// Terastallization is not part of this engine's generation: no side can use it.
    pub fn can_use_tera(&self) -> (r: bool)
        ensures !r,
    {
        false
    }
}

/// The order in which ties between stats are settled: the first listed wins.
pub open spec fn stat_rank(s: PokemonBoostableStat) -> int {
    match s {
        PokemonBoostableStat::Attack => 0,
        PokemonBoostableStat::Defense => 1,
        PokemonBoostableStat::SpecialAttack => 2,
        PokemonBoostableStat::SpecialDefense => 3,
        PokemonBoostableStat::Speed => 4,
        PokemonBoostableStat::Evasion => 5,
        PokemonBoostableStat::Accuracy => 6,
    }
}

impl State {
    pub open spec fn spec_weather_is_active(self, weather: Weather) -> bool {
        let a = self.side_one.spec_active().ability;
        let b = self.side_two.spec_active().ability;
        &&& self.weather.weather_type == weather
        &&& a != Abilities::AIRLOCK && a != Abilities::CLOUDNINE
        &&& b != Abilities::AIRLOCK && b != Abilities::CLOUDNINE
    }

    /// The weather is `weather` and no active Pokemon suppresses it.
    pub fn weather_is_active(&self, weather: &Weather) -> (r: bool)
        ensures r == self.spec_weather_is_active(*weather),
    {
        let a = self.side_one.get_active_immutable().ability;
        let b = self.side_two.get_active_immutable().ability;
        self.weather.weather_type == *weather
            && a != Abilities::AIRLOCK && a != Abilities::CLOUDNINE
            && b != Abilities::AIRLOCK && b != Abilities::CLOUDNINE
    }

    /// The terrain is `terrain`, with turns left.
    pub fn terrain_is_active(&self, terrain: &Terrain) -> (r: bool)
        ensures r == (self.terrain.terrain_type == *terrain && self.terrain.turns_remaining > 0),
    {
        self.terrain.terrain_type == *terrain && self.terrain.turns_remaining > 0
    }

    /// The terrain in force: none once its turns have run out.
    pub fn get_terrain(&self) -> (r: Terrain)
        ensures r == (if self.terrain.turns_remaining > 0 { self.terrain.terrain_type } else { Terrain::NONE }),
    {
        if self.terrain.turns_remaining > 0 {
            self.terrain.terrain_type
        } else {
            Terrain::NONE
        }
    }
}

} // verus!
