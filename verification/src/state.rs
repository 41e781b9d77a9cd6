//! The battle state: sides, Pokemon, their moves and the conditions on them,
//! and the queries and option enumeration that read it.

use vstd::prelude::*;
use crate::abilities::Abilities;
use crate::choices::{Choice, Choices, MoveCategory};
use crate::items::Items;
use crate::pokemon::PokemonName;





verus! {

/// One of the two sides of a battle.
#[derive(Clone, Copy, PartialEq, Eq, Debug, Hash, Structural)]
pub enum SideReference {
    SideOne,
    SideTwo,
}

impl SideReference {
    pub open spec fn spec_other(self) -> SideReference {
        match self {
            SideReference::SideOne => SideReference::SideTwo,
            SideReference::SideTwo => SideReference::SideOne,
        }
    }

    pub fn get_other_side(&self) -> (r: SideReference)
        ensures r == self.spec_other(),
    {
        match self {
            SideReference::SideOne => SideReference::SideTwo,
            SideReference::SideTwo => SideReference::SideOne,
        }
    }
}

/// The position of a Pokemon in its side's party of six.
#[derive(Clone, Copy, PartialEq, Eq, Debug, Hash, Structural)]
pub enum PokemonIndex {
    P0,
    P1,
    P2,
    P3,
    P4,
    P5,
}

impl PokemonIndex {
    pub open spec fn spec_to_int(self) -> int {
        match self {
            PokemonIndex::P0 => 0,
            PokemonIndex::P1 => 1,
            PokemonIndex::P2 => 2,
            PokemonIndex::P3 => 3,
            PokemonIndex::P4 => 4,
            PokemonIndex::P5 => 5,
        }
    }

    pub open spec fn spec_from_int(i: int) -> PokemonIndex {
        if i == 0 {
            PokemonIndex::P0
        } else if i == 1 {
            PokemonIndex::P1
        } else if i == 2 {
            PokemonIndex::P2
        } else if i == 3 {
            PokemonIndex::P3
        } else if i == 4 {
            PokemonIndex::P4
        } else {
            PokemonIndex::P5
        }
    }

    pub fn from_usize(i: usize) -> (r: PokemonIndex)
        requires i < 6,
        ensures r == Self::spec_from_int(i as int), r.spec_to_int() == i,
    {
        match i {
            0 => PokemonIndex::P0,
            1 => PokemonIndex::P1,
            2 => PokemonIndex::P2,
            3 => PokemonIndex::P3,
            4 => PokemonIndex::P4,
            _ => PokemonIndex::P5,
        }
    }
}

/// The position of a move among a Pokemon's four.
#[derive(Clone, Copy, PartialEq, Eq, Debug, Hash, Structural)]
pub enum PokemonMoveIndex {
    M0,
    M1,
    M2,
    M3,
}

impl PokemonMoveIndex {
    pub open spec fn spec_to_int(self) -> int {
        match self {
            PokemonMoveIndex::M0 => 0,
            PokemonMoveIndex::M1 => 1,
            PokemonMoveIndex::M2 => 2,
            PokemonMoveIndex::M3 => 3,
        }
    }

    pub open spec fn spec_from_int(i: int) -> PokemonMoveIndex {
        if i == 0 {
            PokemonMoveIndex::M0
        } else if i == 1 {
            PokemonMoveIndex::M1
        } else if i == 2 {
            PokemonMoveIndex::M2
        } else {
            PokemonMoveIndex::M3
        }
    }

    pub fn from_usize(i: usize) -> (r: PokemonMoveIndex)
        requires i < 4,
        ensures r == Self::spec_from_int(i as int), r.spec_to_int() == i,
    {
        match i {
            0 => PokemonMoveIndex::M0,
            1 => PokemonMoveIndex::M1,
            2 => PokemonMoveIndex::M2,
            _ => PokemonMoveIndex::M3,
        }
    }
}

/// A Pokemon or move type.
#[derive(Clone, Copy, PartialEq, Eq, Debug, Hash, Structural)]
pub enum PokemonType {
    NORMAL,
    FIRE,
    WATER,
    ELECTRIC,
    GRASS,
    ICE,
    FIGHTING,
    POISON,
    GROUND,
    FLYING,
    PSYCHIC,
    BUG,
    ROCK,
    GHOST,
    DRAGON,
    DARK,
    STEEL,
    FAIRY,
    STELLAR,
    TYPELESS,
}

/// A non-volatile status: one that stays with the Pokemon when it switches out.
#[derive(Clone, Copy, PartialEq, Eq, Debug, Hash, Structural)]
pub enum PokemonStatus {
    NONE,
    BURN,
    SLEEP,
    FREEZE,
    PARALYZE,
    POISON,
    TOXIC,
}

/// A volatile status condition: one that lasts while the Pokemon stays active.
#[derive(Clone, Copy, PartialEq, Eq, Debug, Hash, Structural)]
pub enum PokemonVolatileStatus {
    NONE,
    AQUARING,
    ATTRACT,
    AUTOTOMIZE,
    BANEFULBUNKER,
    BIDE,
    BOUNCE,
    BURNINGBULWARK,
    CHARGE,
    CONFUSION,
    CURSE,
    DEFENSECURL,
    DESTINYBOND,
    DIG,
    DISABLE,
    DIVE,
    ELECTRIFY,
    ELECTROSHOT,
    EMBARGO,
    ENCORE,
    ENDURE,
    FLASHFIRE,
    FLINCH,
    FLY,
    FOCUSENERGY,
    FOLLOWME,
    FORESIGHT,
    FREEZESHOCK,
    GASTROACID,
    GEOMANCY,
    GLAIVERUSH,
    GRUDGE,
    HEALBLOCK,
    HELPINGHAND,
    ICEBURN,
    IMPRISON,
    INGRAIN,
    KINGSSHIELD,
    LASERFOCUS,
    LEECHSEED,
    LIGHTSCREEN,
    LOCKEDMOVE,
    MAGICCOAT,
    MAGNETRISE,
    MAXGUARD,
    METEORBEAM,
    MINIMIZE,
    MIRACLEEYE,
    MUSTRECHARGE,
    NIGHTMARE,
    NORETREAT,
    OCTOLOCK,
    PARTIALLYTRAPPED,
    PERISH4,
    PERISH3,
    PERISH2,
    PERISH1,
    PHANTOMFORCE,
    POWDER,
    POWERSHIFT,
    POWERTRICK,
    PROTECT,
    PROTOSYNTHESISATK,
    PROTOSYNTHESISDEF,
    PROTOSYNTHESISSPA,
    PROTOSYNTHESISSPD,
    PROTOSYNTHESISSPE,
    QUARKDRIVEATK,
    QUARKDRIVEDEF,
    QUARKDRIVESPA,
    QUARKDRIVESPD,
    QUARKDRIVESPE,
    RAGE,
    RAGEPOWDER,
    RAZORWIND,
    REFLECT,
    ROOST,
    SALTCURE,
    SHADOWFORCE,
    SKULLBASH,
    SKYATTACK,
    SKYDROP,
    SILKTRAP,
    SLOWSTART,
    SMACKDOWN,
    SNATCH,
    SOLARBEAM,
    SOLARBLADE,
    SPARKLINGARIA,
    SPIKYSHIELD,
    SPOTLIGHT,
    STOCKPILE,
    SUBSTITUTE,
    SYRUPBOMB,
    TARSHOT,
    TAUNT,
    TELEKINESIS,
    THROATCHOP,
    TRUANT,
    TORMENT,
    TYPECHANGE,
    UNBURDEN,
    UPROAR,
    YAWN,
}

impl PokemonVolatileStatus {
    /// The bit that stands for this status in a `VolatileStatusBitset`.
    #[verifier::opaque]
    pub open spec fn spec_index(self) -> u8 {
        match self {
            PokemonVolatileStatus::NONE => 0u8,
            PokemonVolatileStatus::AQUARING => 1u8,
            PokemonVolatileStatus::ATTRACT => 2u8,
            PokemonVolatileStatus::AUTOTOMIZE => 3u8,
            PokemonVolatileStatus::BANEFULBUNKER => 4u8,
            PokemonVolatileStatus::BIDE => 5u8,
            PokemonVolatileStatus::BOUNCE => 6u8,
            PokemonVolatileStatus::BURNINGBULWARK => 7u8,
            PokemonVolatileStatus::CHARGE => 8u8,
            PokemonVolatileStatus::CONFUSION => 9u8,
            PokemonVolatileStatus::CURSE => 10u8,
            PokemonVolatileStatus::DEFENSECURL => 11u8,
            PokemonVolatileStatus::DESTINYBOND => 12u8,
            PokemonVolatileStatus::DIG => 13u8,
            PokemonVolatileStatus::DISABLE => 14u8,
            PokemonVolatileStatus::DIVE => 15u8,
            PokemonVolatileStatus::ELECTRIFY => 16u8,
            PokemonVolatileStatus::ELECTROSHOT => 17u8,
            PokemonVolatileStatus::EMBARGO => 18u8,
            PokemonVolatileStatus::ENCORE => 19u8,
            PokemonVolatileStatus::ENDURE => 20u8,
            PokemonVolatileStatus::FLASHFIRE => 21u8,
            PokemonVolatileStatus::FLINCH => 22u8,
            PokemonVolatileStatus::FLY => 23u8,
            PokemonVolatileStatus::FOCUSENERGY => 24u8,
            PokemonVolatileStatus::FOLLOWME => 25u8,
            PokemonVolatileStatus::FORESIGHT => 26u8,
            PokemonVolatileStatus::FREEZESHOCK => 27u8,
            PokemonVolatileStatus::GASTROACID => 28u8,
            PokemonVolatileStatus::GEOMANCY => 29u8,
            PokemonVolatileStatus::GLAIVERUSH => 30u8,
            PokemonVolatileStatus::GRUDGE => 31u8,
            PokemonVolatileStatus::HEALBLOCK => 32u8,
            PokemonVolatileStatus::HELPINGHAND => 33u8,
            PokemonVolatileStatus::ICEBURN => 34u8,
            PokemonVolatileStatus::IMPRISON => 35u8,
            PokemonVolatileStatus::INGRAIN => 36u8,
            PokemonVolatileStatus::KINGSSHIELD => 37u8,
            PokemonVolatileStatus::LASERFOCUS => 38u8,
            PokemonVolatileStatus::LEECHSEED => 39u8,
            PokemonVolatileStatus::LIGHTSCREEN => 40u8,
            PokemonVolatileStatus::LOCKEDMOVE => 41u8,
            PokemonVolatileStatus::MAGICCOAT => 42u8,
            PokemonVolatileStatus::MAGNETRISE => 43u8,
            PokemonVolatileStatus::MAXGUARD => 44u8,
            PokemonVolatileStatus::METEORBEAM => 45u8,
            PokemonVolatileStatus::MINIMIZE => 46u8,
            PokemonVolatileStatus::MIRACLEEYE => 47u8,
            PokemonVolatileStatus::MUSTRECHARGE => 48u8,
            PokemonVolatileStatus::NIGHTMARE => 49u8,
            PokemonVolatileStatus::NORETREAT => 50u8,
            PokemonVolatileStatus::OCTOLOCK => 51u8,
            PokemonVolatileStatus::PARTIALLYTRAPPED => 52u8,
            PokemonVolatileStatus::PERISH4 => 53u8,
            PokemonVolatileStatus::PERISH3 => 54u8,
            PokemonVolatileStatus::PERISH2 => 55u8,
            PokemonVolatileStatus::PERISH1 => 56u8,
            PokemonVolatileStatus::PHANTOMFORCE => 57u8,
            PokemonVolatileStatus::POWDER => 58u8,
            PokemonVolatileStatus::POWERSHIFT => 59u8,
            PokemonVolatileStatus::POWERTRICK => 60u8,
            PokemonVolatileStatus::PROTECT => 61u8,
            PokemonVolatileStatus::PROTOSYNTHESISATK => 62u8,
            PokemonVolatileStatus::PROTOSYNTHESISDEF => 63u8,
            PokemonVolatileStatus::PROTOSYNTHESISSPA => 64u8,
            PokemonVolatileStatus::PROTOSYNTHESISSPD => 65u8,
            PokemonVolatileStatus::PROTOSYNTHESISSPE => 66u8,
            PokemonVolatileStatus::QUARKDRIVEATK => 67u8,
            PokemonVolatileStatus::QUARKDRIVEDEF => 68u8,
            PokemonVolatileStatus::QUARKDRIVESPA => 69u8,
            PokemonVolatileStatus::QUARKDRIVESPD => 70u8,
            PokemonVolatileStatus::QUARKDRIVESPE => 71u8,
            PokemonVolatileStatus::RAGE => 72u8,
            PokemonVolatileStatus::RAGEPOWDER => 73u8,
            PokemonVolatileStatus::RAZORWIND => 74u8,
            PokemonVolatileStatus::REFLECT => 75u8,
            PokemonVolatileStatus::ROOST => 76u8,
            PokemonVolatileStatus::SALTCURE => 77u8,
            PokemonVolatileStatus::SHADOWFORCE => 78u8,
            PokemonVolatileStatus::SKULLBASH => 79u8,
            PokemonVolatileStatus::SKYATTACK => 80u8,
            PokemonVolatileStatus::SKYDROP => 81u8,
            PokemonVolatileStatus::SILKTRAP => 82u8,
            PokemonVolatileStatus::SLOWSTART => 83u8,
            PokemonVolatileStatus::SMACKDOWN => 84u8,
            PokemonVolatileStatus::SNATCH => 85u8,
            PokemonVolatileStatus::SOLARBEAM => 86u8,
            PokemonVolatileStatus::SOLARBLADE => 87u8,
            PokemonVolatileStatus::SPARKLINGARIA => 88u8,
            PokemonVolatileStatus::SPIKYSHIELD => 89u8,
            PokemonVolatileStatus::SPOTLIGHT => 90u8,
            PokemonVolatileStatus::STOCKPILE => 91u8,
            PokemonVolatileStatus::SUBSTITUTE => 92u8,
            PokemonVolatileStatus::SYRUPBOMB => 93u8,
            PokemonVolatileStatus::TARSHOT => 94u8,
            PokemonVolatileStatus::TAUNT => 95u8,
            PokemonVolatileStatus::TELEKINESIS => 96u8,
            PokemonVolatileStatus::THROATCHOP => 97u8,
            PokemonVolatileStatus::TRUANT => 98u8,
            PokemonVolatileStatus::TORMENT => 99u8,
            PokemonVolatileStatus::TYPECHANGE => 100u8,
            PokemonVolatileStatus::UNBURDEN => 101u8,
            PokemonVolatileStatus::UPROAR => 102u8,
            PokemonVolatileStatus::YAWN => 103u8,
        }
    }

    pub fn index(&self) -> (r: u8)
        ensures r == self.spec_index(), r < 104,
    {
        reveal(PokemonVolatileStatus::spec_index);
        match self {
            PokemonVolatileStatus::NONE => 0,
            PokemonVolatileStatus::AQUARING => 1,
            PokemonVolatileStatus::ATTRACT => 2,
            PokemonVolatileStatus::AUTOTOMIZE => 3,
            PokemonVolatileStatus::BANEFULBUNKER => 4,
            PokemonVolatileStatus::BIDE => 5,
            PokemonVolatileStatus::BOUNCE => 6,
            PokemonVolatileStatus::BURNINGBULWARK => 7,
            PokemonVolatileStatus::CHARGE => 8,
            PokemonVolatileStatus::CONFUSION => 9,
            PokemonVolatileStatus::CURSE => 10,
            PokemonVolatileStatus::DEFENSECURL => 11,
            PokemonVolatileStatus::DESTINYBOND => 12,
            PokemonVolatileStatus::DIG => 13,
            PokemonVolatileStatus::DISABLE => 14,
            PokemonVolatileStatus::DIVE => 15,
            PokemonVolatileStatus::ELECTRIFY => 16,
            PokemonVolatileStatus::ELECTROSHOT => 17,
            PokemonVolatileStatus::EMBARGO => 18,
            PokemonVolatileStatus::ENCORE => 19,
            PokemonVolatileStatus::ENDURE => 20,
            PokemonVolatileStatus::FLASHFIRE => 21,
            PokemonVolatileStatus::FLINCH => 22,
            PokemonVolatileStatus::FLY => 23,
            PokemonVolatileStatus::FOCUSENERGY => 24,
            PokemonVolatileStatus::FOLLOWME => 25,
            PokemonVolatileStatus::FORESIGHT => 26,
            PokemonVolatileStatus::FREEZESHOCK => 27,
            PokemonVolatileStatus::GASTROACID => 28,
            PokemonVolatileStatus::GEOMANCY => 29,
            PokemonVolatileStatus::GLAIVERUSH => 30,
            PokemonVolatileStatus::GRUDGE => 31,
            PokemonVolatileStatus::HEALBLOCK => 32,
            PokemonVolatileStatus::HELPINGHAND => 33,
            PokemonVolatileStatus::ICEBURN => 34,
            PokemonVolatileStatus::IMPRISON => 35,
            PokemonVolatileStatus::INGRAIN => 36,
            PokemonVolatileStatus::KINGSSHIELD => 37,
            PokemonVolatileStatus::LASERFOCUS => 38,
            PokemonVolatileStatus::LEECHSEED => 39,
            PokemonVolatileStatus::LIGHTSCREEN => 40,
            PokemonVolatileStatus::LOCKEDMOVE => 41,
            PokemonVolatileStatus::MAGICCOAT => 42,
            PokemonVolatileStatus::MAGNETRISE => 43,
            PokemonVolatileStatus::MAXGUARD => 44,
            PokemonVolatileStatus::METEORBEAM => 45,
            PokemonVolatileStatus::MINIMIZE => 46,
            PokemonVolatileStatus::MIRACLEEYE => 47,
            PokemonVolatileStatus::MUSTRECHARGE => 48,
            PokemonVolatileStatus::NIGHTMARE => 49,
            PokemonVolatileStatus::NORETREAT => 50,
            PokemonVolatileStatus::OCTOLOCK => 51,
            PokemonVolatileStatus::PARTIALLYTRAPPED => 52,
            PokemonVolatileStatus::PERISH4 => 53,
            PokemonVolatileStatus::PERISH3 => 54,
            PokemonVolatileStatus::PERISH2 => 55,
            PokemonVolatileStatus::PERISH1 => 56,
            PokemonVolatileStatus::PHANTOMFORCE => 57,
            PokemonVolatileStatus::POWDER => 58,
            PokemonVolatileStatus::POWERSHIFT => 59,
            PokemonVolatileStatus::POWERTRICK => 60,
            PokemonVolatileStatus::PROTECT => 61,
            PokemonVolatileStatus::PROTOSYNTHESISATK => 62,
            PokemonVolatileStatus::PROTOSYNTHESISDEF => 63,
            PokemonVolatileStatus::PROTOSYNTHESISSPA => 64,
            PokemonVolatileStatus::PROTOSYNTHESISSPD => 65,
            PokemonVolatileStatus::PROTOSYNTHESISSPE => 66,
            PokemonVolatileStatus::QUARKDRIVEATK => 67,
            PokemonVolatileStatus::QUARKDRIVEDEF => 68,
            PokemonVolatileStatus::QUARKDRIVESPA => 69,
            PokemonVolatileStatus::QUARKDRIVESPD => 70,
            PokemonVolatileStatus::QUARKDRIVESPE => 71,
            PokemonVolatileStatus::RAGE => 72,
            PokemonVolatileStatus::RAGEPOWDER => 73,
            PokemonVolatileStatus::RAZORWIND => 74,
            PokemonVolatileStatus::REFLECT => 75,
            PokemonVolatileStatus::ROOST => 76,
            PokemonVolatileStatus::SALTCURE => 77,
            PokemonVolatileStatus::SHADOWFORCE => 78,
            PokemonVolatileStatus::SKULLBASH => 79,
            PokemonVolatileStatus::SKYATTACK => 80,
            PokemonVolatileStatus::SKYDROP => 81,
            PokemonVolatileStatus::SILKTRAP => 82,
            PokemonVolatileStatus::SLOWSTART => 83,
            PokemonVolatileStatus::SMACKDOWN => 84,
            PokemonVolatileStatus::SNATCH => 85,
            PokemonVolatileStatus::SOLARBEAM => 86,
            PokemonVolatileStatus::SOLARBLADE => 87,
            PokemonVolatileStatus::SPARKLINGARIA => 88,
            PokemonVolatileStatus::SPIKYSHIELD => 89,
            PokemonVolatileStatus::SPOTLIGHT => 90,
            PokemonVolatileStatus::STOCKPILE => 91,
            PokemonVolatileStatus::SUBSTITUTE => 92,
            PokemonVolatileStatus::SYRUPBOMB => 93,
            PokemonVolatileStatus::TARSHOT => 94,
            PokemonVolatileStatus::TAUNT => 95,
            PokemonVolatileStatus::TELEKINESIS => 96,
            PokemonVolatileStatus::THROATCHOP => 97,
            PokemonVolatileStatus::TRUANT => 98,
            PokemonVolatileStatus::TORMENT => 99,
            PokemonVolatileStatus::TYPECHANGE => 100,
            PokemonVolatileStatus::UNBURDEN => 101,
            PokemonVolatileStatus::UPROAR => 102,
            PokemonVolatileStatus::YAWN => 103,
        }
    }

    /// The status whose bit is `i`, for every `i` below the number of statuses.
    #[verifier::opaque]
    pub open spec fn spec_from_index(i: u8) -> Option<PokemonVolatileStatus> {
        if i == 0 { Some(PokemonVolatileStatus::NONE) }
        else if i == 1 { Some(PokemonVolatileStatus::AQUARING) }
        else if i == 2 { Some(PokemonVolatileStatus::ATTRACT) }
        else if i == 3 { Some(PokemonVolatileStatus::AUTOTOMIZE) }
        else if i == 4 { Some(PokemonVolatileStatus::BANEFULBUNKER) }
        else if i == 5 { Some(PokemonVolatileStatus::BIDE) }
        else if i == 6 { Some(PokemonVolatileStatus::BOUNCE) }
        else if i == 7 { Some(PokemonVolatileStatus::BURNINGBULWARK) }
        else if i == 8 { Some(PokemonVolatileStatus::CHARGE) }
        else if i == 9 { Some(PokemonVolatileStatus::CONFUSION) }
        else if i == 10 { Some(PokemonVolatileStatus::CURSE) }
        else if i == 11 { Some(PokemonVolatileStatus::DEFENSECURL) }
        else if i == 12 { Some(PokemonVolatileStatus::DESTINYBOND) }
        else if i == 13 { Some(PokemonVolatileStatus::DIG) }
        else if i == 14 { Some(PokemonVolatileStatus::DISABLE) }
        else if i == 15 { Some(PokemonVolatileStatus::DIVE) }
        else if i == 16 { Some(PokemonVolatileStatus::ELECTRIFY) }
        else if i == 17 { Some(PokemonVolatileStatus::ELECTROSHOT) }
        else if i == 18 { Some(PokemonVolatileStatus::EMBARGO) }
        else if i == 19 { Some(PokemonVolatileStatus::ENCORE) }
        else if i == 20 { Some(PokemonVolatileStatus::ENDURE) }
        else if i == 21 { Some(PokemonVolatileStatus::FLASHFIRE) }
        else if i == 22 { Some(PokemonVolatileStatus::FLINCH) }
        else if i == 23 { Some(PokemonVolatileStatus::FLY) }
        else if i == 24 { Some(PokemonVolatileStatus::FOCUSENERGY) }
        else if i == 25 { Some(PokemonVolatileStatus::FOLLOWME) }
        else if i == 26 { Some(PokemonVolatileStatus::FORESIGHT) }
        else if i == 27 { Some(PokemonVolatileStatus::FREEZESHOCK) }
        else if i == 28 { Some(PokemonVolatileStatus::GASTROACID) }
        else if i == 29 { Some(PokemonVolatileStatus::GEOMANCY) }
        else if i == 30 { Some(PokemonVolatileStatus::GLAIVERUSH) }
        else if i == 31 { Some(PokemonVolatileStatus::GRUDGE) }
        else if i == 32 { Some(PokemonVolatileStatus::HEALBLOCK) }
        else if i == 33 { Some(PokemonVolatileStatus::HELPINGHAND) }
        else if i == 34 { Some(PokemonVolatileStatus::ICEBURN) }
        else if i == 35 { Some(PokemonVolatileStatus::IMPRISON) }
        else if i == 36 { Some(PokemonVolatileStatus::INGRAIN) }
        else if i == 37 { Some(PokemonVolatileStatus::KINGSSHIELD) }
        else if i == 38 { Some(PokemonVolatileStatus::LASERFOCUS) }
        else if i == 39 { Some(PokemonVolatileStatus::LEECHSEED) }
        else if i == 40 { Some(PokemonVolatileStatus::LIGHTSCREEN) }
        else if i == 41 { Some(PokemonVolatileStatus::LOCKEDMOVE) }
        else if i == 42 { Some(PokemonVolatileStatus::MAGICCOAT) }
        else if i == 43 { Some(PokemonVolatileStatus::MAGNETRISE) }
        else if i == 44 { Some(PokemonVolatileStatus::MAXGUARD) }
        else if i == 45 { Some(PokemonVolatileStatus::METEORBEAM) }
        else if i == 46 { Some(PokemonVolatileStatus::MINIMIZE) }
        else if i == 47 { Some(PokemonVolatileStatus::MIRACLEEYE) }
        else if i == 48 { Some(PokemonVolatileStatus::MUSTRECHARGE) }
        else if i == 49 { Some(PokemonVolatileStatus::NIGHTMARE) }
        else if i == 50 { Some(PokemonVolatileStatus::NORETREAT) }
        else if i == 51 { Some(PokemonVolatileStatus::OCTOLOCK) }
        else if i == 52 { Some(PokemonVolatileStatus::PARTIALLYTRAPPED) }
        else if i == 53 { Some(PokemonVolatileStatus::PERISH4) }
        else if i == 54 { Some(PokemonVolatileStatus::PERISH3) }
        else if i == 55 { Some(PokemonVolatileStatus::PERISH2) }
        else if i == 56 { Some(PokemonVolatileStatus::PERISH1) }
        else if i == 57 { Some(PokemonVolatileStatus::PHANTOMFORCE) }
        else if i == 58 { Some(PokemonVolatileStatus::POWDER) }
        else if i == 59 { Some(PokemonVolatileStatus::POWERSHIFT) }
        else if i == 60 { Some(PokemonVolatileStatus::POWERTRICK) }
        else if i == 61 { Some(PokemonVolatileStatus::PROTECT) }
        else if i == 62 { Some(PokemonVolatileStatus::PROTOSYNTHESISATK) }
        else if i == 63 { Some(PokemonVolatileStatus::PROTOSYNTHESISDEF) }
        else if i == 64 { Some(PokemonVolatileStatus::PROTOSYNTHESISSPA) }
        else if i == 65 { Some(PokemonVolatileStatus::PROTOSYNTHESISSPD) }
        else if i == 66 { Some(PokemonVolatileStatus::PROTOSYNTHESISSPE) }
        else if i == 67 { Some(PokemonVolatileStatus::QUARKDRIVEATK) }
        else if i == 68 { Some(PokemonVolatileStatus::QUARKDRIVEDEF) }
        else if i == 69 { Some(PokemonVolatileStatus::QUARKDRIVESPA) }
        else if i == 70 { Some(PokemonVolatileStatus::QUARKDRIVESPD) }
        else if i == 71 { Some(PokemonVolatileStatus::QUARKDRIVESPE) }
        else if i == 72 { Some(PokemonVolatileStatus::RAGE) }
        else if i == 73 { Some(PokemonVolatileStatus::RAGEPOWDER) }
        else if i == 74 { Some(PokemonVolatileStatus::RAZORWIND) }
        else if i == 75 { Some(PokemonVolatileStatus::REFLECT) }
        else if i == 76 { Some(PokemonVolatileStatus::ROOST) }
        else if i == 77 { Some(PokemonVolatileStatus::SALTCURE) }
        else if i == 78 { Some(PokemonVolatileStatus::SHADOWFORCE) }
        else if i == 79 { Some(PokemonVolatileStatus::SKULLBASH) }
        else if i == 80 { Some(PokemonVolatileStatus::SKYATTACK) }
        else if i == 81 { Some(PokemonVolatileStatus::SKYDROP) }
        else if i == 82 { Some(PokemonVolatileStatus::SILKTRAP) }
        else if i == 83 { Some(PokemonVolatileStatus::SLOWSTART) }
        else if i == 84 { Some(PokemonVolatileStatus::SMACKDOWN) }
        else if i == 85 { Some(PokemonVolatileStatus::SNATCH) }
        else if i == 86 { Some(PokemonVolatileStatus::SOLARBEAM) }
        else if i == 87 { Some(PokemonVolatileStatus::SOLARBLADE) }
        else if i == 88 { Some(PokemonVolatileStatus::SPARKLINGARIA) }
        else if i == 89 { Some(PokemonVolatileStatus::SPIKYSHIELD) }
        else if i == 90 { Some(PokemonVolatileStatus::SPOTLIGHT) }
        else if i == 91 { Some(PokemonVolatileStatus::STOCKPILE) }
        else if i == 92 { Some(PokemonVolatileStatus::SUBSTITUTE) }
        else if i == 93 { Some(PokemonVolatileStatus::SYRUPBOMB) }
        else if i == 94 { Some(PokemonVolatileStatus::TARSHOT) }
        else if i == 95 { Some(PokemonVolatileStatus::TAUNT) }
        else if i == 96 { Some(PokemonVolatileStatus::TELEKINESIS) }
        else if i == 97 { Some(PokemonVolatileStatus::THROATCHOP) }
        else if i == 98 { Some(PokemonVolatileStatus::TRUANT) }
        else if i == 99 { Some(PokemonVolatileStatus::TORMENT) }
        else if i == 100 { Some(PokemonVolatileStatus::TYPECHANGE) }
        else if i == 101 { Some(PokemonVolatileStatus::UNBURDEN) }
        else if i == 102 { Some(PokemonVolatileStatus::UPROAR) }
        else if i == 103 { Some(PokemonVolatileStatus::YAWN) }
        else { None }
    }

    pub fn from_index(i: u8) -> (r: Option<PokemonVolatileStatus>)
        ensures
            r == Self::spec_from_index(i),
            r matches Some(v) ==> v.spec_index() == i,
            r is None <==> i >= 104,
    {
        reveal(PokemonVolatileStatus::spec_index);
        reveal(PokemonVolatileStatus::spec_from_index);
        match i {
            0 => Some(PokemonVolatileStatus::NONE),
            1 => Some(PokemonVolatileStatus::AQUARING),
            2 => Some(PokemonVolatileStatus::ATTRACT),
            3 => Some(PokemonVolatileStatus::AUTOTOMIZE),
            4 => Some(PokemonVolatileStatus::BANEFULBUNKER),
            5 => Some(PokemonVolatileStatus::BIDE),
            6 => Some(PokemonVolatileStatus::BOUNCE),
            7 => Some(PokemonVolatileStatus::BURNINGBULWARK),
            8 => Some(PokemonVolatileStatus::CHARGE),
            9 => Some(PokemonVolatileStatus::CONFUSION),
            10 => Some(PokemonVolatileStatus::CURSE),
            11 => Some(PokemonVolatileStatus::DEFENSECURL),
            12 => Some(PokemonVolatileStatus::DESTINYBOND),
            13 => Some(PokemonVolatileStatus::DIG),
            14 => Some(PokemonVolatileStatus::DISABLE),
            15 => Some(PokemonVolatileStatus::DIVE),
            16 => Some(PokemonVolatileStatus::ELECTRIFY),
            17 => Some(PokemonVolatileStatus::ELECTROSHOT),
            18 => Some(PokemonVolatileStatus::EMBARGO),
            19 => Some(PokemonVolatileStatus::ENCORE),
            20 => Some(PokemonVolatileStatus::ENDURE),
            21 => Some(PokemonVolatileStatus::FLASHFIRE),
            22 => Some(PokemonVolatileStatus::FLINCH),
            23 => Some(PokemonVolatileStatus::FLY),
            24 => Some(PokemonVolatileStatus::FOCUSENERGY),
            25 => Some(PokemonVolatileStatus::FOLLOWME),
            26 => Some(PokemonVolatileStatus::FORESIGHT),
            27 => Some(PokemonVolatileStatus::FREEZESHOCK),
            28 => Some(PokemonVolatileStatus::GASTROACID),
            29 => Some(PokemonVolatileStatus::GEOMANCY),
            30 => Some(PokemonVolatileStatus::GLAIVERUSH),
            31 => Some(PokemonVolatileStatus::GRUDGE),
            32 => Some(PokemonVolatileStatus::HEALBLOCK),
            33 => Some(PokemonVolatileStatus::HELPINGHAND),
            34 => Some(PokemonVolatileStatus::ICEBURN),
            35 => Some(PokemonVolatileStatus::IMPRISON),
            36 => Some(PokemonVolatileStatus::INGRAIN),
            37 => Some(PokemonVolatileStatus::KINGSSHIELD),
            38 => Some(PokemonVolatileStatus::LASERFOCUS),
            39 => Some(PokemonVolatileStatus::LEECHSEED),
            40 => Some(PokemonVolatileStatus::LIGHTSCREEN),
            41 => Some(PokemonVolatileStatus::LOCKEDMOVE),
            42 => Some(PokemonVolatileStatus::MAGICCOAT),
            43 => Some(PokemonVolatileStatus::MAGNETRISE),
            44 => Some(PokemonVolatileStatus::MAXGUARD),
            45 => Some(PokemonVolatileStatus::METEORBEAM),
            46 => Some(PokemonVolatileStatus::MINIMIZE),
            47 => Some(PokemonVolatileStatus::MIRACLEEYE),
            48 => Some(PokemonVolatileStatus::MUSTRECHARGE),
            49 => Some(PokemonVolatileStatus::NIGHTMARE),
            50 => Some(PokemonVolatileStatus::NORETREAT),
            51 => Some(PokemonVolatileStatus::OCTOLOCK),
            52 => Some(PokemonVolatileStatus::PARTIALLYTRAPPED),
            53 => Some(PokemonVolatileStatus::PERISH4),
            54 => Some(PokemonVolatileStatus::PERISH3),
            55 => Some(PokemonVolatileStatus::PERISH2),
            56 => Some(PokemonVolatileStatus::PERISH1),
            57 => Some(PokemonVolatileStatus::PHANTOMFORCE),
            58 => Some(PokemonVolatileStatus::POWDER),
            59 => Some(PokemonVolatileStatus::POWERSHIFT),
            60 => Some(PokemonVolatileStatus::POWERTRICK),
            61 => Some(PokemonVolatileStatus::PROTECT),
            62 => Some(PokemonVolatileStatus::PROTOSYNTHESISATK),
            63 => Some(PokemonVolatileStatus::PROTOSYNTHESISDEF),
            64 => Some(PokemonVolatileStatus::PROTOSYNTHESISSPA),
            65 => Some(PokemonVolatileStatus::PROTOSYNTHESISSPD),
            66 => Some(PokemonVolatileStatus::PROTOSYNTHESISSPE),
            67 => Some(PokemonVolatileStatus::QUARKDRIVEATK),
            68 => Some(PokemonVolatileStatus::QUARKDRIVEDEF),
            69 => Some(PokemonVolatileStatus::QUARKDRIVESPA),
            70 => Some(PokemonVolatileStatus::QUARKDRIVESPD),
            71 => Some(PokemonVolatileStatus::QUARKDRIVESPE),
            72 => Some(PokemonVolatileStatus::RAGE),
            73 => Some(PokemonVolatileStatus::RAGEPOWDER),
            74 => Some(PokemonVolatileStatus::RAZORWIND),
            75 => Some(PokemonVolatileStatus::REFLECT),
            76 => Some(PokemonVolatileStatus::ROOST),
            77 => Some(PokemonVolatileStatus::SALTCURE),
            78 => Some(PokemonVolatileStatus::SHADOWFORCE),
            79 => Some(PokemonVolatileStatus::SKULLBASH),
            80 => Some(PokemonVolatileStatus::SKYATTACK),
            81 => Some(PokemonVolatileStatus::SKYDROP),
            82 => Some(PokemonVolatileStatus::SILKTRAP),
            83 => Some(PokemonVolatileStatus::SLOWSTART),
            84 => Some(PokemonVolatileStatus::SMACKDOWN),
            85 => Some(PokemonVolatileStatus::SNATCH),
            86 => Some(PokemonVolatileStatus::SOLARBEAM),
            87 => Some(PokemonVolatileStatus::SOLARBLADE),
            88 => Some(PokemonVolatileStatus::SPARKLINGARIA),
            89 => Some(PokemonVolatileStatus::SPIKYSHIELD),
            90 => Some(PokemonVolatileStatus::SPOTLIGHT),
            91 => Some(PokemonVolatileStatus::STOCKPILE),
            92 => Some(PokemonVolatileStatus::SUBSTITUTE),
            93 => Some(PokemonVolatileStatus::SYRUPBOMB),
            94 => Some(PokemonVolatileStatus::TARSHOT),
            95 => Some(PokemonVolatileStatus::TAUNT),
            96 => Some(PokemonVolatileStatus::TELEKINESIS),
            97 => Some(PokemonVolatileStatus::THROATCHOP),
            98 => Some(PokemonVolatileStatus::TRUANT),
            99 => Some(PokemonVolatileStatus::TORMENT),
            100 => Some(PokemonVolatileStatus::TYPECHANGE),
            101 => Some(PokemonVolatileStatus::UNBURDEN),
            102 => Some(PokemonVolatileStatus::UPROAR),
            103 => Some(PokemonVolatileStatus::YAWN),
            _ => None,
        }
    }
}
/// The single bit `i` of a 128-bit word.
pub open spec fn bit(i: u8) -> u128 {
    1u128 << (i as u128)
}

/// Whether bit `i` of `bits` is set.
pub open spec fn bit_is_set(bits: u128, i: u8) -> bool {
    (bits >> (i as u128)) & 1u128 == 1u128
}

proof fn lemma_set_bit(b: u128, i: u128, j: u128)
    requires
        i < 128,
        j < 128,
    ensures
        ((b | (1u128 << i)) >> j) & 1u128 == 1u128 <==> (i == j || (b >> j) & 1u128 == 1u128),
{
    assert(((b | (1u128 << i)) >> j) & 1u128 == 1u128 <==> (i == j || (b >> j) & 1u128 == 1u128))
        by (bit_vector)
        requires i < 128, j < 128;
}

proof fn lemma_clear_bit(b: u128, i: u128, j: u128)
    requires
        i < 128,
        j < 128,
    ensures
        ((b & !(1u128 << i)) >> j) & 1u128 == 1u128 <==> (i != j && (b >> j) & 1u128 == 1u128),
{
    assert(((b & !(1u128 << i)) >> j) & 1u128 == 1u128 <==> (i != j && (b >> j) & 1u128 == 1u128))
        by (bit_vector)
        requires i < 128, j < 128;
}

/// Setting a bit that was clear and clearing it again gives the word back,
/// and so does clearing a bit that was set and setting it again.
pub proof fn lemma_bit_round_trips(b: u128, i: u8)
    requires
        i < 128,
    ensures
        !bit_is_set(b, i) ==> (b | bit(i)) & !bit(i) == b,
        bit_is_set(b, i) ==> (b & !bit(i)) | bit(i) == b,
{
    let ii: u128 = i as u128;
    assert((b >> ii) & 1u128 != 1u128 ==> (b | (1u128 << ii)) & !(1u128 << ii) == b)
        by (bit_vector)
        requires ii < 128;
    assert((b >> ii) & 1u128 == 1u128 ==> (b & !(1u128 << ii)) | (1u128 << ii) == b)
        by (bit_vector)
        requires ii < 128;
}

/// The set of volatile statuses on a Pokemon, one bit per status.
#[derive(Clone, Copy, PartialEq, Eq, Debug, Structural)]
pub struct VolatileStatusBitset {
    pub bits: u128,
}

impl VolatileStatusBitset {
    #[verifier::opaque]
    pub open spec fn spec_contains(self, v: PokemonVolatileStatus) -> bool {
        bit_is_set(self.bits, v.spec_index())
    }

    #[verifier::opaque]
    pub open spec fn spec_insert(self, v: PokemonVolatileStatus) -> VolatileStatusBitset {
        VolatileStatusBitset { bits: self.bits | bit(v.spec_index()) }
    }

    #[verifier::opaque]
    pub open spec fn spec_remove(self, v: PokemonVolatileStatus) -> VolatileStatusBitset {
        VolatileStatusBitset { bits: self.bits & !bit(v.spec_index()) }
    }

    pub open spec fn spec_empty() -> VolatileStatusBitset {
        VolatileStatusBitset { bits: 0 }
    }

    pub fn new() -> (r: VolatileStatusBitset)
        ensures r == Self::spec_empty(),
    {
        VolatileStatusBitset { bits: 0 }
    }

    pub fn contains(&self, v: &PokemonVolatileStatus) -> (r: bool)
        ensures r == self.spec_contains(*v),
    {
        reveal(VolatileStatusBitset::spec_contains);
        reveal(VolatileStatusBitset::spec_insert);
        reveal(VolatileStatusBitset::spec_remove);
        let i = v.index();
        (self.bits >> i) & 1u128 == 1u128
    }

    /// Adds `v`; says whether it was absent before.
    pub fn insert(&mut self, v: PokemonVolatileStatus) -> (r: bool)
        ensures
            *final(self) == old(self).spec_insert(v),
            r == !old(self).spec_contains(v),
    {
        reveal(VolatileStatusBitset::spec_contains);
        reveal(VolatileStatusBitset::spec_insert);
        reveal(VolatileStatusBitset::spec_remove);
        let i = v.index();
        let was = (self.bits >> i) & 1u128 == 1u128;
        self.bits = self.bits | (1u128 << i);
        !was
    }

    /// Removes `v`; says whether it was present before.
    pub fn remove(&mut self, v: &PokemonVolatileStatus) -> (r: bool)
        ensures
            *final(self) == old(self).spec_remove(*v),
            r == old(self).spec_contains(*v),
    {
        reveal(VolatileStatusBitset::spec_contains);
        reveal(VolatileStatusBitset::spec_insert);
        reveal(VolatileStatusBitset::spec_remove);
        let i = v.index();
        let was = (self.bits >> i) & 1u128 == 1u128;
        self.bits = self.bits & !(1u128 << i);
        was
    }

    pub proof fn lemma_insert_then_remove(self, v: PokemonVolatileStatus)
        requires
            !self.spec_contains(v),
        ensures
            self.spec_insert(v).spec_contains(v),
            self.spec_insert(v).spec_remove(v) == self,
    {
        reveal(VolatileStatusBitset::spec_contains);
        reveal(VolatileStatusBitset::spec_insert);
        reveal(VolatileStatusBitset::spec_remove);
        lemma_index_injective(v, v);
        lemma_bit_round_trips(self.bits, v.spec_index());
        self.lemma_insert_contains(v, v);
    }

    pub proof fn lemma_remove_then_insert(self, v: PokemonVolatileStatus)
        requires
            self.spec_contains(v),
        ensures
            !self.spec_remove(v).spec_contains(v),
            self.spec_remove(v).spec_insert(v) == self,
    {
        reveal(VolatileStatusBitset::spec_contains);
        reveal(VolatileStatusBitset::spec_insert);
        reveal(VolatileStatusBitset::spec_remove);
        lemma_index_injective(v, v);
        lemma_bit_round_trips(self.bits, v.spec_index());
        self.lemma_remove_contains(v, v);
    }

    pub proof fn lemma_insert_contains(self, v: PokemonVolatileStatus, w: PokemonVolatileStatus)
        ensures
            self.spec_insert(v).spec_contains(w) <==> (v == w || self.spec_contains(w)),
    {
        reveal(VolatileStatusBitset::spec_contains);
        reveal(VolatileStatusBitset::spec_insert);
        reveal(VolatileStatusBitset::spec_remove);
        lemma_index_injective(v, w);
        lemma_index_injective(w, v);
        lemma_set_bit(self.bits, v.spec_index() as u128, w.spec_index() as u128);
    }

    pub proof fn lemma_remove_contains(self, v: PokemonVolatileStatus, w: PokemonVolatileStatus)
        ensures
            self.spec_remove(v).spec_contains(w) <==> (v != w && self.spec_contains(w)),
    {
        reveal(VolatileStatusBitset::spec_contains);
        reveal(VolatileStatusBitset::spec_insert);
        reveal(VolatileStatusBitset::spec_remove);
        lemma_index_injective(v, w);
        lemma_index_injective(w, v);
        lemma_clear_bit(self.bits, v.spec_index() as u128, w.spec_index() as u128);
    }
}

/// Two statuses with the same bit are the same status.
pub proof fn lemma_index_injective(v: PokemonVolatileStatus, w: PokemonVolatileStatus)
    ensures
        v.spec_index() == w.spec_index() <==> v == w,
        v.spec_index() < 104,
{
    reveal(PokemonVolatileStatus::spec_index);
    reveal(PokemonVolatileStatus::spec_from_index);
    assert(PokemonVolatileStatus::spec_from_index(v.spec_index()) == Some(v));
    assert(PokemonVolatileStatus::spec_from_index(w.spec_index()) == Some(w));
}

/// The weather.
#[derive(Clone, Copy, PartialEq, Eq, Debug, Hash, Structural)]
pub enum Weather {
    NONE,
    SUN,
    RAIN,
    SAND,
    HAIL,
    SNOW,
    HARSHSUN,
    HEAVYRAIN,
}

/// The terrain.
#[derive(Clone, Copy, PartialEq, Eq, Debug, Hash, Structural)]
pub enum Terrain {
    NONE,
    ELECTRICTERRAIN,
    PSYCHICTERRAIN,
    MISTYTERRAIN,
    GRASSYTERRAIN,
}

/// A stat that boosts can raise or lower.
#[derive(Clone, Copy, PartialEq, Eq, Debug, Hash, Structural)]
pub enum PokemonBoostableStat {
    Attack,
    Defense,
    SpecialAttack,
    SpecialDefense,
    Speed,
    Evasion,
    Accuracy,
}

/// A condition on one side of the field, counted in layers or turns.
#[derive(Clone, Copy, PartialEq, Eq, Debug, Hash, Structural)]
pub enum PokemonSideCondition {
    AuroraVeil,
    CraftyShield,
    HealingWish,
    LightScreen,
    LuckyChant,
    LunarDance,
    MatBlock,
    Mist,
    Protect,
    QuickGuard,
    Reflect,
    Safeguard,
    Spikes,
    Stealthrock,
    StickyWeb,
    Tailwind,
    ToxicCount,
    ToxicSpikes,
    WideGuard,
}

/// What the active Pokemon did last: used a move, switched in, or nothing yet.
#[derive(Clone, Copy, PartialEq, Eq, Debug, Hash, Structural)]
pub enum LastUsedMove {
    Move(PokemonMoveIndex),
    Switch(PokemonIndex),
    Nothing,
}

/// An active slot on the field: a side and a slot on it.
#[derive(Clone, Copy, PartialEq, Eq, Debug, Hash, Structural)]
pub struct BattlePosition {
    pub side: SideReference,
    pub slot: u8,
}

impl BattlePosition {
    pub fn new(side: SideReference, slot: u8) -> (r: BattlePosition)
        ensures r == (BattlePosition { side, slot }),
    {
        BattlePosition { side, slot }
    }
}

/// Which side acts first in a turn.
#[derive(Clone, Copy, PartialEq, Eq, Debug, Hash, Structural)]
pub enum SideMovesFirst {
    SideOne,
    SideTwo,
    SpeedTie,
}

/// The turn counters kept for volatile statuses that last a number of turns.
#[derive(Clone, Copy, PartialEq, Eq, Debug, Hash, Structural)]
pub struct VolatileStatusDurations {
    pub confusion: i8,
    pub encore: i8,
    pub lockedmove: i8,
    pub slowstart: i8,
    pub taunt: i8,
    pub yawn: i8,
}

/// The damage the active Pokemon dealt with its last move.
#[derive(Clone, Copy, PartialEq, Eq, Debug, Hash, Structural)]
pub struct DamageDealt {
    pub damage: i16,
    pub move_category: MoveCategory,
    pub hit_substitute: bool,
}

/// A move a Pokemon knows.
#[derive(Clone, Copy, PartialEq, Eq, Debug, Structural)]
pub struct Move {
    pub id: Choices,
    pub disabled: bool,
    pub pp: i8,
    /// The category of the move: physical, special or status.
    pub category: MoveCategory,
}

impl Move {
    pub open spec fn spec_default() -> Move {
        Move { id: Choices::NONE, disabled: false, pp: 32, category: MoveCategory::Status }
    }
}

impl Default for Move {
    fn default() -> (r: Move)
        ensures r == Move::spec_default(),
    {
        Move { id: Choices::NONE, disabled: false, pp: 32, category: MoveCategory::Status }
    }
}

/// The four moves of a Pokemon.
#[derive(Clone, Copy, PartialEq, Eq, Debug, Structural)]
pub struct PokemonMoves {
    pub m0: Move,
    pub m1: Move,
    pub m2: Move,
    pub m3: Move,
}

impl PokemonMoves {
    pub open spec fn spec_get(self, i: PokemonMoveIndex) -> Move {
        match i {
            PokemonMoveIndex::M0 => self.m0,
            PokemonMoveIndex::M1 => self.m1,
            PokemonMoveIndex::M2 => self.m2,
            PokemonMoveIndex::M3 => self.m3,
        }
    }

    pub open spec fn spec_set(self, i: PokemonMoveIndex, m: Move) -> PokemonMoves {
        match i {
            PokemonMoveIndex::M0 => PokemonMoves { m0: m, ..self },
            PokemonMoveIndex::M1 => PokemonMoves { m1: m, ..self },
            PokemonMoveIndex::M2 => PokemonMoves { m2: m, ..self },
            PokemonMoveIndex::M3 => PokemonMoves { m3: m, ..self },
        }
    }

    pub fn get(&self, i: PokemonMoveIndex) -> (r: &Move)
        ensures *r == self.spec_get(i),
    {
        match i {
            PokemonMoveIndex::M0 => &self.m0,
            PokemonMoveIndex::M1 => &self.m1,
            PokemonMoveIndex::M2 => &self.m2,
            PokemonMoveIndex::M3 => &self.m3,
        }
    }

    pub fn get_mut(&mut self, i: PokemonMoveIndex) -> (r: &mut Move)
        ensures
            *r == old(self).spec_get(i),
            *final(self) == old(self).spec_set(i, *final(r)),
    {
        match i {
            PokemonMoveIndex::M0 => &mut self.m0,
            PokemonMoveIndex::M1 => &mut self.m1,
            PokemonMoveIndex::M2 => &mut self.m2,
            PokemonMoveIndex::M3 => &mut self.m3,
        }
    }
}

/// A Pokemon: its species, stats, status, moves, and the state it carries
/// while active (boosts, volatile statuses and their counters).
#[derive(Clone, Copy, PartialEq, Eq, Debug)]
pub struct Pokemon {
    pub id: PokemonName,
    pub level: i8,
    pub types: (PokemonType, PokemonType),
    pub base_types: (PokemonType, PokemonType),
    pub hp: i16,
    pub maxhp: i16,
    pub ability: Abilities,
    pub base_ability: Abilities,
    pub item: Items,
    pub evs: (u8, u8, u8, u8, u8, u8),
    pub attack: i16,
    pub defense: i16,
    pub special_attack: i16,
    pub special_defense: i16,
    pub speed: i16,
    pub status: PokemonStatus,
    pub rest_turns: i8,
    pub sleep_turns: i8,
    pub moves: PokemonMoves,
    pub terastallized: bool,
    pub tera_type: PokemonType,
    pub attack_boost: i8,
    pub defense_boost: i8,
    pub special_attack_boost: i8,
    pub special_defense_boost: i8,
    pub speed_boost: i8,
    pub accuracy_boost: i8,
    pub evasion_boost: i8,
    pub volatile_statuses: VolatileStatusBitset,
    pub volatile_status_durations: VolatileStatusDurations,
    pub last_used_move: LastUsedMove,
    pub damage_dealt: DamageDealt,
}

/// The largest stat or hit point value this engine takes: four times it
/// still fits the 16-bit arithmetic that boosts are computed in.
pub const MAX_STAT: i16 = 4095;

/// The highest number of turns a Pokemon sleeps (not counting Rest).
pub const MAX_SLEEP_TURNS: i8 = 3;

impl Pokemon {
    pub open spec fn spec_default() -> Pokemon {
        Pokemon {
            id: PokemonName::NONE,
            level: 100,
            types: (PokemonType::NORMAL, PokemonType::TYPELESS),
            base_types: (PokemonType::NORMAL, PokemonType::TYPELESS),
            hp: 100,
            maxhp: 100,
            ability: Abilities::NONE,
            base_ability: Abilities::NONE,
            item: Items::NONE,
            evs: (85, 85, 85, 85, 85, 85),
            attack: 100,
            defense: 100,
            special_attack: 100,
            special_defense: 100,
            speed: 100,
            status: PokemonStatus::NONE,
            rest_turns: 0,
            sleep_turns: 0,
            moves: PokemonMoves {
                m0: Move::spec_default(),
                m1: Move::spec_default(),
                m2: Move::spec_default(),
                m3: Move::spec_default(),
            },
            terastallized: false,
            tera_type: PokemonType::NORMAL,
            attack_boost: 0,
            defense_boost: 0,
            special_attack_boost: 0,
            special_defense_boost: 0,
            speed_boost: 0,
            accuracy_boost: 0,
            evasion_boost: 0,
            volatile_statuses: VolatileStatusBitset::spec_empty(),
            volatile_status_durations: VolatileStatusDurations {
                confusion: 0,
                encore: 0,
                lockedmove: 0,
                slowstart: 0,
                taunt: 0,
                yawn: 0,
            },
            last_used_move: LastUsedMove::Nothing,
            damage_dealt: DamageDealt {
                damage: 0,
                move_category: MoveCategory::Physical,
                hit_substitute: false,
            },
        }
    }

    /// Hit points between 0 and the maximum.
    pub open spec fn spec_hp_ok(self) -> bool {
        0 <= self.hp <= self.maxhp
    }

    /// Every boost between -6 and +6.
    pub open spec fn spec_boosts_ok(self) -> bool {
        &&& -6 <= self.attack_boost <= 6
        &&& -6 <= self.defense_boost <= 6
        &&& -6 <= self.special_attack_boost <= 6
        &&& -6 <= self.special_defense_boost <= 6
        &&& -6 <= self.speed_boost <= 6
        &&& -6 <= self.accuracy_boost <= 6
        &&& -6 <= self.evasion_boost <= 6
    }

    /// The values this engine's arithmetic is made for.
    pub open spec fn spec_wf(self) -> bool {
        &&& self.spec_hp_ok()
        &&& self.spec_boosts_ok()
        &&& self.maxhp <= MAX_STAT
        &&& 0 <= self.attack <= MAX_STAT
        &&& 0 <= self.defense <= MAX_STAT
        &&& 0 <= self.special_attack <= MAX_STAT
        &&& 0 <= self.special_defense <= MAX_STAT
        &&& 0 <= self.speed <= MAX_STAT
        &&& 0 <= self.level <= 100
        &&& 0 <= self.rest_turns <= 3
        &&& 0 <= self.sleep_turns <= MAX_SLEEP_TURNS
        &&& 0 <= self.volatile_status_durations.slowstart <= 10
        &&& 0 <= self.volatile_status_durations.lockedmove <= 2
        &&& 0 <= self.volatile_status_durations.yawn <= 1
        &&& 0 <= self.volatile_status_durations.taunt <= 10
        &&& 0 <= self.volatile_status_durations.encore <= 10
        &&& 0 <= self.volatile_status_durations.confusion <= 10
    }
}

impl Default for Pokemon {
    fn default() -> (r: Pokemon)
        ensures r == Pokemon::spec_default(),
    {
        Pokemon {
            id: PokemonName::NONE,
            level: 100,
            types: (PokemonType::NORMAL, PokemonType::TYPELESS),
            base_types: (PokemonType::NORMAL, PokemonType::TYPELESS),
            hp: 100,
            maxhp: 100,
            ability: Abilities::NONE,
            base_ability: Abilities::NONE,
            item: Items::NONE,
            evs: (85, 85, 85, 85, 85, 85),
            attack: 100,
            defense: 100,
            special_attack: 100,
            special_defense: 100,
            speed: 100,
            status: PokemonStatus::NONE,
            rest_turns: 0,
            sleep_turns: 0,
            moves: PokemonMoves {
                m0: Move::default(),
                m1: Move::default(),
                m2: Move::default(),
                m3: Move::default(),
            },
            terastallized: false,
            tera_type: PokemonType::NORMAL,
            attack_boost: 0,
            defense_boost: 0,
            special_attack_boost: 0,
            special_defense_boost: 0,
            speed_boost: 0,
            accuracy_boost: 0,
            evasion_boost: 0,
            volatile_statuses: VolatileStatusBitset::new(),
            volatile_status_durations: VolatileStatusDurations {
                confusion: 0,
                encore: 0,
                lockedmove: 0,
                slowstart: 0,
                taunt: 0,
                yawn: 0,
            },
            last_used_move: LastUsedMove::Nothing,
            damage_dealt: DamageDealt {
                damage: 0,
                move_category: MoveCategory::Physical,
                hit_substitute: false,
            },
        }
    }
}

/// The six Pokemon of a side.
#[derive(Clone, Copy, PartialEq, Eq, Debug)]
pub struct SidePokemon {
    pub p0: Pokemon,
    pub p1: Pokemon,
    pub p2: Pokemon,
    pub p3: Pokemon,
    pub p4: Pokemon,
    pub p5: Pokemon,
}

impl SidePokemon {
    #[verifier::opaque]
    pub open spec fn spec_get(self, i: PokemonIndex) -> Pokemon {
        match i {
            PokemonIndex::P0 => self.p0,
            PokemonIndex::P1 => self.p1,
            PokemonIndex::P2 => self.p2,
            PokemonIndex::P3 => self.p3,
            PokemonIndex::P4 => self.p4,
            PokemonIndex::P5 => self.p5,
        }
    }

    #[verifier::opaque]
    pub open spec fn spec_set(self, i: PokemonIndex, p: Pokemon) -> SidePokemon {
        match i {
            PokemonIndex::P0 => SidePokemon { p0: p, ..self },
            PokemonIndex::P1 => SidePokemon { p1: p, ..self },
            PokemonIndex::P2 => SidePokemon { p2: p, ..self },
            PokemonIndex::P3 => SidePokemon { p3: p, ..self },
            PokemonIndex::P4 => SidePokemon { p4: p, ..self },
            PokemonIndex::P5 => SidePokemon { p5: p, ..self },
        }
    }

    pub open spec fn spec_all(self, f: spec_fn(Pokemon) -> bool) -> bool {
        f(self.p0) && f(self.p1) && f(self.p2) && f(self.p3) && f(self.p4) && f(self.p5)
    }

    pub fn get(&self, i: PokemonIndex) -> (r: &Pokemon)
        ensures *r == self.spec_get(i),
    {
        reveal(SidePokemon::spec_get);
        match i {
            PokemonIndex::P0 => &self.p0,
            PokemonIndex::P1 => &self.p1,
            PokemonIndex::P2 => &self.p2,
            PokemonIndex::P3 => &self.p3,
            PokemonIndex::P4 => &self.p4,
            PokemonIndex::P5 => &self.p5,
        }
    }

    pub fn get_mut(&mut self, i: PokemonIndex) -> (r: &mut Pokemon)
        ensures
            *r == old(self).spec_get(i),
            *final(self) == old(self).spec_set(i, *final(r)),
            final(self).spec_get(i) == *final(r),
    {
        reveal(SidePokemon::spec_get);
        reveal(SidePokemon::spec_set);
        match i {
            PokemonIndex::P0 => &mut self.p0,
            PokemonIndex::P1 => &mut self.p1,
            PokemonIndex::P2 => &mut self.p2,
            PokemonIndex::P3 => &mut self.p3,
            PokemonIndex::P4 => &mut self.p4,
            PokemonIndex::P5 => &mut self.p5,
        }
    }
}

/// The layers and turn counts of the conditions on a side.
#[derive(Clone, Copy, PartialEq, Eq, Debug, Structural)]
pub struct SideConditions {
    pub aurora_veil: i8,
    pub crafty_shield: i8,
    pub healing_wish: i8,
    pub light_screen: i8,
    pub lucky_chant: i8,
    pub lunar_dance: i8,
    pub mat_block: i8,
    pub mist: i8,
    pub protect: i8,
    pub quick_guard: i8,
    pub reflect: i8,
    pub safeguard: i8,
    pub spikes: i8,
    pub stealth_rock: i8,
    pub sticky_web: i8,
    pub tailwind: i8,
    pub toxic_count: i8,
    pub toxic_spikes: i8,
    pub wide_guard: i8,
}

impl SideConditions {
    pub open spec fn spec_default() -> SideConditions {
        SideConditions {
            aurora_veil: 0,
            crafty_shield: 0,
            healing_wish: 0,
            light_screen: 0,
            lucky_chant: 0,
            lunar_dance: 0,
            mat_block: 0,
            mist: 0,
            protect: 0,
            quick_guard: 0,
            reflect: 0,
            safeguard: 0,
            spikes: 0,
            stealth_rock: 0,
            sticky_web: 0,
            tailwind: 0,
            toxic_count: 0,
            toxic_spikes: 0,
            wide_guard: 0,
        }
    }

    #[verifier::opaque]
    pub open spec fn spec_get(self, c: PokemonSideCondition) -> i8 {
        match c {
            PokemonSideCondition::AuroraVeil => self.aurora_veil,
            PokemonSideCondition::CraftyShield => self.crafty_shield,
            PokemonSideCondition::HealingWish => self.healing_wish,
            PokemonSideCondition::LightScreen => self.light_screen,
            PokemonSideCondition::LuckyChant => self.lucky_chant,
            PokemonSideCondition::LunarDance => self.lunar_dance,
            PokemonSideCondition::MatBlock => self.mat_block,
            PokemonSideCondition::Mist => self.mist,
            PokemonSideCondition::Protect => self.protect,
            PokemonSideCondition::QuickGuard => self.quick_guard,
            PokemonSideCondition::Reflect => self.reflect,
            PokemonSideCondition::Safeguard => self.safeguard,
            PokemonSideCondition::Spikes => self.spikes,
            PokemonSideCondition::Stealthrock => self.stealth_rock,
            PokemonSideCondition::StickyWeb => self.sticky_web,
            PokemonSideCondition::Tailwind => self.tailwind,
            PokemonSideCondition::ToxicCount => self.toxic_count,
            PokemonSideCondition::ToxicSpikes => self.toxic_spikes,
            PokemonSideCondition::WideGuard => self.wide_guard,
        }
    }

    #[verifier::opaque]
    pub open spec fn spec_set(self, c: PokemonSideCondition, v: i8) -> SideConditions {
        match c {
            PokemonSideCondition::AuroraVeil => SideConditions { aurora_veil: v, ..self },
            PokemonSideCondition::CraftyShield => SideConditions { crafty_shield: v, ..self },
            PokemonSideCondition::HealingWish => SideConditions { healing_wish: v, ..self },
            PokemonSideCondition::LightScreen => SideConditions { light_screen: v, ..self },
            PokemonSideCondition::LuckyChant => SideConditions { lucky_chant: v, ..self },
            PokemonSideCondition::LunarDance => SideConditions { lunar_dance: v, ..self },
            PokemonSideCondition::MatBlock => SideConditions { mat_block: v, ..self },
            PokemonSideCondition::Mist => SideConditions { mist: v, ..self },
            PokemonSideCondition::Protect => SideConditions { protect: v, ..self },
            PokemonSideCondition::QuickGuard => SideConditions { quick_guard: v, ..self },
            PokemonSideCondition::Reflect => SideConditions { reflect: v, ..self },
            PokemonSideCondition::Safeguard => SideConditions { safeguard: v, ..self },
            PokemonSideCondition::Spikes => SideConditions { spikes: v, ..self },
            PokemonSideCondition::Stealthrock => SideConditions { stealth_rock: v, ..self },
            PokemonSideCondition::StickyWeb => SideConditions { sticky_web: v, ..self },
            PokemonSideCondition::Tailwind => SideConditions { tailwind: v, ..self },
            PokemonSideCondition::ToxicCount => SideConditions { toxic_count: v, ..self },
            PokemonSideCondition::ToxicSpikes => SideConditions { toxic_spikes: v, ..self },
            PokemonSideCondition::WideGuard => SideConditions { wide_guard: v, ..self },
        }
    }

    /// Every count between 0 and 100.
    pub open spec fn spec_wf(self) -> bool {
        forall|c: PokemonSideCondition| 0 <= #[trigger] self.spec_get(c) <= 100
    }

    pub fn get(&self, c: PokemonSideCondition) -> (r: i8)
        ensures r == self.spec_get(c),
    {
        reveal(SideConditions::spec_get);
        match c {
            PokemonSideCondition::AuroraVeil => self.aurora_veil,
            PokemonSideCondition::CraftyShield => self.crafty_shield,
            PokemonSideCondition::HealingWish => self.healing_wish,
            PokemonSideCondition::LightScreen => self.light_screen,
            PokemonSideCondition::LuckyChant => self.lucky_chant,
            PokemonSideCondition::LunarDance => self.lunar_dance,
            PokemonSideCondition::MatBlock => self.mat_block,
            PokemonSideCondition::Mist => self.mist,
            PokemonSideCondition::Protect => self.protect,
            PokemonSideCondition::QuickGuard => self.quick_guard,
            PokemonSideCondition::Reflect => self.reflect,
            PokemonSideCondition::Safeguard => self.safeguard,
            PokemonSideCondition::Spikes => self.spikes,
            PokemonSideCondition::Stealthrock => self.stealth_rock,
            PokemonSideCondition::StickyWeb => self.sticky_web,
            PokemonSideCondition::Tailwind => self.tailwind,
            PokemonSideCondition::ToxicCount => self.toxic_count,
            PokemonSideCondition::ToxicSpikes => self.toxic_spikes,
            PokemonSideCondition::WideGuard => self.wide_guard,
        }
    }

    pub fn set(&mut self, c: PokemonSideCondition, v: i8)
        ensures *final(self) == old(self).spec_set(c, v),
    {
        reveal(SideConditions::spec_set);
        match c {
            PokemonSideCondition::AuroraVeil => self.aurora_veil = v,
            PokemonSideCondition::CraftyShield => self.crafty_shield = v,
            PokemonSideCondition::HealingWish => self.healing_wish = v,
            PokemonSideCondition::LightScreen => self.light_screen = v,
            PokemonSideCondition::LuckyChant => self.lucky_chant = v,
            PokemonSideCondition::LunarDance => self.lunar_dance = v,
            PokemonSideCondition::MatBlock => self.mat_block = v,
            PokemonSideCondition::Mist => self.mist = v,
            PokemonSideCondition::Protect => self.protect = v,
            PokemonSideCondition::QuickGuard => self.quick_guard = v,
            PokemonSideCondition::Reflect => self.reflect = v,
            PokemonSideCondition::Safeguard => self.safeguard = v,
            PokemonSideCondition::Spikes => self.spikes = v,
            PokemonSideCondition::Stealthrock => self.stealth_rock = v,
            PokemonSideCondition::StickyWeb => self.sticky_web = v,
            PokemonSideCondition::Tailwind => self.tailwind = v,
            PokemonSideCondition::ToxicCount => self.toxic_count = v,
            PokemonSideCondition::ToxicSpikes => self.toxic_spikes = v,
            PokemonSideCondition::WideGuard => self.wide_guard = v,
        }
    }
}

impl Default for SideConditions {
    fn default() -> (r: SideConditions)
        ensures r == SideConditions::spec_default(),
    {
        SideConditions {
            aurora_veil: 0,
            crafty_shield: 0,
            healing_wish: 0,
            light_screen: 0,
            lucky_chant: 0,
            lunar_dance: 0,
            mat_block: 0,
            mist: 0,
            protect: 0,
            quick_guard: 0,
            reflect: 0,
            safeguard: 0,
            spikes: 0,
            stealth_rock: 0,
            sticky_web: 0,
            tailwind: 0,
            toxic_count: 0,
            toxic_spikes: 0,
            wide_guard: 0,
        }
    }
}

/// The number of active Pokemon per side in a singles battle.
pub const ACTIVE_PER_SIDE: usize = 1;

/// One side of the battle.
#[derive(Clone, Copy, PartialEq, Eq, Debug)]
pub struct Side {
    /// The party position of the Pokemon on the field.
    pub active_index: PokemonIndex,
    pub baton_passing: bool,
    pub shed_tailing: bool,
    pub pokemon: SidePokemon,
    pub side_conditions: SideConditions,
    /// Turns until the wish lands, and the hit points it restores.
    pub wish: (i8, i16),
    /// Turns until the future sight lands, and the Pokemon that used it.
    pub future_sight: (i8, PokemonIndex),
    pub force_switch: bool,
    pub force_trapped: bool,
    pub slow_uturn_move: bool,
    pub switch_out_move_second_saved_move: Choices,
}

impl Side {
    pub open spec fn spec_active_index(self) -> PokemonIndex {
        self.active_index
    }

    pub open spec fn spec_active(self) -> Pokemon {
        self.pokemon.spec_get(self.spec_active_index())
    }

    pub open spec fn spec_set_active(self, p: Pokemon) -> Side {
        Side { pokemon: self.pokemon.spec_set(self.spec_active_index(), p), ..self }
    }

    pub open spec fn spec_default() -> Side {
        Side {
            active_index: PokemonIndex::P0,
            baton_passing: false,
            shed_tailing: false,
            pokemon: SidePokemon {
                p0: Pokemon::spec_default(),
                p1: Pokemon::spec_default(),
                p2: Pokemon::spec_default(),
                p3: Pokemon::spec_default(),
                p4: Pokemon::spec_default(),
                p5: Pokemon::spec_default(),
            },
            side_conditions: SideConditions::spec_default(),
            wish: (0, 0),
            future_sight: (0, PokemonIndex::P0),
            force_switch: false,
            force_trapped: false,
            slow_uturn_move: false,
            switch_out_move_second_saved_move: Choices::NONE,
        }
    }

    /// All six Pokemon and the side's counters within the engine's range.
    pub open spec fn spec_wf(self) -> bool {
        &&& self.pokemon.spec_all(|p: Pokemon| p.spec_wf())
        &&& self.side_conditions.spec_wf()
        &&& 0 <= self.wish.0 <= 2
        &&& 0 <= self.wish.1 <= MAX_STAT
        &&& 0 <= self.future_sight.0 <= 3
    }

    pub fn get_active(&mut self) -> (r: &mut Pokemon)
        ensures
            *r == old(self).spec_active(),
            *final(self) == old(self).spec_set_active(*final(r)),
            final(self).spec_active() == *final(r),
            final(self).active_index == old(self).active_index,
            final(self).side_conditions == old(self).side_conditions,
    {
        self.pokemon.get_mut(self.active_index)
    }

    pub fn get_active_immutable(&self) -> (r: &Pokemon)
        ensures *r == self.spec_active(),
    {
        self.pokemon.get(self.active_index)
    }

    /// The active Pokemon in `slot`; a singles side has only slot 0.
    pub fn get_active_slot_immutable(&self, slot: u8) -> (r: &Pokemon)
        requires slot == 0,
        ensures *r == self.spec_active(),
    {
        self.pokemon.get(self.active_index)
    }
}

impl Default for Side {
    fn default() -> (r: Side)
        ensures r == Side::spec_default(),
    {
        Side {
            active_index: PokemonIndex::P0,
            baton_passing: false,
            shed_tailing: false,
            pokemon: SidePokemon {
                p0: Pokemon::default(),
                p1: Pokemon::default(),
                p2: Pokemon::default(),
                p3: Pokemon::default(),
                p4: Pokemon::default(),
                p5: Pokemon::default(),
            },
            side_conditions: SideConditions::default(),
            wish: (0, 0),
            future_sight: (0, PokemonIndex::P0),
            force_switch: false,
            force_trapped: false,
            slow_uturn_move: false,
            switch_out_move_second_saved_move: Choices::NONE,
        }
    }
}

/// The weather and the turns it has left (a negative count lasts until replaced).
#[derive(Clone, Copy, PartialEq, Eq, Debug, Structural)]
pub struct StateWeather {
    pub weather_type: Weather,
    pub turns_remaining: i8,
}

/// The terrain and the turns it has left.
#[derive(Clone, Copy, PartialEq, Eq, Debug, Structural)]
pub struct StateTerrain {
    pub terrain_type: Terrain,
    pub turns_remaining: i8,
}

/// Whether Trick Room is up, and the turns it has left.
#[derive(Clone, Copy, PartialEq, Eq, Debug, Structural)]
pub struct StateTrickRoom {
    pub active: bool,
    pub turns_remaining: i8,
}

/// The whole battle.
#[derive(Clone, Copy, PartialEq, Eq, Debug)]
pub struct State {
    pub side_one: Side,
    pub side_two: Side,
    pub weather: StateWeather,
    pub terrain: StateTerrain,
    pub trick_room: StateTrickRoom,
    pub team_preview: bool,
    pub use_last_used_move: bool,
    pub use_damage_dealt: bool,
}

impl State {
    pub open spec fn spec_default() -> State {
        State {
            side_one: Side::spec_default(),
            side_two: Side::spec_default(),
            weather: StateWeather { weather_type: Weather::NONE, turns_remaining: -1i8 },
            terrain: StateTerrain { terrain_type: Terrain::NONE, turns_remaining: 0 },
            trick_room: StateTrickRoom { active: false, turns_remaining: 0 },
            team_preview: false,
            use_last_used_move: false,
            use_damage_dealt: false,
        }
    }

    #[verifier::opaque]
    pub open spec fn spec_side(self, r: SideReference) -> Side {
        match r {
            SideReference::SideOne => self.side_one,
            SideReference::SideTwo => self.side_two,
        }
    }

    #[verifier::opaque]
    pub open spec fn spec_set_side(self, r: SideReference, s: Side) -> State {
        match r {
            SideReference::SideOne => State { side_one: s, ..self },
            SideReference::SideTwo => State { side_two: s, ..self },
        }
    }

    /// Both sides within the engine's range, and the field counters too.
    pub open spec fn spec_wf(self) -> bool {
        &&& self.side_one.spec_wf()
        &&& self.side_two.spec_wf()
        &&& -1 <= self.weather.turns_remaining <= 100
        &&& 0 <= self.terrain.turns_remaining <= 100
        &&& 0 <= self.trick_room.turns_remaining <= 100
    }

    pub fn get_side(&mut self, r: &SideReference) -> (s: &mut Side)
        ensures
            *s == old(self).spec_side(*r),
            *final(self) == old(self).spec_set_side(*r, *final(s)),
            final(self).spec_side(*r) == *final(s),
    {
        reveal(State::spec_side);
        reveal(State::spec_set_side);
        match r {
            SideReference::SideOne => &mut self.side_one,
            SideReference::SideTwo => &mut self.side_two,
        }
    }

    pub fn get_side_immutable(&self, r: &SideReference) -> (s: &Side)
        ensures *s == self.spec_side(*r),
    {
        reveal(State::spec_side);
        match r {
            SideReference::SideOne => &self.side_one,
            SideReference::SideTwo => &self.side_two,
        }
    }

    /// The side `r` and the other side, in that order.
    pub fn get_both_sides_immutable(&self, r: &SideReference) -> (s: (&Side, &Side))
        ensures
            *s.0 == self.spec_side(*r),
            *s.1 == self.spec_side(r.spec_other()),
    {
        reveal(State::spec_side);
        match r {
            SideReference::SideOne => (&self.side_one, &self.side_two),
            SideReference::SideTwo => (&self.side_two, &self.side_one),
        }
    }
}

impl Default for State {
    fn default() -> (r: State)
        ensures r == State::spec_default(),
    {
        State {
            side_one: Side::default(),
            side_two: Side::default(),
            weather: StateWeather { weather_type: Weather::NONE, turns_remaining: -1i8 },
            terrain: StateTerrain { terrain_type: Terrain::NONE, turns_remaining: 0 },
            trick_room: StateTrickRoom { active: false, turns_remaining: 0 },
            team_preview: false,
            use_last_used_move: false,
            use_damage_dealt: false,
        }
    }
}

} // verus!
