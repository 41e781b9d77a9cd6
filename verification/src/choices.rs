//! Moves: their names, categories, targets and the data of a chosen move.

use vstd::prelude::*;
use crate::state::{PokemonIndex, PokemonMoveIndex, PokemonType, PokemonVolatileStatus, SideReference};

verus! {

/// A move, by name.
#[derive(Clone, Copy, PartialEq, Eq, Debug, Hash, Structural)]
pub enum Choices {
    NONE,
    ABSORB,
    ACID,
    AQUARING,
    ATTRACT,
    AURORAVEIL,
    AVALANCHE,
    AXEKICK,
    BATONPASS,
    BLOODMOON,
    BOUNCE,
    BRAVEBIRD,
    CEASELESSEDGE,
    CHARM,
    CHATTER,
    COMEUPPANCE,
    CONFUSION,
    COUNTER,
    COURTCHANGE,
    CROSSCHOP,
    DEFOG,
    DIG,
    DIVE,
    DRAGONTAIL,
    EARTHQUAKE,
    ELECTROSHOT,
    ENCORE,
    ENDEAVOR,
    EXPLOSION,
    FAKEOUT,
    FINALGAMBIT,
    FIREFANG,
    FIREPUNCH,
    FIRSTIMPRESSION,
    FLY,
    FOCUSPUNCH,
    FREEZESHOCK,
    FUTURESIGHT,
    GEOMANCY,
    GIGATONHAMMER,
    GLARE,
    GRASSYGLIDE,
    ICEBURN,
    JUMPKICK,
    KINESIS,
    KNOCKOFF,
    METALBURST,
    METEORBEAM,
    MIRRORCOAT,
    NATURESMADNESS,
    NIGHTSHADE,
    PAINSPLIT,
    PHANTOMFORCE,
    PROTECT,
    PURSUIT,
    QUICKATTACK,
    RAPIDSPIN,
    RAZORWIND,
    RECOVER,
    REST,
    RUINATION,
    SEISMICTOSS,
    SHADOWFORCE,
    SHEDTAIL,
    SHELLSMASH,
    SKULLBASH,
    SKYATTACK,
    SKYDROP,
    SLEEPTALK,
    SNIPESHOT,
    SOLARBEAM,
    SOLARBLADE,
    SPIKES,
    SPLASH,
    SPORE,
    STEALTHROCK,
    STONEAXE,
    SUBSTITUTE,
    SUCKERPUNCH,
    SUPERFANG,
    SWORDSDANCE,
    TACKLE,
    THUNDERBOLT,
    THUNDERCLAP,
    THUNDERWAVE,
    TIDYUP,
    WATERGUN,
    WHIRLWIND,
}

impl Choices {
    /// The name under which this value is written, in upper case.
    pub open spec fn spec_name(self) -> Seq<char> {
        match self {
            Choices::NONE => "NONE"@,
            Choices::ABSORB => "ABSORB"@,
            Choices::ACID => "ACID"@,
            Choices::AQUARING => "AQUARING"@,
            Choices::ATTRACT => "ATTRACT"@,
            Choices::AURORAVEIL => "AURORAVEIL"@,
            Choices::AVALANCHE => "AVALANCHE"@,
            Choices::AXEKICK => "AXEKICK"@,
            Choices::BATONPASS => "BATONPASS"@,
            Choices::BLOODMOON => "BLOODMOON"@,
            Choices::BOUNCE => "BOUNCE"@,
            Choices::BRAVEBIRD => "BRAVEBIRD"@,
            Choices::CEASELESSEDGE => "CEASELESSEDGE"@,
            Choices::CHARM => "CHARM"@,
            Choices::CHATTER => "CHATTER"@,
            Choices::COMEUPPANCE => "COMEUPPANCE"@,
            Choices::CONFUSION => "CONFUSION"@,
            Choices::COUNTER => "COUNTER"@,
            Choices::COURTCHANGE => "COURTCHANGE"@,
            Choices::CROSSCHOP => "CROSSCHOP"@,
            Choices::DEFOG => "DEFOG"@,
            Choices::DIG => "DIG"@,
            Choices::DIVE => "DIVE"@,
            Choices::DRAGONTAIL => "DRAGONTAIL"@,
            Choices::EARTHQUAKE => "EARTHQUAKE"@,
            Choices::ELECTROSHOT => "ELECTROSHOT"@,
            Choices::ENCORE => "ENCORE"@,
            Choices::ENDEAVOR => "ENDEAVOR"@,
            Choices::EXPLOSION => "EXPLOSION"@,
            Choices::FAKEOUT => "FAKEOUT"@,
            Choices::FINALGAMBIT => "FINALGAMBIT"@,
            Choices::FIREFANG => "FIREFANG"@,
            Choices::FIREPUNCH => "FIREPUNCH"@,
            Choices::FIRSTIMPRESSION => "FIRSTIMPRESSION"@,
            Choices::FLY => "FLY"@,
            Choices::FOCUSPUNCH => "FOCUSPUNCH"@,
            Choices::FREEZESHOCK => "FREEZESHOCK"@,
            Choices::FUTURESIGHT => "FUTURESIGHT"@,
            Choices::GEOMANCY => "GEOMANCY"@,
            Choices::GIGATONHAMMER => "GIGATONHAMMER"@,
            Choices::GLARE => "GLARE"@,
            Choices::GRASSYGLIDE => "GRASSYGLIDE"@,
            Choices::ICEBURN => "ICEBURN"@,
            Choices::JUMPKICK => "JUMPKICK"@,
            Choices::KINESIS => "KINESIS"@,
            Choices::KNOCKOFF => "KNOCKOFF"@,
            Choices::METALBURST => "METALBURST"@,
            Choices::METEORBEAM => "METEORBEAM"@,
            Choices::MIRRORCOAT => "MIRRORCOAT"@,
            Choices::NATURESMADNESS => "NATURESMADNESS"@,
            Choices::NIGHTSHADE => "NIGHTSHADE"@,
            Choices::PAINSPLIT => "PAINSPLIT"@,
            Choices::PHANTOMFORCE => "PHANTOMFORCE"@,
            Choices::PROTECT => "PROTECT"@,
            Choices::PURSUIT => "PURSUIT"@,
            Choices::QUICKATTACK => "QUICKATTACK"@,
            Choices::RAPIDSPIN => "RAPIDSPIN"@,
            Choices::RAZORWIND => "RAZORWIND"@,
            Choices::RECOVER => "RECOVER"@,
            Choices::REST => "REST"@,
            Choices::RUINATION => "RUINATION"@,
            Choices::SEISMICTOSS => "SEISMICTOSS"@,
            Choices::SHADOWFORCE => "SHADOWFORCE"@,
            Choices::SHEDTAIL => "SHEDTAIL"@,
            Choices::SHELLSMASH => "SHELLSMASH"@,
            Choices::SKULLBASH => "SKULLBASH"@,
            Choices::SKYATTACK => "SKYATTACK"@,
            Choices::SKYDROP => "SKYDROP"@,
            Choices::SLEEPTALK => "SLEEPTALK"@,
            Choices::SNIPESHOT => "SNIPESHOT"@,
            Choices::SOLARBEAM => "SOLARBEAM"@,
            Choices::SOLARBLADE => "SOLARBLADE"@,
            Choices::SPIKES => "SPIKES"@,
            Choices::SPLASH => "SPLASH"@,
            Choices::SPORE => "SPORE"@,
            Choices::STEALTHROCK => "STEALTHROCK"@,
            Choices::STONEAXE => "STONEAXE"@,
            Choices::SUBSTITUTE => "SUBSTITUTE"@,
            Choices::SUCKERPUNCH => "SUCKERPUNCH"@,
            Choices::SUPERFANG => "SUPERFANG"@,
            Choices::SWORDSDANCE => "SWORDSDANCE"@,
            Choices::TACKLE => "TACKLE"@,
            Choices::THUNDERBOLT => "THUNDERBOLT"@,
            Choices::THUNDERCLAP => "THUNDERCLAP"@,
            Choices::THUNDERWAVE => "THUNDERWAVE"@,
            Choices::TIDYUP => "TIDYUP"@,
            Choices::WATERGUN => "WATERGUN"@,
            Choices::WHIRLWIND => "WHIRLWIND"@,
        }
    }

    pub fn name(&self) -> (r: &'static str)
        ensures r@ == self.spec_name(),
    {
        match self {
            Choices::NONE => "NONE",
            Choices::ABSORB => "ABSORB",
            Choices::ACID => "ACID",
            Choices::AQUARING => "AQUARING",
            Choices::ATTRACT => "ATTRACT",
            Choices::AURORAVEIL => "AURORAVEIL",
            Choices::AVALANCHE => "AVALANCHE",
            Choices::AXEKICK => "AXEKICK",
            Choices::BATONPASS => "BATONPASS",
            Choices::BLOODMOON => "BLOODMOON",
            Choices::BOUNCE => "BOUNCE",
            Choices::BRAVEBIRD => "BRAVEBIRD",
            Choices::CEASELESSEDGE => "CEASELESSEDGE",
            Choices::CHARM => "CHARM",
            Choices::CHATTER => "CHATTER",
            Choices::COMEUPPANCE => "COMEUPPANCE",
            Choices::CONFUSION => "CONFUSION",
            Choices::COUNTER => "COUNTER",
            Choices::COURTCHANGE => "COURTCHANGE",
            Choices::CROSSCHOP => "CROSSCHOP",
            Choices::DEFOG => "DEFOG",
            Choices::DIG => "DIG",
            Choices::DIVE => "DIVE",
            Choices::DRAGONTAIL => "DRAGONTAIL",
            Choices::EARTHQUAKE => "EARTHQUAKE",
            Choices::ELECTROSHOT => "ELECTROSHOT",
            Choices::ENCORE => "ENCORE",
            Choices::ENDEAVOR => "ENDEAVOR",
            Choices::EXPLOSION => "EXPLOSION",
            Choices::FAKEOUT => "FAKEOUT",
            Choices::FINALGAMBIT => "FINALGAMBIT",
            Choices::FIREFANG => "FIREFANG",
            Choices::FIREPUNCH => "FIREPUNCH",
            Choices::FIRSTIMPRESSION => "FIRSTIMPRESSION",
            Choices::FLY => "FLY",
            Choices::FOCUSPUNCH => "FOCUSPUNCH",
            Choices::FREEZESHOCK => "FREEZESHOCK",
            Choices::FUTURESIGHT => "FUTURESIGHT",
            Choices::GEOMANCY => "GEOMANCY",
            Choices::GIGATONHAMMER => "GIGATONHAMMER",
            Choices::GLARE => "GLARE",
            Choices::GRASSYGLIDE => "GRASSYGLIDE",
            Choices::ICEBURN => "ICEBURN",
            Choices::JUMPKICK => "JUMPKICK",
            Choices::KINESIS => "KINESIS",
            Choices::KNOCKOFF => "KNOCKOFF",
            Choices::METALBURST => "METALBURST",
            Choices::METEORBEAM => "METEORBEAM",
            Choices::MIRRORCOAT => "MIRRORCOAT",
            Choices::NATURESMADNESS => "NATURESMADNESS",
            Choices::NIGHTSHADE => "NIGHTSHADE",
            Choices::PAINSPLIT => "PAINSPLIT",
            Choices::PHANTOMFORCE => "PHANTOMFORCE",
            Choices::PROTECT => "PROTECT",
            Choices::PURSUIT => "PURSUIT",
            Choices::QUICKATTACK => "QUICKATTACK",
            Choices::RAPIDSPIN => "RAPIDSPIN",
            Choices::RAZORWIND => "RAZORWIND",
            Choices::RECOVER => "RECOVER",
            Choices::REST => "REST",
            Choices::RUINATION => "RUINATION",
            Choices::SEISMICTOSS => "SEISMICTOSS",
            Choices::SHADOWFORCE => "SHADOWFORCE",
            Choices::SHEDTAIL => "SHEDTAIL",
            Choices::SHELLSMASH => "SHELLSMASH",
            Choices::SKULLBASH => "SKULLBASH",
            Choices::SKYATTACK => "SKYATTACK",
            Choices::SKYDROP => "SKYDROP",
            Choices::SLEEPTALK => "SLEEPTALK",
            Choices::SNIPESHOT => "SNIPESHOT",
            Choices::SOLARBEAM => "SOLARBEAM",
            Choices::SOLARBLADE => "SOLARBLADE",
            Choices::SPIKES => "SPIKES",
            Choices::SPLASH => "SPLASH",
            Choices::SPORE => "SPORE",
            Choices::STEALTHROCK => "STEALTHROCK",
            Choices::STONEAXE => "STONEAXE",
            Choices::SUBSTITUTE => "SUBSTITUTE",
            Choices::SUCKERPUNCH => "SUCKERPUNCH",
            Choices::SUPERFANG => "SUPERFANG",
            Choices::SWORDSDANCE => "SWORDSDANCE",
            Choices::TACKLE => "TACKLE",
            Choices::THUNDERBOLT => "THUNDERBOLT",
            Choices::THUNDERCLAP => "THUNDERCLAP",
            Choices::THUNDERWAVE => "THUNDERWAVE",
            Choices::TIDYUP => "TIDYUP",
            Choices::WATERGUN => "WATERGUN",
            Choices::WHIRLWIND => "WHIRLWIND",
        }
    }
}

/// Whether a move deals physical or special damage, is a status move, or is a switch.
#[derive(Clone, Copy, PartialEq, Eq, Debug, Hash, Structural)]
pub enum MoveCategory {
    Physical,
    Special,
    Status,
    Switch,
}

/// Whom a move, or one of its effects, lands on.
#[derive(Clone, Copy, PartialEq, Eq, Debug, Hash, Structural)]
pub enum MoveTarget {
    User,
    Opponent,
    UserSide,
    Ally,
    FoeSide,
    BothFoes,
    AllAdjacentFoes,
    RandomFoe,
    AllAdjacent,
    AllOthers,
}

impl MoveTarget {
    /// Whether the effect stays on the user's side.
    pub open spec fn spec_targets_user_side(self) -> bool {
        self == MoveTarget::User || self == MoveTarget::UserSide || self == MoveTarget::Ally
    }

    pub open spec fn spec_affected_side(self, attacking: SideReference) -> SideReference {
        if self.spec_targets_user_side() {
            attacking
        } else {
            attacking.spec_other()
        }
    }

    pub fn targets_user_side(&self) -> (r: bool)
        ensures r == self.spec_targets_user_side(),
    {
        match self {
            MoveTarget::User | MoveTarget::UserSide | MoveTarget::Ally => true,
            _ => false,
        }
    }

    /// The side that an effect with this target lands on, for a move used by `attacking`.
    pub fn affected_side(&self, attacking: SideReference) -> (r: SideReference)
        ensures r == self.spec_affected_side(attacking),
    {
        if self.targets_user_side() {
            attacking
        } else {
            attacking.get_other_side()
        }
    }
}

/// A volatile status that a move applies, and to whom.
#[derive(Clone, Copy, PartialEq, Eq, Debug, Structural)]
pub struct VolatileStatus {
    pub target: MoveTarget,
    pub volatile_status: PokemonVolatileStatus,
}

/// The flags of a move that the engine reads.
#[derive(Clone, Copy, PartialEq, Eq, Debug, Structural)]
pub struct Flags {
    pub contact: bool,
    pub heal: bool,
    pub powder: bool,
    pub protect: bool,
    pub sound: bool,
}

/// A move as chosen for a turn: which move or switch, and the data that decides
/// when it goes and what it does.
#[derive(Clone, Copy, PartialEq, Eq, Debug, Structural)]
pub struct Choice {
    pub move_id: Choices,
    pub move_index: PokemonMoveIndex,
    pub switch_id: PokemonIndex,
    pub move_type: PokemonType,
    /// Percent chance to hit, out of 100.
    pub accuracy: u8,
    pub category: MoveCategory,
    pub base_power: i16,
    pub priority: i8,
    pub flags: Flags,
    pub target: MoveTarget,
    pub volatile_status: Option<VolatileStatus>,
    pub first_move: bool,
}

impl Choice {
    pub open spec fn spec_default() -> Choice {
        Choice {
            move_id: Choices::NONE,
            move_index: PokemonMoveIndex::M0,
            switch_id: PokemonIndex::P0,
            move_type: PokemonType::NORMAL,
            accuracy: 100,
            category: MoveCategory::Status,
            base_power: 0,
            priority: 0,
            flags: Flags { contact: false, heal: false, powder: false, protect: false, sound: false },
            target: MoveTarget::Opponent,
            volatile_status: None,
            first_move: true,
        }
    }
}

impl Default for Choice {
    fn default() -> (r: Choice)
        ensures r == Choice::spec_default(),
    {
        Choice {
            move_id: Choices::NONE,
            move_index: PokemonMoveIndex::M0,
            switch_id: PokemonIndex::P0,
            move_type: PokemonType::NORMAL,
            accuracy: 100,
            category: MoveCategory::Status,
            base_power: 0,
            priority: 0,
            flags: Flags { contact: false, heal: false, powder: false, protect: false, sound: false },
            target: MoveTarget::Opponent,
            volatile_status: None,
            first_move: true,
        }
    }
}

} // verus!
