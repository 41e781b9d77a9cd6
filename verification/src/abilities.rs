//! Abilities, and what they do when a Pokemon switches in or out and at the
//! end of a turn.

use vstd::prelude::*;

verus! {

/// A Pokemon's ability.
#[derive(Clone, Copy, PartialEq, Eq, Debug, Hash, Structural)]
pub enum Abilities {
    NONE,
    AIRLOCK,
    ARENATRAP,
    AROMAVEIL,
    BATTLEARMOR,
    BEASTBOOST,
    CHLOROPHYLL,
    CLEARBODY,
    CLOUDNINE,
    COMATOSE,
    COMPETITIVE,
    CONTRARY,
    CORROSION,
    DEFIANT,
    FLAMEBODY,
    FULLMETALBODY,
    GALEWINGS,
    GUARDDOG,
    HEATPROOF,
    HYPERCUTTER,
    ICEBODY,
    IMMUNITY,
    INFILTRATOR,
    INNERFOCUS,
    INSOMNIA,
    INTIMIDATE,
    KEENEYE,
    LEAFGUARD,
    LEVITATE,
    LIGHTNINGROD,
    LIMBER,
    MAGICGUARD,
    MAGMAARMOR,
    MAGNETPULL,
    NATURALCURE,
    NEUTRALIZINGGAS,
    OVERCOAT,
    PASTELVEIL,
    POISONHEAL,
    PRANKSTER,
    PRESSURE,
    PROPELLERTAIL,
    PROTOSYNTHESIS,
    PURIFYINGSALT,
    QUARKDRIVE,
    QUICKFEET,
    REGENERATOR,
    SANDRUSH,
    SHADOWTAG,
    SHELLARMOR,
    SHIELDSDOWN,
    SIMPLE,
    SKILLLINK,
    SLUSHRUSH,
    SPEEDBOOST,
    STALWART,
    STICKYHOLD,
    STORMDRAIN,
    STURDY,
    SURGESURFER,
    SWEETVEIL,
    SWIFTSWIM,
    THERMALEXCHANGE,
    TRIAGE,
    UNBURDEN,
    VITALSPIRIT,
    WATERBUBBLE,
    WATERVEIL,
    WHITESMOKE,
}
} // verus!
