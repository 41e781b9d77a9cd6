//! Held items, and what they do at the end of a turn.

use vstd::prelude::*;

verus! {

/// A held item.
#[derive(Clone, Copy, PartialEq, Eq, Debug, Hash, Structural)]
pub enum Items {
    NONE,
    ADAMANTCRYSTAL,
    AIRBALLOON,
    ASSAULTVEST,
    BLACKSLUDGE,
    BLANKPLATE,
    BLUNDERPOLICY,
    BOOSTERENERGY,
    BUGMEMORY,
    CHESTOBERRY,
    CHOICESCARF,
    CLEARAMULET,
    CORNERSTONEMASK,
    COVERTCLOAK,
    CUSTAPBERRY,
    DARKMEMORY,
    DRACOPLATE,
    DRAGONMEMORY,
    DREADPLATE,
    EARTHPLATE,
    ELECTRICMEMORY,
    FAIRYMEMORY,
    FIGHTINGMEMORY,
    FIREMEMORY,
    FISTPLATE,
    FLAMEORB,
    FLAMEPLATE,
    FLYINGMEMORY,
    FOCUSSASH,
    GHOSTMEMORY,
    GRASSMEMORY,
    GRISEOUSCORE,
    GROUNDMEMORY,
    HEARTHFLAMEMASK,
    HEAVYDUTYBOOTS,
    ICEMEMORY,
    ICICLEPLATE,
    INSECTPLATE,
    IRONBALL,
    IRONPLATE,
    LEFTOVERS,
    LOADEDDICE,
    LUMBERRY,
    LUSTROUSGLOBE,
    MEADOWPLATE,
    MINDPLATE,
    PIXIEPLATE,
    POISONMEMORY,
    PROTECTIVEPADS,
    PSYCHICMEMORY,
    ROCKMEMORY,
    RUSTEDSHIELD,
    RUSTEDSWORD,
    SHEDSHELL,
    SKYPLATE,
    SPLASHPLATE,
    SPOOKYPLATE,
    STEELMEMORY,
    STONEPLATE,
    TOXICORB,
    TOXICPLATE,
    WATERMEMORY,
    WELLSPRINGMASK,
    WHITEHERB,
    WIDELENS,
    ZAPPLATE,
    CHARIZARDITEX,
    CHARIZARDITEY,
    VENUSAURITE,
    BLASTOISINITE,
    GENGARITE,
}
} // verus!
