//! Pokemon species and formes, with the base stats of those this engine knows.

use vstd::prelude::*;

verus! {

/// A Pokemon species or forme, by name.
#[derive(Clone, Copy, PartialEq, Eq, Debug, Hash, Structural)]
pub enum PokemonName {
    NONE,
    PIKACHU,
    CHARIZARD,
    CHARIZARDMEGAX,
    CHARIZARDMEGAY,
    VENUSAUR,
    VENUSAURMEGA,
    BLASTOISE,
    BLASTOISEMEGA,
    GENGAR,
    GENGARMEGA,
    ARCEUS,
    ARCEUSBUG,
    ARCEUSDARK,
    ARCEUSDRAGON,
    ARCEUSELECTRIC,
    ARCEUSFAIRY,
    ARCEUSFIGHTING,
    ARCEUSFIRE,
    ARCEUSFLYING,
    ARCEUSGHOST,
    ARCEUSGRASS,
    ARCEUSGROUND,
    ARCEUSICE,
    ARCEUSPOISON,
    ARCEUSPSYCHIC,
    ARCEUSROCK,
    ARCEUSSTEEL,
    ARCEUSWATER,
    DIALGAORIGIN,
    GIRATINAORIGIN,
    OGERPONCORNERSTONE,
    OGERPONCORNERSTONETERA,
    OGERPONHEARTHFLAME,
    OGERPONHEARTHFLAMETERA,
    OGERPONWELLSPRING,
    OGERPONWELLSPRINGTERA,
    PALKIAORIGIN,
    SILVALLYBUG,
    SILVALLYDARK,
    SILVALLYDRAGON,
    SILVALLYELECTRIC,
    SILVALLYFAIRY,
    SILVALLYFIGHTING,
    SILVALLYFIRE,
    SILVALLYFLYING,
    SILVALLYGHOST,
    SILVALLYGRASS,
    SILVALLYGROUND,
    SILVALLYICE,
    SILVALLYPOISON,
    SILVALLYPSYCHIC,
    SILVALLYROCK,
    SILVALLYSTEEL,
    SILVALLYWATER,
    ZACIAN,
    ZACIANCROWNED,
    ZAMAZENTA,
    ZAMAZENTACROWNED,
}

impl PokemonName {
    /// The name under which this value is written, in upper case.
    pub open spec fn spec_name(self) -> Seq<char> {
        match self {
            PokemonName::NONE => "NONE"@,
            PokemonName::PIKACHU => "PIKACHU"@,
            PokemonName::CHARIZARD => "CHARIZARD"@,
            PokemonName::CHARIZARDMEGAX => "CHARIZARDMEGAX"@,
            PokemonName::CHARIZARDMEGAY => "CHARIZARDMEGAY"@,
            PokemonName::VENUSAUR => "VENUSAUR"@,
            PokemonName::VENUSAURMEGA => "VENUSAURMEGA"@,
            PokemonName::BLASTOISE => "BLASTOISE"@,
            PokemonName::BLASTOISEMEGA => "BLASTOISEMEGA"@,
            PokemonName::GENGAR => "GENGAR"@,
            PokemonName::GENGARMEGA => "GENGARMEGA"@,
            PokemonName::ARCEUS => "ARCEUS"@,
            PokemonName::ARCEUSBUG => "ARCEUSBUG"@,
            PokemonName::ARCEUSDARK => "ARCEUSDARK"@,
            PokemonName::ARCEUSDRAGON => "ARCEUSDRAGON"@,
            PokemonName::ARCEUSELECTRIC => "ARCEUSELECTRIC"@,
            PokemonName::ARCEUSFAIRY => "ARCEUSFAIRY"@,
            PokemonName::ARCEUSFIGHTING => "ARCEUSFIGHTING"@,
            PokemonName::ARCEUSFIRE => "ARCEUSFIRE"@,
            PokemonName::ARCEUSFLYING => "ARCEUSFLYING"@,
            PokemonName::ARCEUSGHOST => "ARCEUSGHOST"@,
            PokemonName::ARCEUSGRASS => "ARCEUSGRASS"@,
            PokemonName::ARCEUSGROUND => "ARCEUSGROUND"@,
            PokemonName::ARCEUSICE => "ARCEUSICE"@,
            PokemonName::ARCEUSPOISON => "ARCEUSPOISON"@,
            PokemonName::ARCEUSPSYCHIC => "ARCEUSPSYCHIC"@,
            PokemonName::ARCEUSROCK => "ARCEUSROCK"@,
            PokemonName::ARCEUSSTEEL => "ARCEUSSTEEL"@,
            PokemonName::ARCEUSWATER => "ARCEUSWATER"@,
            PokemonName::DIALGAORIGIN => "DIALGAORIGIN"@,
            PokemonName::GIRATINAORIGIN => "GIRATINAORIGIN"@,
            PokemonName::OGERPONCORNERSTONE => "OGERPONCORNERSTONE"@,
            PokemonName::OGERPONCORNERSTONETERA => "OGERPONCORNERSTONETERA"@,
            PokemonName::OGERPONHEARTHFLAME => "OGERPONHEARTHFLAME"@,
            PokemonName::OGERPONHEARTHFLAMETERA => "OGERPONHEARTHFLAMETERA"@,
            PokemonName::OGERPONWELLSPRING => "OGERPONWELLSPRING"@,
            PokemonName::OGERPONWELLSPRINGTERA => "OGERPONWELLSPRINGTERA"@,
            PokemonName::PALKIAORIGIN => "PALKIAORIGIN"@,
            PokemonName::SILVALLYBUG => "SILVALLYBUG"@,
            PokemonName::SILVALLYDARK => "SILVALLYDARK"@,
            PokemonName::SILVALLYDRAGON => "SILVALLYDRAGON"@,
            PokemonName::SILVALLYELECTRIC => "SILVALLYELECTRIC"@,
            PokemonName::SILVALLYFAIRY => "SILVALLYFAIRY"@,
            PokemonName::SILVALLYFIGHTING => "SILVALLYFIGHTING"@,
            PokemonName::SILVALLYFIRE => "SILVALLYFIRE"@,
            PokemonName::SILVALLYFLYING => "SILVALLYFLYING"@,
            PokemonName::SILVALLYGHOST => "SILVALLYGHOST"@,
            PokemonName::SILVALLYGRASS => "SILVALLYGRASS"@,
            PokemonName::SILVALLYGROUND => "SILVALLYGROUND"@,
            PokemonName::SILVALLYICE => "SILVALLYICE"@,
            PokemonName::SILVALLYPOISON => "SILVALLYPOISON"@,
            PokemonName::SILVALLYPSYCHIC => "SILVALLYPSYCHIC"@,
            PokemonName::SILVALLYROCK => "SILVALLYROCK"@,
            PokemonName::SILVALLYSTEEL => "SILVALLYSTEEL"@,
            PokemonName::SILVALLYWATER => "SILVALLYWATER"@,
            PokemonName::ZACIAN => "ZACIAN"@,
            PokemonName::ZACIANCROWNED => "ZACIANCROWNED"@,
            PokemonName::ZAMAZENTA => "ZAMAZENTA"@,
            PokemonName::ZAMAZENTACROWNED => "ZAMAZENTACROWNED"@,
        }
    }

    pub fn name(&self) -> (r: &'static str)
        ensures r@ == self.spec_name(),
    {
        match self {
            PokemonName::NONE => "NONE",
            PokemonName::PIKACHU => "PIKACHU",
            PokemonName::CHARIZARD => "CHARIZARD",
            PokemonName::CHARIZARDMEGAX => "CHARIZARDMEGAX",
            PokemonName::CHARIZARDMEGAY => "CHARIZARDMEGAY",
            PokemonName::VENUSAUR => "VENUSAUR",
            PokemonName::VENUSAURMEGA => "VENUSAURMEGA",
            PokemonName::BLASTOISE => "BLASTOISE",
            PokemonName::BLASTOISEMEGA => "BLASTOISEMEGA",
            PokemonName::GENGAR => "GENGAR",
            PokemonName::GENGARMEGA => "GENGARMEGA",
            PokemonName::ARCEUS => "ARCEUS",
            PokemonName::ARCEUSBUG => "ARCEUSBUG",
            PokemonName::ARCEUSDARK => "ARCEUSDARK",
            PokemonName::ARCEUSDRAGON => "ARCEUSDRAGON",
            PokemonName::ARCEUSELECTRIC => "ARCEUSELECTRIC",
            PokemonName::ARCEUSFAIRY => "ARCEUSFAIRY",
            PokemonName::ARCEUSFIGHTING => "ARCEUSFIGHTING",
            PokemonName::ARCEUSFIRE => "ARCEUSFIRE",
            PokemonName::ARCEUSFLYING => "ARCEUSFLYING",
            PokemonName::ARCEUSGHOST => "ARCEUSGHOST",
            PokemonName::ARCEUSGRASS => "ARCEUSGRASS",
            PokemonName::ARCEUSGROUND => "ARCEUSGROUND",
            PokemonName::ARCEUSICE => "ARCEUSICE",
            PokemonName::ARCEUSPOISON => "ARCEUSPOISON",
            PokemonName::ARCEUSPSYCHIC => "ARCEUSPSYCHIC",
            PokemonName::ARCEUSROCK => "ARCEUSROCK",
            PokemonName::ARCEUSSTEEL => "ARCEUSSTEEL",
            PokemonName::ARCEUSWATER => "ARCEUSWATER",
            PokemonName::DIALGAORIGIN => "DIALGAORIGIN",
            PokemonName::GIRATINAORIGIN => "GIRATINAORIGIN",
            PokemonName::OGERPONCORNERSTONE => "OGERPONCORNERSTONE",
            PokemonName::OGERPONCORNERSTONETERA => "OGERPONCORNERSTONETERA",
            PokemonName::OGERPONHEARTHFLAME => "OGERPONHEARTHFLAME",
            PokemonName::OGERPONHEARTHFLAMETERA => "OGERPONHEARTHFLAMETERA",
            PokemonName::OGERPONWELLSPRING => "OGERPONWELLSPRING",
            PokemonName::OGERPONWELLSPRINGTERA => "OGERPONWELLSPRINGTERA",
            PokemonName::PALKIAORIGIN => "PALKIAORIGIN",
            PokemonName::SILVALLYBUG => "SILVALLYBUG",
            PokemonName::SILVALLYDARK => "SILVALLYDARK",
            PokemonName::SILVALLYDRAGON => "SILVALLYDRAGON",
            PokemonName::SILVALLYELECTRIC => "SILVALLYELECTRIC",
            PokemonName::SILVALLYFAIRY => "SILVALLYFAIRY",
            PokemonName::SILVALLYFIGHTING => "SILVALLYFIGHTING",
            PokemonName::SILVALLYFIRE => "SILVALLYFIRE",
            PokemonName::SILVALLYFLYING => "SILVALLYFLYING",
            PokemonName::SILVALLYGHOST => "SILVALLYGHOST",
            PokemonName::SILVALLYGRASS => "SILVALLYGRASS",
            PokemonName::SILVALLYGROUND => "SILVALLYGROUND",
            PokemonName::SILVALLYICE => "SILVALLYICE",
            PokemonName::SILVALLYPOISON => "SILVALLYPOISON",
            PokemonName::SILVALLYPSYCHIC => "SILVALLYPSYCHIC",
            PokemonName::SILVALLYROCK => "SILVALLYROCK",
            PokemonName::SILVALLYSTEEL => "SILVALLYSTEEL",
            PokemonName::SILVALLYWATER => "SILVALLYWATER",
            PokemonName::ZACIAN => "ZACIAN",
            PokemonName::ZACIANCROWNED => "ZACIANCROWNED",
            PokemonName::ZAMAZENTA => "ZAMAZENTA",
            PokemonName::ZAMAZENTACROWNED => "ZAMAZENTACROWNED",
        }
    }
}
} // verus!
