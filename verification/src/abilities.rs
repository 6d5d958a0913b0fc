//! Abilities: the full list, and the classifications that decide which of
//! them mold breaker ignores, which survive a contact ability change, a skill
//! swap or a trace, together with the side updates the switch-in abilities make.

use vstd::prelude::*;
use crate::instruction::{
    ApplyVolatileStatusInstruction, ChangeAbilityInstruction, ChangeItemInstruction,
    ChangeSideConditionInstruction, ChangeStatusInstruction, ChangeWeather,
    FormeChangeInstruction, HealInstruction, Instruction,
};
pub use crate::after_hit::{ability_after_damage_hit, HitFacts};
pub use crate::before_move::ability_before_move;
pub use crate::end_of_turn::ability_end_of_turn;
pub use crate::on_start::{ability_on_start, ability_on_switch_in, StartFacts};
use crate::state::{
    Choice, Items, MoveCategory, Pokemon, PokemonBoostableStat, PokemonName,
    PokemonSideCondition, PokemonStatus, PokemonVolatileStatus, Side, SideConditions, SideReference, State,
    StateWeather, Weather,
};

verus! {

/// Every ability a pokemon can have, in the order that gives each its number.
#[derive(Debug, PartialEq, Eq, Clone, Copy, Hash, Structural)]
pub enum Abilities {
    NONE,
    ARMORTAIL,
    RIPEN,
    TANGLEDFEET,
    DRAGONSMAW,
    CLEARBODY,
    GALVANIZE,
    VITALSPIRIT,
    AERILATE,
    DEFIANT,
    CUTECHARM,
    NEUROFORCE,
    SOUNDPROOF,
    RKSSYSTEM,
    POISONPOINT,
    STAKEOUT,
    UNNERVE,
    ROCKHEAD,
    AURABREAK,
    MIMICRY,
    BULLETPROOF,
    POWEROFALCHEMY,
    TECHNICIAN,
    MULTISCALE,
    ARENATRAP,
    BATTLEBOND,
    DISGUISE,
    EARLYBIRD,
    LIGHTNINGROD,
    MAGICIAN,
    REFRIGERATE,
    FRIENDGUARD,
    NOABILITY,
    GULPMISSILE,
    POWERCONSTRUCT,
    FORECAST,
    PRANKSTER,
    PROTEAN,
    ASONEGLASTRIER,
    SHADOWTAG,
    SHARPNESS,
    WINDRIDER,
    SKILLLINK,
    INTREPIDSWORD,
    SOULHEART,
    SWIFTSWIM,
    EARTHEATER,
    SUPERLUCK,
    SUPREMEOVERLORD,
    INSOMNIA,
    DANCER,
    STEAMENGINE,
    ANGERPOINT,
    CONTRARY,
    MAGMAARMOR,
    HUNGERSWITCH,
    RECEIVER,
    ZENMODE,
    EMERGENCYEXIT,
    ILLUSION,
    WEAKARMOR,
    DROUGHT,
    INNARDSOUT,
    SHIELDSDOWN,
    ADAPTABILITY,
    CORROSION,
    LONGREACH,
    PUREPOWER,
    TINTEDLENS,
    QUEENLYMAJESTY,
    DESOLATELAND,
    MOXIE,
    SAPSIPPER,
    SLUSHRUSH,
    BIGPECKS,
    STALL,
    WHITESMOKE,
    FLAREBOOST,
    SHADOWSHIELD,
    LIQUIDVOICE,
    MISTYSURGE,
    MULTITYPE,
    NOGUARD,
    TORRENT,
    DELTASTREAM,
    KLUTZ,
    LIBERO,
    SERENEGRACE,
    CURSEDBODY,
    UNAWARE,
    LIGHTMETAL,
    MARVELSCALE,
    TELEPATHY,
    QUICKDRAW,
    HYPERCUTTER,
    SYMBIOSIS,
    PLUS,
    MIRRORARMOR,
    PASTELVEIL,
    TOUGHCLAWS,
    EFFECTSPORE,
    MUMMY,
    BADDREAMS,
    MAGICGUARD,
    SANDSTREAM,
    POWERSPOT,
    FLAMEBODY,
    RECKLESS,
    PRESSURE,
    GOOEY,
    IMMUNITY,
    LEAFGUARD,
    HUGEPOWER,
    SOLARPOWER,
    SCHOOLING,
    MOTORDRIVE,
    ANTICIPATION,
    MERCILESS,
    TRACE,
    NATURALCURE,
    HARVEST,
    SUCTIONCUPS,
    ICEFACE,
    ROUGHSKIN,
    WONDERGUARD,
    WATERVEIL,
    FAIRYAURA,
    SANDSPIT,
    SEEDSOWER,
    TOXICDEBRIS,
    INTIMIDATE,
    DAUNTLESSSHIELD,
    AROMAVEIL,
    AIRLOCK,
    NORMALIZE,
    DARKAURA,
    VICTORYSTAR,
    GRASSYSURGE,
    STURDY,
    PICKPOCKET,
    ELECTRICSURGE,
    HADRONENGINE,
    ORICHALCUMPULSE,
    RUNAWAY,
    OBLIVIOUS,
    SURGESURFER,
    LEVITATE,
    ASONESPECTRIER,
    PICKUP,
    ICEBODY,
    CURIOUSMEDICINE,
    FLOWERVEIL,
    STATIC,
    WONDERSKIN,
    OVERGROW,
    PROPELLERTAIL,
    THICKFAT,
    GLUTTONY,
    KEENEYE,
    MOUNTAINEER,
    FLASHFIRE,
    COMPOUNDEYES,
    STEELWORKER,
    COMATOSE,
    BALLFETCH,
    DAZZLING,
    DOWNLOAD,
    TRANSISTOR,
    MOLDBREAKER,
    MYCELIUMMIGHT,
    LIQUIDOOZE,
    POISONHEAL,
    PRISMARMOR,
    SNIPER,
    STENCH,
    COMPETITIVE,
    SWARM,
    STALWART,
    ILLUMINATE,
    TURBOBLAZE,
    GORILLATACTICS,
    SPEEDBOOST,
    GUARDDOG,
    HEATPROOF,
    SNOWCLOAK,
    TERAVOLT,
    CHILLINGNEIGH,
    SHIELDDUST,
    RIVALRY,
    PRIMORDIALSEA,
    SCREENCLEANER,
    MAGNETPULL,
    HONEYGATHER,
    COTTONDOWN,
    GRASSPELT,
    BATTLEARMOR,
    BEASTBOOST,
    BERSERK,
    MINUS,
    RAINDISH,
    SYNCHRONIZE,
    FILTER,
    TRUANT,
    FURCOAT,
    FULLMETALBODY,
    REGENERATOR,
    FOREWARN,
    IRONBARBS,
    STAMINA,
    SANDRUSH,
    COLORCHANGE,
    BLAZE,
    ANALYTIC,
    TANGLINGHAIR,
    CLOUDNINE,
    STEELYSPIRIT,
    QUICKFEET,
    MAGICBOUNCE,
    MEGALAUNCHER,
    HEAVYMETAL,
    STORMDRAIN,
    PIXILATE,
    WATERCOMPACTION,
    JUSTIFIED,
    SLOWSTART,
    SNOWWARNING,
    FLOWERGIFT,
    SHEDSKIN,
    WIMPOUT,
    ICESCALES,
    INFILTRATOR,
    LIMBER,
    PSYCHICSURGE,
    DEFEATIST,
    WATERABSORB,
    IMPOSTER,
    DRYSKIN,
    FLUFFY,
    UNBURDEN,
    CHEEKPOUCH,
    STANCECHANGE,
    MOODY,
    ROCKYPAYLOAD,
    PUNKROCK,
    SANDVEIL,
    PARENTALBOND,
    STRONGJAW,
    BATTERY,
    HEALER,
    STEADFAST,
    DAMP,
    PERISHBODY,
    TRIAGE,
    SHEERFORCE,
    OWNTEMPO,
    FRISK,
    VOLTABSORB,
    GALEWINGS,
    AFTERMATH,
    STICKYHOLD,
    GRIMNEIGH,
    IRONFIST,
    REBOUND,
    UNSEENFIST,
    SOLIDROCK,
    HUSTLE,
    HYDRATION,
    SCRAPPY,
    MINDSEYE,
    OVERCOAT,
    NEUTRALIZINGGAS,
    SWEETVEIL,
    DRIZZLE,
    INNERFOCUS,
    POISONTOUCH,
    WANDERINGSPIRIT,
    GUTS,
    SHELLARMOR,
    RATTLED,
    WATERBUBBLE,
    SANDFORCE,
    TOXICBOOST,
    PERSISTENT,
    CHLOROPHYLL,
    SIMPLE,
    PURIFYINGSALT,
    EMBODYASPECTWELLSPRING,
    EMBODYASPECTCORNERSTONE,
    EMBODYASPECTHEARTHFLAME,
    EMBODYASPECTTEAL,
    ANGERSHELL,
    BEADSOFRUIN,
    COMMANDER,
    COSTAR,
    CUDCHEW,
    ELECTROMORPHOSIS,
    EMBODYASPECT,
    GOODASGOLD,
    HOSPITALITY,
    LINGERINGAROMA,
    OPPORTUNIST,
    POISONPUPPETEER,
    PROTOSYNTHESIS,
    QUARKDRIVE,
    SUPERSWEETSYRUP,
    SWORDOFRUIN,
    TABLETSOFRUIN,
    TERASHELL,
    TERASHIFT,
    TERAFORMZERO,
    THERMALEXCHANGE,
    TOXICCHAIN,
    VESSELOFRUIN,
    WELLBAKEDBODY,
    WINDPOWER,
    ZEROTOHERO,
    MEGASOL,
    DRAGONIZE,
    SPICYSPRAY,
    PIERCINGDRILL,
}

/// The number of an ability: its place in the list of abilities, from 0.
pub open spec fn ability_number_of(ability: Abilities) -> int {
    match ability {
        Abilities::NONE => 0,
        Abilities::ARMORTAIL => 1,
        Abilities::RIPEN => 2,
        Abilities::TANGLEDFEET => 3,
        Abilities::DRAGONSMAW => 4,
        Abilities::CLEARBODY => 5,
        Abilities::GALVANIZE => 6,
        Abilities::VITALSPIRIT => 7,
        Abilities::AERILATE => 8,
        Abilities::DEFIANT => 9,
        Abilities::CUTECHARM => 10,
        Abilities::NEUROFORCE => 11,
        Abilities::SOUNDPROOF => 12,
        Abilities::RKSSYSTEM => 13,
        Abilities::POISONPOINT => 14,
        Abilities::STAKEOUT => 15,
        Abilities::UNNERVE => 16,
        Abilities::ROCKHEAD => 17,
        Abilities::AURABREAK => 18,
        Abilities::MIMICRY => 19,
        Abilities::BULLETPROOF => 20,
        Abilities::POWEROFALCHEMY => 21,
        Abilities::TECHNICIAN => 22,
        Abilities::MULTISCALE => 23,
        Abilities::ARENATRAP => 24,
        Abilities::BATTLEBOND => 25,
        Abilities::DISGUISE => 26,
        Abilities::EARLYBIRD => 27,
        Abilities::LIGHTNINGROD => 28,
        Abilities::MAGICIAN => 29,
        Abilities::REFRIGERATE => 30,
        Abilities::FRIENDGUARD => 31,
        Abilities::NOABILITY => 32,
        Abilities::GULPMISSILE => 33,
        Abilities::POWERCONSTRUCT => 34,
        Abilities::FORECAST => 35,
        Abilities::PRANKSTER => 36,
        Abilities::PROTEAN => 37,
        Abilities::ASONEGLASTRIER => 38,
        Abilities::SHADOWTAG => 39,
        Abilities::SHARPNESS => 40,
        Abilities::WINDRIDER => 41,
        Abilities::SKILLLINK => 42,
        Abilities::INTREPIDSWORD => 43,
        Abilities::SOULHEART => 44,
        Abilities::SWIFTSWIM => 45,
        Abilities::EARTHEATER => 46,
        Abilities::SUPERLUCK => 47,
        Abilities::SUPREMEOVERLORD => 48,
        Abilities::INSOMNIA => 49,
        Abilities::DANCER => 50,
        Abilities::STEAMENGINE => 51,
        Abilities::ANGERPOINT => 52,
        Abilities::CONTRARY => 53,
        Abilities::MAGMAARMOR => 54,
        Abilities::HUNGERSWITCH => 55,
        Abilities::RECEIVER => 56,
        Abilities::ZENMODE => 57,
        Abilities::EMERGENCYEXIT => 58,
        Abilities::ILLUSION => 59,
        Abilities::WEAKARMOR => 60,
        Abilities::DROUGHT => 61,
        Abilities::INNARDSOUT => 62,
        Abilities::SHIELDSDOWN => 63,
        Abilities::ADAPTABILITY => 64,
        Abilities::CORROSION => 65,
        Abilities::LONGREACH => 66,
        Abilities::PUREPOWER => 67,
        Abilities::TINTEDLENS => 68,
        Abilities::QUEENLYMAJESTY => 69,
        Abilities::DESOLATELAND => 70,
        Abilities::MOXIE => 71,
        Abilities::SAPSIPPER => 72,
        Abilities::SLUSHRUSH => 73,
        Abilities::BIGPECKS => 74,
        Abilities::STALL => 75,
        Abilities::WHITESMOKE => 76,
        Abilities::FLAREBOOST => 77,
        Abilities::SHADOWSHIELD => 78,
        Abilities::LIQUIDVOICE => 79,
        Abilities::MISTYSURGE => 80,
        Abilities::MULTITYPE => 81,
        Abilities::NOGUARD => 82,
        Abilities::TORRENT => 83,
        Abilities::DELTASTREAM => 84,
        Abilities::KLUTZ => 85,
        Abilities::LIBERO => 86,
        Abilities::SERENEGRACE => 87,
        Abilities::CURSEDBODY => 88,
        Abilities::UNAWARE => 89,
        Abilities::LIGHTMETAL => 90,
        Abilities::MARVELSCALE => 91,
        Abilities::TELEPATHY => 92,
        Abilities::QUICKDRAW => 93,
        Abilities::HYPERCUTTER => 94,
        Abilities::SYMBIOSIS => 95,
        Abilities::PLUS => 96,
        Abilities::MIRRORARMOR => 97,
        Abilities::PASTELVEIL => 98,
        Abilities::TOUGHCLAWS => 99,
        Abilities::EFFECTSPORE => 100,
        Abilities::MUMMY => 101,
        Abilities::BADDREAMS => 102,
        Abilities::MAGICGUARD => 103,
        Abilities::SANDSTREAM => 104,
        Abilities::POWERSPOT => 105,
        Abilities::FLAMEBODY => 106,
        Abilities::RECKLESS => 107,
        Abilities::PRESSURE => 108,
        Abilities::GOOEY => 109,
        Abilities::IMMUNITY => 110,
        Abilities::LEAFGUARD => 111,
        Abilities::HUGEPOWER => 112,
        Abilities::SOLARPOWER => 113,
        Abilities::SCHOOLING => 114,
        Abilities::MOTORDRIVE => 115,
        Abilities::ANTICIPATION => 116,
        Abilities::MERCILESS => 117,
        Abilities::TRACE => 118,
        Abilities::NATURALCURE => 119,
        Abilities::HARVEST => 120,
        Abilities::SUCTIONCUPS => 121,
        Abilities::ICEFACE => 122,
        Abilities::ROUGHSKIN => 123,
        Abilities::WONDERGUARD => 124,
        Abilities::WATERVEIL => 125,
        Abilities::FAIRYAURA => 126,
        Abilities::SANDSPIT => 127,
        Abilities::SEEDSOWER => 128,
        Abilities::TOXICDEBRIS => 129,
        Abilities::INTIMIDATE => 130,
        Abilities::DAUNTLESSSHIELD => 131,
        Abilities::AROMAVEIL => 132,
        Abilities::AIRLOCK => 133,
        Abilities::NORMALIZE => 134,
        Abilities::DARKAURA => 135,
        Abilities::VICTORYSTAR => 136,
        Abilities::GRASSYSURGE => 137,
        Abilities::STURDY => 138,
        Abilities::PICKPOCKET => 139,
        Abilities::ELECTRICSURGE => 140,
        Abilities::HADRONENGINE => 141,
        Abilities::ORICHALCUMPULSE => 142,
        Abilities::RUNAWAY => 143,
        Abilities::OBLIVIOUS => 144,
        Abilities::SURGESURFER => 145,
        Abilities::LEVITATE => 146,
        Abilities::ASONESPECTRIER => 147,
        Abilities::PICKUP => 148,
        Abilities::ICEBODY => 149,
        Abilities::CURIOUSMEDICINE => 150,
        Abilities::FLOWERVEIL => 151,
        Abilities::STATIC => 152,
        Abilities::WONDERSKIN => 153,
        Abilities::OVERGROW => 154,
        Abilities::PROPELLERTAIL => 155,
        Abilities::THICKFAT => 156,
        Abilities::GLUTTONY => 157,
        Abilities::KEENEYE => 158,
        Abilities::MOUNTAINEER => 159,
        Abilities::FLASHFIRE => 160,
        Abilities::COMPOUNDEYES => 161,
        Abilities::STEELWORKER => 162,
        Abilities::COMATOSE => 163,
        Abilities::BALLFETCH => 164,
        Abilities::DAZZLING => 165,
        Abilities::DOWNLOAD => 166,
        Abilities::TRANSISTOR => 167,
        Abilities::MOLDBREAKER => 168,
        Abilities::MYCELIUMMIGHT => 169,
        Abilities::LIQUIDOOZE => 170,
        Abilities::POISONHEAL => 171,
        Abilities::PRISMARMOR => 172,
        Abilities::SNIPER => 173,
        Abilities::STENCH => 174,
        Abilities::COMPETITIVE => 175,
        Abilities::SWARM => 176,
        Abilities::STALWART => 177,
        Abilities::ILLUMINATE => 178,
        Abilities::TURBOBLAZE => 179,
        Abilities::GORILLATACTICS => 180,
        Abilities::SPEEDBOOST => 181,
        Abilities::GUARDDOG => 182,
        Abilities::HEATPROOF => 183,
        Abilities::SNOWCLOAK => 184,
        Abilities::TERAVOLT => 185,
        Abilities::CHILLINGNEIGH => 186,
        Abilities::SHIELDDUST => 187,
        Abilities::RIVALRY => 188,
        Abilities::PRIMORDIALSEA => 189,
        Abilities::SCREENCLEANER => 190,
        Abilities::MAGNETPULL => 191,
        Abilities::HONEYGATHER => 192,
        Abilities::COTTONDOWN => 193,
        Abilities::GRASSPELT => 194,
        Abilities::BATTLEARMOR => 195,
        Abilities::BEASTBOOST => 196,
        Abilities::BERSERK => 197,
        Abilities::MINUS => 198,
        Abilities::RAINDISH => 199,
        Abilities::SYNCHRONIZE => 200,
        Abilities::FILTER => 201,
        Abilities::TRUANT => 202,
        Abilities::FURCOAT => 203,
        Abilities::FULLMETALBODY => 204,
        Abilities::REGENERATOR => 205,
        Abilities::FOREWARN => 206,
        Abilities::IRONBARBS => 207,
        Abilities::STAMINA => 208,
        Abilities::SANDRUSH => 209,
        Abilities::COLORCHANGE => 210,
        Abilities::BLAZE => 211,
        Abilities::ANALYTIC => 212,
        Abilities::TANGLINGHAIR => 213,
        Abilities::CLOUDNINE => 214,
        Abilities::STEELYSPIRIT => 215,
        Abilities::QUICKFEET => 216,
        Abilities::MAGICBOUNCE => 217,
        Abilities::MEGALAUNCHER => 218,
        Abilities::HEAVYMETAL => 219,
        Abilities::STORMDRAIN => 220,
        Abilities::PIXILATE => 221,
        Abilities::WATERCOMPACTION => 222,
        Abilities::JUSTIFIED => 223,
        Abilities::SLOWSTART => 224,
        Abilities::SNOWWARNING => 225,
        Abilities::FLOWERGIFT => 226,
        Abilities::SHEDSKIN => 227,
        Abilities::WIMPOUT => 228,
        Abilities::ICESCALES => 229,
        Abilities::INFILTRATOR => 230,
        Abilities::LIMBER => 231,
        Abilities::PSYCHICSURGE => 232,
        Abilities::DEFEATIST => 233,
        Abilities::WATERABSORB => 234,
        Abilities::IMPOSTER => 235,
        Abilities::DRYSKIN => 236,
        Abilities::FLUFFY => 237,
        Abilities::UNBURDEN => 238,
        Abilities::CHEEKPOUCH => 239,
        Abilities::STANCECHANGE => 240,
        Abilities::MOODY => 241,
        Abilities::ROCKYPAYLOAD => 242,
        Abilities::PUNKROCK => 243,
        Abilities::SANDVEIL => 244,
        Abilities::PARENTALBOND => 245,
        Abilities::STRONGJAW => 246,
        Abilities::BATTERY => 247,
        Abilities::HEALER => 248,
        Abilities::STEADFAST => 249,
        Abilities::DAMP => 250,
        Abilities::PERISHBODY => 251,
        Abilities::TRIAGE => 252,
        Abilities::SHEERFORCE => 253,
        Abilities::OWNTEMPO => 254,
        Abilities::FRISK => 255,
        Abilities::VOLTABSORB => 256,
        Abilities::GALEWINGS => 257,
        Abilities::AFTERMATH => 258,
        Abilities::STICKYHOLD => 259,
        Abilities::GRIMNEIGH => 260,
        Abilities::IRONFIST => 261,
        Abilities::REBOUND => 262,
        Abilities::UNSEENFIST => 263,
        Abilities::SOLIDROCK => 264,
        Abilities::HUSTLE => 265,
        Abilities::HYDRATION => 266,
        Abilities::SCRAPPY => 267,
        Abilities::MINDSEYE => 268,
        Abilities::OVERCOAT => 269,
        Abilities::NEUTRALIZINGGAS => 270,
        Abilities::SWEETVEIL => 271,
        Abilities::DRIZZLE => 272,
        Abilities::INNERFOCUS => 273,
        Abilities::POISONTOUCH => 274,
        Abilities::WANDERINGSPIRIT => 275,
        Abilities::GUTS => 276,
        Abilities::SHELLARMOR => 277,
        Abilities::RATTLED => 278,
        Abilities::WATERBUBBLE => 279,
        Abilities::SANDFORCE => 280,
        Abilities::TOXICBOOST => 281,
        Abilities::PERSISTENT => 282,
        Abilities::CHLOROPHYLL => 283,
        Abilities::SIMPLE => 284,
        Abilities::PURIFYINGSALT => 285,
        Abilities::EMBODYASPECTWELLSPRING => 286,
        Abilities::EMBODYASPECTCORNERSTONE => 287,
        Abilities::EMBODYASPECTHEARTHFLAME => 288,
        Abilities::EMBODYASPECTTEAL => 289,
        Abilities::ANGERSHELL => 290,
        Abilities::BEADSOFRUIN => 291,
        Abilities::COMMANDER => 292,
        Abilities::COSTAR => 293,
        Abilities::CUDCHEW => 294,
        Abilities::ELECTROMORPHOSIS => 295,
        Abilities::EMBODYASPECT => 296,
        Abilities::GOODASGOLD => 297,
        Abilities::HOSPITALITY => 298,
        Abilities::LINGERINGAROMA => 299,
        Abilities::OPPORTUNIST => 300,
        Abilities::POISONPUPPETEER => 301,
        Abilities::PROTOSYNTHESIS => 302,
        Abilities::QUARKDRIVE => 303,
        Abilities::SUPERSWEETSYRUP => 304,
        Abilities::SWORDOFRUIN => 305,
        Abilities::TABLETSOFRUIN => 306,
        Abilities::TERASHELL => 307,
        Abilities::TERASHIFT => 308,
        Abilities::TERAFORMZERO => 309,
        Abilities::THERMALEXCHANGE => 310,
        Abilities::TOXICCHAIN => 311,
        Abilities::VESSELOFRUIN => 312,
        Abilities::WELLBAKEDBODY => 313,
        Abilities::WINDPOWER => 314,
        Abilities::ZEROTOHERO => 315,
        Abilities::MEGASOL => 316,
        Abilities::DRAGONIZE => 317,
        Abilities::SPICYSPRAY => 318,
        Abilities::PIERCINGDRILL => 319,
    }
}

/// The number of an ability: its place in the list of abilities, from 0.
pub fn ability_number(ability: Abilities) -> (r: i16)
    ensures
        r == ability_number_of(ability),
        0 <= r < 320,
{
    match ability {
        Abilities::NONE => 0,
        Abilities::ARMORTAIL => 1,
        Abilities::RIPEN => 2,
        Abilities::TANGLEDFEET => 3,
        Abilities::DRAGONSMAW => 4,
        Abilities::CLEARBODY => 5,
        Abilities::GALVANIZE => 6,
        Abilities::VITALSPIRIT => 7,
        Abilities::AERILATE => 8,
        Abilities::DEFIANT => 9,
        Abilities::CUTECHARM => 10,
        Abilities::NEUROFORCE => 11,
        Abilities::SOUNDPROOF => 12,
        Abilities::RKSSYSTEM => 13,
        Abilities::POISONPOINT => 14,
        Abilities::STAKEOUT => 15,
        Abilities::UNNERVE => 16,
        Abilities::ROCKHEAD => 17,
        Abilities::AURABREAK => 18,
        Abilities::MIMICRY => 19,
        Abilities::BULLETPROOF => 20,
        Abilities::POWEROFALCHEMY => 21,
        Abilities::TECHNICIAN => 22,
        Abilities::MULTISCALE => 23,
        Abilities::ARENATRAP => 24,
        Abilities::BATTLEBOND => 25,
        Abilities::DISGUISE => 26,
        Abilities::EARLYBIRD => 27,
        Abilities::LIGHTNINGROD => 28,
        Abilities::MAGICIAN => 29,
        Abilities::REFRIGERATE => 30,
        Abilities::FRIENDGUARD => 31,
        Abilities::NOABILITY => 32,
        Abilities::GULPMISSILE => 33,
        Abilities::POWERCONSTRUCT => 34,
        Abilities::FORECAST => 35,
        Abilities::PRANKSTER => 36,
        Abilities::PROTEAN => 37,
        Abilities::ASONEGLASTRIER => 38,
        Abilities::SHADOWTAG => 39,
        Abilities::SHARPNESS => 40,
        Abilities::WINDRIDER => 41,
        Abilities::SKILLLINK => 42,
        Abilities::INTREPIDSWORD => 43,
        Abilities::SOULHEART => 44,
        Abilities::SWIFTSWIM => 45,
        Abilities::EARTHEATER => 46,
        Abilities::SUPERLUCK => 47,
        Abilities::SUPREMEOVERLORD => 48,
        Abilities::INSOMNIA => 49,
        Abilities::DANCER => 50,
        Abilities::STEAMENGINE => 51,
        Abilities::ANGERPOINT => 52,
        Abilities::CONTRARY => 53,
        Abilities::MAGMAARMOR => 54,
        Abilities::HUNGERSWITCH => 55,
        Abilities::RECEIVER => 56,
        Abilities::ZENMODE => 57,
        Abilities::EMERGENCYEXIT => 58,
        Abilities::ILLUSION => 59,
        Abilities::WEAKARMOR => 60,
        Abilities::DROUGHT => 61,
        Abilities::INNARDSOUT => 62,
        Abilities::SHIELDSDOWN => 63,
        Abilities::ADAPTABILITY => 64,
        Abilities::CORROSION => 65,
        Abilities::LONGREACH => 66,
        Abilities::PUREPOWER => 67,
        Abilities::TINTEDLENS => 68,
        Abilities::QUEENLYMAJESTY => 69,
        Abilities::DESOLATELAND => 70,
        Abilities::MOXIE => 71,
        Abilities::SAPSIPPER => 72,
        Abilities::SLUSHRUSH => 73,
        Abilities::BIGPECKS => 74,
        Abilities::STALL => 75,
        Abilities::WHITESMOKE => 76,
        Abilities::FLAREBOOST => 77,
        Abilities::SHADOWSHIELD => 78,
        Abilities::LIQUIDVOICE => 79,
        Abilities::MISTYSURGE => 80,
        Abilities::MULTITYPE => 81,
        Abilities::NOGUARD => 82,
        Abilities::TORRENT => 83,
        Abilities::DELTASTREAM => 84,
        Abilities::KLUTZ => 85,
        Abilities::LIBERO => 86,
        Abilities::SERENEGRACE => 87,
        Abilities::CURSEDBODY => 88,
        Abilities::UNAWARE => 89,
        Abilities::LIGHTMETAL => 90,
        Abilities::MARVELSCALE => 91,
        Abilities::TELEPATHY => 92,
        Abilities::QUICKDRAW => 93,
        Abilities::HYPERCUTTER => 94,
        Abilities::SYMBIOSIS => 95,
        Abilities::PLUS => 96,
        Abilities::MIRRORARMOR => 97,
        Abilities::PASTELVEIL => 98,
        Abilities::TOUGHCLAWS => 99,
        Abilities::EFFECTSPORE => 100,
        Abilities::MUMMY => 101,
        Abilities::BADDREAMS => 102,
        Abilities::MAGICGUARD => 103,
        Abilities::SANDSTREAM => 104,
        Abilities::POWERSPOT => 105,
        Abilities::FLAMEBODY => 106,
        Abilities::RECKLESS => 107,
        Abilities::PRESSURE => 108,
        Abilities::GOOEY => 109,
        Abilities::IMMUNITY => 110,
        Abilities::LEAFGUARD => 111,
        Abilities::HUGEPOWER => 112,
        Abilities::SOLARPOWER => 113,
        Abilities::SCHOOLING => 114,
        Abilities::MOTORDRIVE => 115,
        Abilities::ANTICIPATION => 116,
        Abilities::MERCILESS => 117,
        Abilities::TRACE => 118,
        Abilities::NATURALCURE => 119,
        Abilities::HARVEST => 120,
        Abilities::SUCTIONCUPS => 121,
        Abilities::ICEFACE => 122,
        Abilities::ROUGHSKIN => 123,
        Abilities::WONDERGUARD => 124,
        Abilities::WATERVEIL => 125,
        Abilities::FAIRYAURA => 126,
        Abilities::SANDSPIT => 127,
        Abilities::SEEDSOWER => 128,
        Abilities::TOXICDEBRIS => 129,
        Abilities::INTIMIDATE => 130,
        Abilities::DAUNTLESSSHIELD => 131,
        Abilities::AROMAVEIL => 132,
        Abilities::AIRLOCK => 133,
        Abilities::NORMALIZE => 134,
        Abilities::DARKAURA => 135,
        Abilities::VICTORYSTAR => 136,
        Abilities::GRASSYSURGE => 137,
        Abilities::STURDY => 138,
        Abilities::PICKPOCKET => 139,
        Abilities::ELECTRICSURGE => 140,
        Abilities::HADRONENGINE => 141,
        Abilities::ORICHALCUMPULSE => 142,
        Abilities::RUNAWAY => 143,
        Abilities::OBLIVIOUS => 144,
        Abilities::SURGESURFER => 145,
        Abilities::LEVITATE => 146,
        Abilities::ASONESPECTRIER => 147,
        Abilities::PICKUP => 148,
        Abilities::ICEBODY => 149,
        Abilities::CURIOUSMEDICINE => 150,
        Abilities::FLOWERVEIL => 151,
        Abilities::STATIC => 152,
        Abilities::WONDERSKIN => 153,
        Abilities::OVERGROW => 154,
        Abilities::PROPELLERTAIL => 155,
        Abilities::THICKFAT => 156,
        Abilities::GLUTTONY => 157,
        Abilities::KEENEYE => 158,
        Abilities::MOUNTAINEER => 159,
        Abilities::FLASHFIRE => 160,
        Abilities::COMPOUNDEYES => 161,
        Abilities::STEELWORKER => 162,
        Abilities::COMATOSE => 163,
        Abilities::BALLFETCH => 164,
        Abilities::DAZZLING => 165,
        Abilities::DOWNLOAD => 166,
        Abilities::TRANSISTOR => 167,
        Abilities::MOLDBREAKER => 168,
        Abilities::MYCELIUMMIGHT => 169,
        Abilities::LIQUIDOOZE => 170,
        Abilities::POISONHEAL => 171,
        Abilities::PRISMARMOR => 172,
        Abilities::SNIPER => 173,
        Abilities::STENCH => 174,
        Abilities::COMPETITIVE => 175,
        Abilities::SWARM => 176,
        Abilities::STALWART => 177,
        Abilities::ILLUMINATE => 178,
        Abilities::TURBOBLAZE => 179,
        Abilities::GORILLATACTICS => 180,
        Abilities::SPEEDBOOST => 181,
        Abilities::GUARDDOG => 182,
        Abilities::HEATPROOF => 183,
        Abilities::SNOWCLOAK => 184,
        Abilities::TERAVOLT => 185,
        Abilities::CHILLINGNEIGH => 186,
        Abilities::SHIELDDUST => 187,
        Abilities::RIVALRY => 188,
        Abilities::PRIMORDIALSEA => 189,
        Abilities::SCREENCLEANER => 190,
        Abilities::MAGNETPULL => 191,
        Abilities::HONEYGATHER => 192,
        Abilities::COTTONDOWN => 193,
        Abilities::GRASSPELT => 194,
        Abilities::BATTLEARMOR => 195,
        Abilities::BEASTBOOST => 196,
        Abilities::BERSERK => 197,
        Abilities::MINUS => 198,
        Abilities::RAINDISH => 199,
        Abilities::SYNCHRONIZE => 200,
        Abilities::FILTER => 201,
        Abilities::TRUANT => 202,
        Abilities::FURCOAT => 203,
        Abilities::FULLMETALBODY => 204,
        Abilities::REGENERATOR => 205,
        Abilities::FOREWARN => 206,
        Abilities::IRONBARBS => 207,
        Abilities::STAMINA => 208,
        Abilities::SANDRUSH => 209,
        Abilities::COLORCHANGE => 210,
        Abilities::BLAZE => 211,
        Abilities::ANALYTIC => 212,
        Abilities::TANGLINGHAIR => 213,
        Abilities::CLOUDNINE => 214,
        Abilities::STEELYSPIRIT => 215,
        Abilities::QUICKFEET => 216,
        Abilities::MAGICBOUNCE => 217,
        Abilities::MEGALAUNCHER => 218,
        Abilities::HEAVYMETAL => 219,
        Abilities::STORMDRAIN => 220,
        Abilities::PIXILATE => 221,
        Abilities::WATERCOMPACTION => 222,
        Abilities::JUSTIFIED => 223,
        Abilities::SLOWSTART => 224,
        Abilities::SNOWWARNING => 225,
        Abilities::FLOWERGIFT => 226,
        Abilities::SHEDSKIN => 227,
        Abilities::WIMPOUT => 228,
        Abilities::ICESCALES => 229,
        Abilities::INFILTRATOR => 230,
        Abilities::LIMBER => 231,
        Abilities::PSYCHICSURGE => 232,
        Abilities::DEFEATIST => 233,
        Abilities::WATERABSORB => 234,
        Abilities::IMPOSTER => 235,
        Abilities::DRYSKIN => 236,
        Abilities::FLUFFY => 237,
        Abilities::UNBURDEN => 238,
        Abilities::CHEEKPOUCH => 239,
        Abilities::STANCECHANGE => 240,
        Abilities::MOODY => 241,
        Abilities::ROCKYPAYLOAD => 242,
        Abilities::PUNKROCK => 243,
        Abilities::SANDVEIL => 244,
        Abilities::PARENTALBOND => 245,
        Abilities::STRONGJAW => 246,
        Abilities::BATTERY => 247,
        Abilities::HEALER => 248,
        Abilities::STEADFAST => 249,
        Abilities::DAMP => 250,
        Abilities::PERISHBODY => 251,
        Abilities::TRIAGE => 252,
        Abilities::SHEERFORCE => 253,
        Abilities::OWNTEMPO => 254,
        Abilities::FRISK => 255,
        Abilities::VOLTABSORB => 256,
        Abilities::GALEWINGS => 257,
        Abilities::AFTERMATH => 258,
        Abilities::STICKYHOLD => 259,
        Abilities::GRIMNEIGH => 260,
        Abilities::IRONFIST => 261,
        Abilities::REBOUND => 262,
        Abilities::UNSEENFIST => 263,
        Abilities::SOLIDROCK => 264,
        Abilities::HUSTLE => 265,
        Abilities::HYDRATION => 266,
        Abilities::SCRAPPY => 267,
        Abilities::MINDSEYE => 268,
        Abilities::OVERCOAT => 269,
        Abilities::NEUTRALIZINGGAS => 270,
        Abilities::SWEETVEIL => 271,
        Abilities::DRIZZLE => 272,
        Abilities::INNERFOCUS => 273,
        Abilities::POISONTOUCH => 274,
        Abilities::WANDERINGSPIRIT => 275,
        Abilities::GUTS => 276,
        Abilities::SHELLARMOR => 277,
        Abilities::RATTLED => 278,
        Abilities::WATERBUBBLE => 279,
        Abilities::SANDFORCE => 280,
        Abilities::TOXICBOOST => 281,
        Abilities::PERSISTENT => 282,
        Abilities::CHLOROPHYLL => 283,
        Abilities::SIMPLE => 284,
        Abilities::PURIFYINGSALT => 285,
        Abilities::EMBODYASPECTWELLSPRING => 286,
        Abilities::EMBODYASPECTCORNERSTONE => 287,
        Abilities::EMBODYASPECTHEARTHFLAME => 288,
        Abilities::EMBODYASPECTTEAL => 289,
        Abilities::ANGERSHELL => 290,
        Abilities::BEADSOFRUIN => 291,
        Abilities::COMMANDER => 292,
        Abilities::COSTAR => 293,
        Abilities::CUDCHEW => 294,
        Abilities::ELECTROMORPHOSIS => 295,
        Abilities::EMBODYASPECT => 296,
        Abilities::GOODASGOLD => 297,
        Abilities::HOSPITALITY => 298,
        Abilities::LINGERINGAROMA => 299,
        Abilities::OPPORTUNIST => 300,
        Abilities::POISONPUPPETEER => 301,
        Abilities::PROTOSYNTHESIS => 302,
        Abilities::QUARKDRIVE => 303,
        Abilities::SUPERSWEETSYRUP => 304,
        Abilities::SWORDOFRUIN => 305,
        Abilities::TABLETSOFRUIN => 306,
        Abilities::TERASHELL => 307,
        Abilities::TERASHIFT => 308,
        Abilities::TERAFORMZERO => 309,
        Abilities::THERMALEXCHANGE => 310,
        Abilities::TOXICCHAIN => 311,
        Abilities::VESSELOFRUIN => 312,
        Abilities::WELLBAKEDBODY => 313,
        Abilities::WINDPOWER => 314,
        Abilities::ZEROTOHERO => 315,
        Abilities::MEGASOL => 316,
        Abilities::DRAGONIZE => 317,
        Abilities::SPICYSPRAY => 318,
        Abilities::PIERCINGDRILL => 319,
    }
}

/// Whether mold breaker (and the like) ignores this ability: the ignorable abilities.
pub open spec fn is_ignored_by_mold_breaker(ability: Abilities) -> bool {
    matches!(
        ability,
        Abilities::BATTLEARMOR
        | Abilities::CLEARBODY
        | Abilities::ARMORTAIL
        | Abilities::EARTHEATER
        | Abilities::GUARDDOG
        | Abilities::GOODASGOLD
        | Abilities::ILLUMINATE
        | Abilities::MINDSEYE
        | Abilities::PURIFYINGSALT
        | Abilities::TERASHELL
        | Abilities::TABLETSOFRUIN
        | Abilities::THERMALEXCHANGE
        | Abilities::WELLBAKEDBODY
        | Abilities::VESSELOFRUIN
        | Abilities::DAMP
        | Abilities::DRYSKIN
        | Abilities::FILTER
        | Abilities::FLASHFIRE
        | Abilities::FLOWERGIFT
        | Abilities::HEATPROOF
        | Abilities::HYPERCUTTER
        | Abilities::IMMUNITY
        | Abilities::INNERFOCUS
        | Abilities::INSOMNIA
        | Abilities::KEENEYE
        | Abilities::LEAFGUARD
        | Abilities::LEVITATE
        | Abilities::LIGHTNINGROD
        | Abilities::LIMBER
        | Abilities::MAGMAARMOR
        | Abilities::MARVELSCALE
        | Abilities::MOTORDRIVE
        | Abilities::WINDRIDER
        | Abilities::OBLIVIOUS
        | Abilities::OWNTEMPO
        | Abilities::SANDVEIL
        | Abilities::SHELLARMOR
        | Abilities::SHIELDDUST
        | Abilities::SIMPLE
        | Abilities::SNOWCLOAK
        | Abilities::SOLIDROCK
        | Abilities::SOUNDPROOF
        | Abilities::STICKYHOLD
        | Abilities::STORMDRAIN
        | Abilities::STURDY
        | Abilities::SUCTIONCUPS
        | Abilities::TANGLEDFEET
        | Abilities::THICKFAT
        | Abilities::UNAWARE
        | Abilities::VITALSPIRIT
        | Abilities::VOLTABSORB
        | Abilities::WATERABSORB
        | Abilities::WATERVEIL
        | Abilities::WHITESMOKE
        | Abilities::WONDERGUARD
        | Abilities::BIGPECKS
        | Abilities::CONTRARY
        | Abilities::FRIENDGUARD
        | Abilities::HEAVYMETAL
        | Abilities::LIGHTMETAL
        | Abilities::MAGICBOUNCE
        | Abilities::MULTISCALE
        | Abilities::SAPSIPPER
        | Abilities::TELEPATHY
        | Abilities::WONDERSKIN
        | Abilities::AURABREAK
        | Abilities::AROMAVEIL
        | Abilities::BULLETPROOF
        | Abilities::FLOWERVEIL
        | Abilities::FURCOAT
        | Abilities::OVERCOAT
        | Abilities::SWEETVEIL
        | Abilities::DAZZLING
        | Abilities::DISGUISE
        | Abilities::FLUFFY
        | Abilities::QUEENLYMAJESTY
        | Abilities::WATERBUBBLE
        | Abilities::ICESCALES
        | Abilities::ICEFACE
        | Abilities::MIRRORARMOR
        | Abilities::PASTELVEIL
        | Abilities::PUNKROCK
        | Abilities::FAIRYAURA
        | Abilities::DARKAURA
    )
}

/// Whether mold breaker (and the like) ignores this ability: the ignorable abilities.
pub fn mold_breaker_ignores(ability: &Abilities) -> (r: bool)
    ensures
        r == is_ignored_by_mold_breaker(*ability),
{
    match ability {
        Abilities::BATTLEARMOR
        | Abilities::CLEARBODY
        | Abilities::ARMORTAIL
        | Abilities::EARTHEATER
        | Abilities::GUARDDOG
        | Abilities::GOODASGOLD
        | Abilities::ILLUMINATE
        | Abilities::MINDSEYE
        | Abilities::PURIFYINGSALT
        | Abilities::TERASHELL
        | Abilities::TABLETSOFRUIN
        | Abilities::THERMALEXCHANGE
        | Abilities::WELLBAKEDBODY
        | Abilities::VESSELOFRUIN
        | Abilities::DAMP
        | Abilities::DRYSKIN
        | Abilities::FILTER
        | Abilities::FLASHFIRE
        | Abilities::FLOWERGIFT
        | Abilities::HEATPROOF
        | Abilities::HYPERCUTTER
        | Abilities::IMMUNITY
        | Abilities::INNERFOCUS
        | Abilities::INSOMNIA
        | Abilities::KEENEYE
        | Abilities::LEAFGUARD
        | Abilities::LEVITATE
        | Abilities::LIGHTNINGROD
        | Abilities::LIMBER
        | Abilities::MAGMAARMOR
        | Abilities::MARVELSCALE
        | Abilities::MOTORDRIVE
        | Abilities::WINDRIDER
        | Abilities::OBLIVIOUS
        | Abilities::OWNTEMPO
        | Abilities::SANDVEIL
        | Abilities::SHELLARMOR
        | Abilities::SHIELDDUST
        | Abilities::SIMPLE
        | Abilities::SNOWCLOAK
        | Abilities::SOLIDROCK
        | Abilities::SOUNDPROOF
        | Abilities::STICKYHOLD
        | Abilities::STORMDRAIN
        | Abilities::STURDY
        | Abilities::SUCTIONCUPS
        | Abilities::TANGLEDFEET
        | Abilities::THICKFAT
        | Abilities::UNAWARE
        | Abilities::VITALSPIRIT
        | Abilities::VOLTABSORB
        | Abilities::WATERABSORB
        | Abilities::WATERVEIL
        | Abilities::WHITESMOKE
        | Abilities::WONDERGUARD
        | Abilities::BIGPECKS
        | Abilities::CONTRARY
        | Abilities::FRIENDGUARD
        | Abilities::HEAVYMETAL
        | Abilities::LIGHTMETAL
        | Abilities::MAGICBOUNCE
        | Abilities::MULTISCALE
        | Abilities::SAPSIPPER
        | Abilities::TELEPATHY
        | Abilities::WONDERSKIN
        | Abilities::AURABREAK
        | Abilities::AROMAVEIL
        | Abilities::BULLETPROOF
        | Abilities::FLOWERVEIL
        | Abilities::FURCOAT
        | Abilities::OVERCOAT
        | Abilities::SWEETVEIL
        | Abilities::DAZZLING
        | Abilities::DISGUISE
        | Abilities::FLUFFY
        | Abilities::QUEENLYMAJESTY
        | Abilities::WATERBUBBLE
        | Abilities::ICESCALES
        | Abilities::ICEFACE
        | Abilities::MIRRORARMOR
        | Abilities::PASTELVEIL
        | Abilities::PUNKROCK
        | Abilities::FAIRYAURA
        | Abilities::DARKAURA => true,
        _ => false,
    }
}

/// Whether this ability stays when a contact ability (mummy, lingering aroma) would replace it.
pub open spec fn is_kept_on_contact(ability: Abilities) -> bool {
    matches!(
        ability,
        Abilities::ASONEGLASTRIER
        | Abilities::ASONESPECTRIER
        | Abilities::BATTLEBOND
        | Abilities::COMATOSE
        | Abilities::DISGUISE
        | Abilities::GULPMISSILE
        | Abilities::ICEFACE
        | Abilities::MULTITYPE
        | Abilities::POWERCONSTRUCT
        | Abilities::RKSSYSTEM
        | Abilities::SCHOOLING
        | Abilities::SHIELDSDOWN
        | Abilities::STANCECHANGE
        | Abilities::TERASHIFT
        | Abilities::ZENMODE
        | Abilities::ZEROTOHERO
    )
}

/// Whether this ability stays when a contact ability (mummy, lingering aroma) would replace it.
pub fn ability_cannot_be_replaced_by_contact(ability: Abilities) -> (r: bool)
    ensures
        r == is_kept_on_contact(ability),
{
    match ability {
        Abilities::ASONEGLASTRIER
        | Abilities::ASONESPECTRIER
        | Abilities::BATTLEBOND
        | Abilities::COMATOSE
        | Abilities::DISGUISE
        | Abilities::GULPMISSILE
        | Abilities::ICEFACE
        | Abilities::MULTITYPE
        | Abilities::POWERCONSTRUCT
        | Abilities::RKSSYSTEM
        | Abilities::SCHOOLING
        | Abilities::SHIELDSDOWN
        | Abilities::STANCECHANGE
        | Abilities::TERASHIFT
        | Abilities::ZENMODE
        | Abilities::ZEROTOHERO => true,
        _ => false,
    }
}

/// Whether this ability cannot be swapped away or in by a skill swap (wandering spirit).
pub open spec fn is_refused_by_skill_swap(ability: Abilities) -> bool {
    matches!(
        ability,
        Abilities::ASONEGLASTRIER
        | Abilities::ASONESPECTRIER
        | Abilities::BATTLEBOND
        | Abilities::COMATOSE
        | Abilities::COMMANDER
        | Abilities::DISGUISE
        | Abilities::EMBODYASPECT
        | Abilities::EMBODYASPECTCORNERSTONE
        | Abilities::EMBODYASPECTHEARTHFLAME
        | Abilities::EMBODYASPECTTEAL
        | Abilities::EMBODYASPECTWELLSPRING
        | Abilities::HUNGERSWITCH
        | Abilities::ICEFACE
        | Abilities::ILLUSION
        | Abilities::MULTITYPE
        | Abilities::NEUTRALIZINGGAS
        | Abilities::POISONPUPPETEER
        | Abilities::POWERCONSTRUCT
        | Abilities::PROTOSYNTHESIS
        | Abilities::QUARKDRIVE
        | Abilities::RKSSYSTEM
        | Abilities::SCHOOLING
        | Abilities::SHIELDSDOWN
        | Abilities::STANCECHANGE
        | Abilities::TERAFORMZERO
        | Abilities::TERASHELL
        | Abilities::TERASHIFT
        | Abilities::WONDERGUARD
        | Abilities::ZENMODE
        | Abilities::ZEROTOHERO
    )
}

/// Whether this ability cannot be swapped away or in by a skill swap (wandering spirit).
pub fn ability_fails_skill_swap(ability: Abilities) -> (r: bool)
    ensures
        r == is_refused_by_skill_swap(ability),
{
    match ability {
        Abilities::ASONEGLASTRIER
        | Abilities::ASONESPECTRIER
        | Abilities::BATTLEBOND
        | Abilities::COMATOSE
        | Abilities::COMMANDER
        | Abilities::DISGUISE
        | Abilities::EMBODYASPECT
        | Abilities::EMBODYASPECTCORNERSTONE
        | Abilities::EMBODYASPECTHEARTHFLAME
        | Abilities::EMBODYASPECTTEAL
        | Abilities::EMBODYASPECTWELLSPRING
        | Abilities::HUNGERSWITCH
        | Abilities::ICEFACE
        | Abilities::ILLUSION
        | Abilities::MULTITYPE
        | Abilities::NEUTRALIZINGGAS
        | Abilities::POISONPUPPETEER
        | Abilities::POWERCONSTRUCT
        | Abilities::PROTOSYNTHESIS
        | Abilities::QUARKDRIVE
        | Abilities::RKSSYSTEM
        | Abilities::SCHOOLING
        | Abilities::SHIELDSDOWN
        | Abilities::STANCECHANGE
        | Abilities::TERAFORMZERO
        | Abilities::TERASHELL
        | Abilities::TERASHIFT
        | Abilities::WONDERGUARD
        | Abilities::ZENMODE
        | Abilities::ZEROTOHERO => true,
        _ => false,
    }
}

/// Whether trace cannot copy this ability.
pub open spec fn is_refused_by_trace(ability: Abilities) -> bool {
    matches!(
        ability,
        Abilities::NONE
        | Abilities::ASONEGLASTRIER
        | Abilities::ASONESPECTRIER
        | Abilities::BATTLEBOND
        | Abilities::COMATOSE
        | Abilities::COMMANDER
        | Abilities::DISGUISE
        | Abilities::EMBODYASPECTCORNERSTONE
        | Abilities::EMBODYASPECTHEARTHFLAME
        | Abilities::EMBODYASPECTTEAL
        | Abilities::EMBODYASPECTWELLSPRING
        | Abilities::FLOWERGIFT
        | Abilities::FORECAST
        | Abilities::HUNGERSWITCH
        | Abilities::ICEFACE
        | Abilities::ILLUSION
        | Abilities::IMPOSTER
        | Abilities::MULTITYPE
        | Abilities::NEUTRALIZINGGAS
        | Abilities::POISONPUPPETEER
        | Abilities::POWERCONSTRUCT
        | Abilities::POWEROFALCHEMY
        | Abilities::PROTOSYNTHESIS
        | Abilities::QUARKDRIVE
        | Abilities::RECEIVER
        | Abilities::RKSSYSTEM
        | Abilities::SCHOOLING
        | Abilities::SHIELDSDOWN
        | Abilities::STANCECHANGE
        | Abilities::TERAFORMZERO
        | Abilities::TERASHELL
        | Abilities::TERASHIFT
        | Abilities::TRACE
        | Abilities::ZENMODE
        | Abilities::ZEROTOHERO
    )
}

/// Whether trace cannot copy this ability.
pub fn ability_fails_trace(ability: Abilities) -> (r: bool)
    ensures
        r == is_refused_by_trace(ability),
{
    match ability {
        Abilities::NONE
        | Abilities::ASONEGLASTRIER
        | Abilities::ASONESPECTRIER
        | Abilities::BATTLEBOND
        | Abilities::COMATOSE
        | Abilities::COMMANDER
        | Abilities::DISGUISE
        | Abilities::EMBODYASPECTCORNERSTONE
        | Abilities::EMBODYASPECTHEARTHFLAME
        | Abilities::EMBODYASPECTTEAL
        | Abilities::EMBODYASPECTWELLSPRING
        | Abilities::FLOWERGIFT
        | Abilities::FORECAST
        | Abilities::HUNGERSWITCH
        | Abilities::ICEFACE
        | Abilities::ILLUSION
        | Abilities::IMPOSTER
        | Abilities::MULTITYPE
        | Abilities::NEUTRALIZINGGAS
        | Abilities::POISONPUPPETEER
        | Abilities::POWERCONSTRUCT
        | Abilities::POWEROFALCHEMY
        | Abilities::PROTOSYNTHESIS
        | Abilities::QUARKDRIVE
        | Abilities::RECEIVER
        | Abilities::RKSSYSTEM
        | Abilities::SCHOOLING
        | Abilities::SHIELDSDOWN
        | Abilities::STANCECHANGE
        | Abilities::TERAFORMZERO
        | Abilities::TERASHELL
        | Abilities::TERASHIFT
        | Abilities::TRACE
        | Abilities::ZENMODE
        | Abilities::ZEROTOHERO => true,
        _ => false,
    }
}


/// The volatile status protosynthesis gives for a side whose highest stat is the given one.
pub open spec fn protosynthesis_volatile(stat: PokemonBoostableStat) -> PokemonVolatileStatus {
    match stat {
        PokemonBoostableStat::Attack => PokemonVolatileStatus::PROTOSYNTHESISATK,
        PokemonBoostableStat::Defense => PokemonVolatileStatus::PROTOSYNTHESISDEF,
        PokemonBoostableStat::SpecialAttack => PokemonVolatileStatus::PROTOSYNTHESISSPA,
        PokemonBoostableStat::SpecialDefense => PokemonVolatileStatus::PROTOSYNTHESISSPD,
        _ => PokemonVolatileStatus::PROTOSYNTHESISSPE,
    }
}

/// The volatile status quark drive gives for a side whose highest stat is the given one.
pub open spec fn quarkdrive_volatile(stat: PokemonBoostableStat) -> PokemonVolatileStatus {
    match stat {
        PokemonBoostableStat::Attack => PokemonVolatileStatus::QUARKDRIVEATK,
        PokemonBoostableStat::Defense => PokemonVolatileStatus::QUARKDRIVEDEF,
        PokemonBoostableStat::SpecialAttack => PokemonVolatileStatus::QUARKDRIVESPA,
        PokemonBoostableStat::SpecialDefense => PokemonVolatileStatus::QUARKDRIVESPD,
        _ => PokemonVolatileStatus::QUARKDRIVESPE,
    }
}

/// A side's highest stat is one of the five battle stats, never evasion or accuracy.
pub open spec fn is_battle_stat(stat: PokemonBoostableStat) -> bool {
    !(stat is Evasion) && !(stat is Accuracy)
}

/// The protosynthesis volatile for a side, given the side's highest stat.
pub fn protosynthesis_volatile_from_side(highest_stat: PokemonBoostableStat) -> (r:
    PokemonVolatileStatus)
    requires
        is_battle_stat(highest_stat),
    ensures
        r == protosynthesis_volatile(highest_stat),
{
    match highest_stat {
        PokemonBoostableStat::Attack => PokemonVolatileStatus::PROTOSYNTHESISATK,
        PokemonBoostableStat::Defense => PokemonVolatileStatus::PROTOSYNTHESISDEF,
        PokemonBoostableStat::SpecialAttack => PokemonVolatileStatus::PROTOSYNTHESISSPA,
        PokemonBoostableStat::SpecialDefense => PokemonVolatileStatus::PROTOSYNTHESISSPD,
        _ => PokemonVolatileStatus::PROTOSYNTHESISSPE,
    }
}

/// The quark drive volatile for a side, given the side's highest stat.
pub fn quarkdrive_volatile_from_side(highest_stat: PokemonBoostableStat) -> (r:
    PokemonVolatileStatus)
    requires
        is_battle_stat(highest_stat),
    ensures
        r == quarkdrive_volatile(highest_stat),
{
    match highest_stat {
        PokemonBoostableStat::Attack => PokemonVolatileStatus::QUARKDRIVEATK,
        PokemonBoostableStat::Defense => PokemonVolatileStatus::QUARKDRIVEDEF,
        PokemonBoostableStat::SpecialAttack => PokemonVolatileStatus::QUARKDRIVESPA,
        PokemonBoostableStat::SpecialDefense => PokemonVolatileStatus::QUARKDRIVESPD,
        _ => PokemonVolatileStatus::QUARKDRIVESPE,
    }
}

/// The instruction that gives a side a volatile status.
pub open spec fn apply_volatile(side_ref: SideReference, status: PokemonVolatileStatus) -> Instruction {
    Instruction::ApplyVolatileStatus(
        ApplyVolatileStatusInstruction { side_ref: side_ref, volatile_status: status },
    )
}

/// Whether charge would be applied to a side: its active pokemon stands and is not yet charged.
pub open spec fn charge_applies(side: Side) -> bool {
    side.active().hp != 0 && !side.volatiles().contains(PokemonVolatileStatus::CHARGE)
}

/// Charges the active pokemon of a side (electromorphosis, wind power), recording it,
/// unless it has fainted or is already charged.
pub fn apply_charge_volatile(
    side: &mut Side,
    side_ref: SideReference,
    instructions: &mut Vec<Instruction>,
)
    requires
        old(side).wf(),
    ensures
        final(side).wf(),
        final(side).pokemon == old(side).pokemon,
        final(side).active_index == old(side).active_index,
        final(side).side_conditions == old(side).side_conditions,
        final(side).speed_boost == old(side).speed_boost,
        charge_applies(*old(side)) ==> {
            &&& final(instructions)@ == old(instructions)@.push(
                apply_volatile(side_ref, PokemonVolatileStatus::CHARGE),
            )
            &&& final(side).volatiles() == old(side).volatiles().insert(
                PokemonVolatileStatus::CHARGE,
            )
        },
        !charge_applies(*old(side)) ==> {
            &&& final(instructions)@ == old(instructions)@
            &&& final(side).volatile_statuses == old(side).volatile_statuses
        },
        !charge_applies(*final(side)),
{
    if side.get_active_immutable().hp == 0 || side.has_volatile(PokemonVolatileStatus::CHARGE) {
        return;
    }
    instructions.push(
        Instruction::ApplyVolatileStatus(
            ApplyVolatileStatusInstruction {
                side_ref,
                volatile_status: PokemonVolatileStatus::CHARGE,
            },
        ),
    );
    side.add_volatile(PokemonVolatileStatus::CHARGE);
}

/// What protosynthesis or quark drive does on switch-in. When its weather or
/// terrain is up, the stat volatile is given (and recorded) unless the side has
/// it. Otherwise, when the active pokemon holds a working booster energy, the
/// item is used up and both the stat volatile and the booster volatile are given,
/// in that order of record. Otherwise nothing happens.
pub fn protosynthesus_or_quarkdrive_on_switch_in(
    thing_is_active: bool,
    item_is_active: bool,
    volatile: PokemonVolatileStatus,
    booster_volatile: PokemonVolatileStatus,
    instructions: &mut Vec<Instruction>,
    attacking_side: &mut Side,
    side_ref: &SideReference,
)
    requires
        old(attacking_side).wf(),
    ensures
        final(attacking_side).wf(),
        final(attacking_side).active_index == old(attacking_side).active_index,
        final(attacking_side).side_conditions == old(attacking_side).side_conditions,
        final(attacking_side).speed_boost == old(attacking_side).speed_boost,
        thing_is_active && !old(attacking_side).volatiles().contains(volatile) ==> {
            &&& final(instructions)@ == old(instructions)@.push(apply_volatile(*side_ref, volatile))
            &&& final(attacking_side).volatiles() == old(attacking_side).volatiles().insert(
                volatile,
            )
            &&& final(attacking_side).pokemon == old(attacking_side).pokemon
        },
        thing_is_active && old(attacking_side).volatiles().contains(volatile) ==> {
            &&& final(instructions)@ == old(instructions)@
            &&& final(attacking_side).volatile_statuses == old(attacking_side).volatile_statuses
            &&& final(attacking_side).pokemon == old(attacking_side).pokemon
        },
        !thing_is_active && item_is_active && old(attacking_side).active().item
            == Items::BOOSTERENERGY ==> {
            &&& final(instructions)@ == old(instructions)@.push(
                Instruction::ChangeItem(
                    ChangeItemInstruction {
                        side_ref: *side_ref,
                        current_item: Items::BOOSTERENERGY,
                        new_item: Items::NONE,
                    },
                ),
            ).push(apply_volatile(*side_ref, volatile)).push(
                apply_volatile(*side_ref, booster_volatile),
            )
            &&& final(attacking_side).volatiles() == old(attacking_side).volatiles().insert(
                volatile,
            ).insert(booster_volatile)
            &&& final(attacking_side).pokemon@ == old(attacking_side).pokemon@.update(
                old(attacking_side).active_index.spec_position(),
                crate::state::Pokemon { item: Items::NONE, ..old(attacking_side).active() },
            )
        },
        !thing_is_active && !(item_is_active && old(attacking_side).active().item
            == Items::BOOSTERENERGY) ==> {
            &&& final(instructions)@ == old(instructions)@
            &&& final(attacking_side).volatile_statuses == old(attacking_side).volatile_statuses
            &&& final(attacking_side).pokemon == old(attacking_side).pokemon
        },
{
    if thing_is_active {
        if !attacking_side.has_volatile(volatile) {
            instructions.push(
                Instruction::ApplyVolatileStatus(
                    ApplyVolatileStatusInstruction { side_ref: *side_ref, volatile_status: volatile },
                ),
            );
            attacking_side.add_volatile(volatile);
        }
    } else if attacking_side.get_active_immutable().item == Items::BOOSTERENERGY && item_is_active {
        instructions.push(
            Instruction::ChangeItem(
                ChangeItemInstruction {
                    side_ref: *side_ref,
                    current_item: Items::BOOSTERENERGY,
                    new_item: Items::NONE,
                },
            ),
        );
        instructions.push(
            Instruction::ApplyVolatileStatus(
                ApplyVolatileStatusInstruction { side_ref: *side_ref, volatile_status: volatile },
            ),
        );
        instructions.push(
            Instruction::ApplyVolatileStatus(
                ApplyVolatileStatusInstruction {
                    side_ref: *side_ref,
                    volatile_status: booster_volatile,
                },
            ),
        );
        attacking_side.set_active_item(Items::NONE);
        attacking_side.add_volatile(volatile);
        attacking_side.add_volatile(booster_volatile);
    }
}

/// Whether toxic debris lays a layer of toxic spikes when a substitute is hit:
/// the defender has toxic debris, the move did damage, it is physical, and the
/// attacker's side has fewer than two layers.
pub open spec fn toxic_debris_lays_spikes(
    attacking_side: Side,
    defending_ability: Abilities,
    choice: Choice,
    damage_dealt: i16,
) -> bool {
    &&& defending_ability == Abilities::TOXICDEBRIS
    &&& damage_dealt > 0
    &&& choice.category == MoveCategory::Physical
    &&& attacking_side.side_conditions.toxic_spikes < 2
}

/// What the defender's ability does when a move hits its substitute: toxic debris
/// adds a layer of toxic spikes to the attacker's side, recorded as an instruction.
pub fn ability_after_substitute_hit(
    attacking_side: &mut Side,
    defending_side: &Side,
    defending_ability: Abilities,
    choice: &Choice,
    side_ref: &SideReference,
    damage_dealt: i16,
    instructions: &mut Vec<Instruction>,
)
    ensures
        final(attacking_side).pokemon == old(attacking_side).pokemon,
        final(attacking_side).active_index == old(attacking_side).active_index,
        final(attacking_side).volatile_statuses == old(attacking_side).volatile_statuses,
        final(attacking_side).speed_boost == old(attacking_side).speed_boost,
        toxic_debris_lays_spikes(*old(attacking_side), defending_ability, *choice, damage_dealt)
            ==> {
            &&& final(instructions)@ == old(instructions)@.push(
                Instruction::ChangeSideCondition(
                    ChangeSideConditionInstruction {
                        side_ref: *side_ref,
                        side_condition: PokemonSideCondition::ToxicSpikes,
                        amount: 1,
                    },
                ),
            )
            &&& final(attacking_side).side_conditions == (SideConditions {
                toxic_spikes: (old(attacking_side).side_conditions.toxic_spikes + 1) as i8,
                ..old(attacking_side).side_conditions
            })
        },
        !toxic_debris_lays_spikes(*old(attacking_side), defending_ability, *choice, damage_dealt)
            ==> {
            &&& final(instructions)@ == old(instructions)@
            &&& final(attacking_side).side_conditions == old(attacking_side).side_conditions
        },
{
    if defending_ability == Abilities::TOXICDEBRIS && damage_dealt > 0 && choice.category
        == MoveCategory::Physical && attacking_side.side_conditions.toxic_spikes < 2 {
        instructions.push(
            Instruction::ChangeSideCondition(
                ChangeSideConditionInstruction {
                    side_ref: *side_ref,
                    side_condition: PokemonSideCondition::ToxicSpikes,
                    amount: 1,
                },
            ),
        );
        attacking_side.side_conditions.toxic_spikes = attacking_side.side_conditions.toxic_spikes
            + 1;
    }
}


/// The instruction that changes a side's active pokemon from one forme to another.
pub open spec fn forme_change(side_ref: SideReference, from: PokemonName, to: PokemonName) -> Instruction {
    Instruction::FormeChange(
        FormeChangeInstruction {
            side_ref: side_ref,
            name_change: (to.spec_number() - from.spec_number()) as i16,
        },
    )
}

/// The weather a primal ability leaves behind when its holder switches out: it
/// ends its own weather unless the opposing active pokemon stands and has the
/// same ability.
pub open spec fn primal_weather_ends(
    weather: StateWeather,
    primal_weather: Weather,
    ability: Abilities,
    other_active_hp: i16,
    other_active_ability: Abilities,
) -> bool {
    weather.weather_type == primal_weather && (other_active_hp == 0 || other_active_ability
        != ability)
}

/// How much regenerator heals: a third of the maximum hp, no more than is missing.
pub open spec fn regenerator_heal(p: Pokemon) -> int {
    if p.maxhp / 3 <= p.maxhp - p.hp {
        p.maxhp / 3
    } else {
        p.maxhp - p.hp
    }
}

/// What the active pokemon's ability does when it switches out, before the
/// ability reverts: the pokemon after it, the weather after it, and the
/// instructions recording it.
pub open spec fn switch_out_ability_effect(
    side: Side,
    weather: StateWeather,
    side_ref: SideReference,
    other_active_hp: i16,
    other_active_ability: Abilities,
    ability_is_suppressed: bool,
    hero_stat_changes: Seq<Instruction>,
) -> (Pokemon, StateWeather, Seq<Instruction>) {
    let p = side.active();
    let ability = if ability_is_suppressed {
        Abilities::NONE
    } else {
        p.ability
    };
    let none = seq![];
    if ability == Abilities::GULPMISSILE && p.base_ability == Abilities::GULPMISSILE {
        if p.id != PokemonName::CRAMORANT {
            (
                Pokemon { id: PokemonName::CRAMORANT, ..p },
                weather,
                seq![forme_change(side_ref, p.id, PokemonName::CRAMORANT)],
            )
        } else {
            (p, weather, none)
        }
    } else if ability == Abilities::ZEROTOHERO {
        if p.id == PokemonName::PALAFIN {
            (
                Pokemon { id: PokemonName::PALAFINHERO, ..p },
                weather,
                seq![forme_change(side_ref, p.id, PokemonName::PALAFINHERO)] + hero_stat_changes,
            )
        } else {
            (p, weather, none)
        }
    } else if ability == Abilities::HUNGERSWITCH {
        if p.id == PokemonName::MORPEKOHANGRY && !p.terastallized {
            (
                Pokemon { id: PokemonName::MORPEKO, ..p },
                weather,
                seq![forme_change(side_ref, p.id, PokemonName::MORPEKO)],
            )
        } else {
            (p, weather, none)
        }
    } else if ability == Abilities::NATURALCURE {
        if p.status != PokemonStatus::NONE {
            (
                Pokemon { status: PokemonStatus::NONE, ..p },
                weather,
                seq![
                    Instruction::ChangeStatus(
                        ChangeStatusInstruction {
                            side_ref: side_ref,
                            pokemon_index: side.active_index,
                            old_status: p.status,
                            new_status: PokemonStatus::NONE,
                        },
                    ),
                ],
            )
        } else {
            (p, weather, none)
        }
    } else if ability == Abilities::REGENERATOR {
        if regenerator_heal(p) > 0 && p.hp > 0 {
            (
                Pokemon { hp: (p.hp + regenerator_heal(p)) as i16, ..p },
                weather,
                seq![
                    Instruction::Heal(
                        HealInstruction {
                            side_ref: side_ref,
                            heal_amount: regenerator_heal(p) as i16,
                        },
                    ),
                ],
            )
        } else {
            (p, weather, none)
        }
    } else if (ability == Abilities::PRIMORDIALSEA && primal_weather_ends(
        weather,
        Weather::HEAVYRAIN,
        ability,
        other_active_hp,
        other_active_ability,
    )) || (ability == Abilities::DESOLATELAND && primal_weather_ends(
        weather,
        Weather::HARSHSUN,
        ability,
        other_active_hp,
        other_active_ability,
    )) {
        (
            p,
            StateWeather { weather_type: Weather::NONE, turns_remaining: -1i8 },
            seq![
                Instruction::ChangeWeather(
                    ChangeWeather {
                        new_weather: Weather::NONE,
                        new_weather_turns_remaining: -1i8,
                        previous_weather: weather.weather_type,
                        previous_weather_turns_remaining: weather.turns_remaining,
                    },
                ),
            ],
        )
    } else {
        (p, weather, none)
    }
}

/// A primal weather leaves with its only source: when a pokemon with primordial
/// sea (or desolate land) switches out in heavy rain (or harsh sun) and the
/// opposing active pokemon has fainted or lacks the same ability, the weather
/// becomes none until replaced, recorded by one weather change; when the
/// opposing active pokemon stands with the same ability, or the weather is
/// another, the weather stays and nothing is recorded.
pub proof fn law_primal_weather_leaves_with_its_holder(
    side: Side,
    weather: StateWeather,
    side_ref: SideReference,
    other_active_hp: i16,
    other_active_ability: Abilities,
    hero_stat_changes: Seq<Instruction>,
    ability: Abilities,
    primal_weather: Weather,
)
    requires
        (ability == Abilities::PRIMORDIALSEA && primal_weather == Weather::HEAVYRAIN) || (ability
            == Abilities::DESOLATELAND && primal_weather == Weather::HARSHSUN),
        side.active().ability == ability,
    ensures
        ({
            let e = switch_out_ability_effect(
                side,
                weather,
                side_ref,
                other_active_hp,
                other_active_ability,
                false,
                hero_stat_changes,
            );
            &&& e.0 == side.active()
            &&& weather.weather_type == primal_weather && (other_active_hp == 0
                || other_active_ability != ability) ==> {
                &&& e.1 == (StateWeather { weather_type: Weather::NONE, turns_remaining: -1i8 })
                &&& e.2 == seq![
                    Instruction::ChangeWeather(
                        ChangeWeather {
                            new_weather: Weather::NONE,
                            new_weather_turns_remaining: -1i8,
                            previous_weather: primal_weather,
                            previous_weather_turns_remaining: weather.turns_remaining,
                        },
                    ),
                ]
            }
            &&& !(weather.weather_type == primal_weather && (other_active_hp == 0
                || other_active_ability != ability)) ==> {
                &&& e.1 == weather
                &&& e.2.len() == 0
            }
        }),
{
}

/// A suppressed ability does nothing as its holder switches out: the pokemon
/// and the weather stay, and nothing but the revert of its ability is recorded.
pub proof fn law_suppressed_ability_on_switch_out(
    side: Side,
    weather: StateWeather,
    side_ref: SideReference,
    other_active_hp: i16,
    other_active_ability: Abilities,
    hero_stat_changes: Seq<Instruction>,
)
    ensures
        ({
            let e = switch_out_ability_effect(
                side,
                weather,
                side_ref,
                other_active_hp,
                other_active_ability,
                true,
                hero_stat_changes,
            );
            &&& e.0 == side.active()
            &&& e.1 == weather
            &&& e.2.len() == 0
        }),
{
}

/// What switching out does to the pokemon that leaves: its ability reverts to
/// its base ability; regenerator heals a third of the maximum hp, no more than
/// is missing, unless it has fainted, and nothing else changes its hp; natural
/// cure clears the status, and nothing else changes it; zero to hero turns
/// palafin into its hero forme, hunger switch turns a hangry morpeko that has
/// not terastallized back, gulp missile (as its base ability) turns cramorant
/// back, and nothing else changes the species; the item, the maximum hp and the
/// base ability stay.
pub proof fn law_switched_out_pokemon(
    side: Side,
    weather: StateWeather,
    side_ref: SideReference,
    other_active_hp: i16,
    other_active_ability: Abilities,
    ability_is_suppressed: bool,
    hero_stat_changes: Seq<Instruction>,
)
    ensures
        ({
            let p = side.active();
            let a = if ability_is_suppressed {
                Abilities::NONE
            } else {
                p.ability
            };
            let q = switched_out_pokemon(
                side,
                weather,
                side_ref,
                other_active_hp,
                other_active_ability,
                ability_is_suppressed,
                hero_stat_changes,
            );
            &&& q.ability == p.base_ability
            &&& q.base_ability == p.base_ability
            &&& q.item == p.item
            &&& q.maxhp == p.maxhp
            &&& a == Abilities::REGENERATOR && 0 < p.hp <= p.maxhp ==> q.hp == p.hp + (if p.maxhp
                / 3 <= p.maxhp - p.hp {
                p.maxhp / 3
            } else {
                p.maxhp - p.hp
            })
            &&& a != Abilities::REGENERATOR || p.hp == 0 ==> q.hp == p.hp
            &&& a == Abilities::NATURALCURE ==> q.status == PokemonStatus::NONE
            &&& a != Abilities::NATURALCURE ==> q.status == p.status
            &&& a == Abilities::ZEROTOHERO && p.id == PokemonName::PALAFIN ==> q.id
                == PokemonName::PALAFINHERO
            &&& a == Abilities::HUNGERSWITCH && p.id == PokemonName::MORPEKOHANGRY
                && !p.terastallized ==> q.id == PokemonName::MORPEKO
            &&& a == Abilities::GULPMISSILE && p.base_ability == Abilities::GULPMISSILE ==> q.id
                == PokemonName::CRAMORANT
            &&& !(a == Abilities::ZEROTOHERO || a == Abilities::HUNGERSWITCH || (a
                == Abilities::GULPMISSILE && p.base_ability == Abilities::GULPMISSILE)) ==> q.id
                == p.id
        }),
{
}

/// The instructions that revert a pokemon's ability to its base ability: one
/// when they differ, none otherwise.
pub open spec fn ability_revert(side_ref: SideReference, p: Pokemon) -> Seq<Instruction> {
    if p.ability != p.base_ability {
        seq![
            Instruction::ChangeAbility(
                ChangeAbilityInstruction {
                    side_ref: side_ref,
                    ability_change: (ability_number_of(p.base_ability) - ability_number_of(
                        p.ability,
                    )) as i16,
                },
            ),
        ]
    } else {
        seq![]
    }
}

/// The active pokemon of a side after it switches out.
pub open spec fn switched_out_pokemon(
    side: Side,
    weather: StateWeather,
    side_ref: SideReference,
    other_active_hp: i16,
    other_active_ability: Abilities,
    ability_is_suppressed: bool,
    hero_stat_changes: Seq<Instruction>,
) -> Pokemon {
    let p = switch_out_ability_effect(
        side,
        weather,
        side_ref,
        other_active_hp,
        other_active_ability,
        ability_is_suppressed,
        hero_stat_changes,
    ).0;
    Pokemon { ability: p.base_ability, ..p }
}

/// The instructions a switch-out records: the ability's effect, then the revert.
pub open spec fn switch_out_instructions(
    side: Side,
    weather: StateWeather,
    side_ref: SideReference,
    other_active_hp: i16,
    other_active_ability: Abilities,
    ability_is_suppressed: bool,
    hero_stat_changes: Seq<Instruction>,
) -> Seq<Instruction> {
    let e = switch_out_ability_effect(
        side,
        weather,
        side_ref,
        other_active_hp,
        other_active_ability,
        ability_is_suppressed,
        hero_stat_changes,
    );
    e.2 + ability_revert(side_ref, e.0)
}

#[verifier::rlimit(100)]
#[verifier::spinoff_prover]
fn switch_out_side(
    side: &mut Side,
    weather: &mut StateWeather,
    side_ref: SideReference,
    other_active_hp: i16,
    other_active_ability: Abilities,
    ability_is_suppressed: bool,
    hero_stat_changes: Vec<Instruction>,
    instructions: &mut Vec<Instruction>,
)
    requires
        old(side).wf(),
    ensures
        final(side).wf(),
        final(side).pokemon@ == old(side).pokemon@.update(
            old(side).active_index.spec_position(),
            switched_out_pokemon(
                *old(side),
                *old(weather),
                side_ref,
                other_active_hp,
                other_active_ability,
                ability_is_suppressed,
                hero_stat_changes@,
            ),
        ),
        final(side).active_index == old(side).active_index,
        final(side).volatile_statuses == old(side).volatile_statuses,
        final(side).speed_boost == old(side).speed_boost,
        final(side).side_conditions == old(side).side_conditions,
        *final(weather) == switch_out_ability_effect(
            *old(side),
            *old(weather),
            side_ref,
            other_active_hp,
            other_active_ability,
            ability_is_suppressed,
            hero_stat_changes@,
        ).1,
        final(instructions)@ == old(instructions)@ + switch_out_instructions(
            *old(side),
            *old(weather),
            side_ref,
            other_active_hp,
            other_active_ability,
            ability_is_suppressed,
            hero_stat_changes@,
        ),
{
    let ghost start = instructions@;
    let ghost hero = hero_stat_changes@;
    let ghost effect = switch_out_ability_effect(
        *side,
        *weather,
        side_ref,
        other_active_hp,
        other_active_ability,
        ability_is_suppressed,
        hero,
    );
    let mut hero_stat_changes = hero_stat_changes;
    let p = *side.get_active_immutable();
    let ability = if ability_is_suppressed {
        Abilities::NONE
    } else {
        p.ability
    };
    let mut np = p;
    if ability == Abilities::GULPMISSILE && p.base_ability == Abilities::GULPMISSILE {
        if p.id != PokemonName::CRAMORANT {
            instructions.push(
                Instruction::FormeChange(
                    FormeChangeInstruction {
                        side_ref,
                        name_change: PokemonName::CRAMORANT.number() - p.id.number(),
                    },
                ),
            );
            np.id = PokemonName::CRAMORANT;
        }
    } else if ability == Abilities::ZEROTOHERO {
        if p.id == PokemonName::PALAFIN {
            instructions.push(
                Instruction::FormeChange(
                    FormeChangeInstruction {
                        side_ref,
                        name_change: PokemonName::PALAFINHERO.number() - p.id.number(),
                    },
                ),
            );
            np.id = PokemonName::PALAFINHERO;
            instructions.append(&mut hero_stat_changes);
        }
    } else if ability == Abilities::HUNGERSWITCH {
        if p.id == PokemonName::MORPEKOHANGRY && !p.terastallized {
            instructions.push(
                Instruction::FormeChange(
                    FormeChangeInstruction {
                        side_ref,
                        name_change: PokemonName::MORPEKO.number() - p.id.number(),
                    },
                ),
            );
            np.id = PokemonName::MORPEKO;
        }
    } else if ability == Abilities::NATURALCURE {
        if p.status != PokemonStatus::NONE {
            np.status = PokemonStatus::NONE;
            instructions.push(
                Instruction::ChangeStatus(
                    ChangeStatusInstruction {
                        side_ref,
                        pokemon_index: side.active_index,
                        old_status: p.status,
                        new_status: PokemonStatus::NONE,
                    },
                ),
            );
        }
    } else if ability == Abilities::REGENERATOR {
        if p.hp > 0 && p.hp < p.maxhp {
            let third = p.maxhp / 3;
            let missing = p.maxhp - p.hp;
            let hp_recovered = if third <= missing {
                third
            } else {
                missing
            };
            if hp_recovered > 0 {
                instructions.push(
                    Instruction::Heal(HealInstruction { side_ref, heal_amount: hp_recovered }),
                );
                np.hp = p.hp + hp_recovered;
            }
        }
    } else if (ability == Abilities::PRIMORDIALSEA && weather.weather_type == Weather::HEAVYRAIN
        && (other_active_hp == 0 || other_active_ability != Abilities::PRIMORDIALSEA)) || (
    ability == Abilities::DESOLATELAND && weather.weather_type == Weather::HARSHSUN && (
    other_active_hp == 0 || other_active_ability != Abilities::DESOLATELAND)) {
        instructions.push(
            Instruction::ChangeWeather(
                ChangeWeather {
                    new_weather: Weather::NONE,
                    new_weather_turns_remaining: -1,
                    previous_weather: weather.weather_type,
                    previous_weather_turns_remaining: weather.turns_remaining,
                },
            ),
        );
        weather.weather_type = Weather::NONE;
        weather.turns_remaining = -1;
    }
    proof {
        assert(np == effect.0);
        assert(instructions@ =~= start + effect.2);
    }
    let ghost mid = instructions@;
    if np.ability != np.base_ability {
        instructions.push(
            Instruction::ChangeAbility(
                ChangeAbilityInstruction {
                    side_ref,
                    ability_change: ability_number(np.base_ability) - ability_number(np.ability),
                },
            ),
        );
        np.ability = np.base_ability;
    }
    proof {
        assert(instructions@ =~= mid + ability_revert(side_ref, effect.0));
    }
    side.set_active(np);
}

/// What switching a side's active pokemon out does, as a relation between the
/// battle and the instructions before and after it.
pub open spec fn switch_out_outcome(
    s0: State,
    s1: State,
    ins0: Seq<Instruction>,
    ins1: Seq<Instruction>,
    side_ref: SideReference,
    active_ability_is_suppressed: bool,
    other_active_ability: Abilities,
    hero_stat_changes: Seq<Instruction>,
) -> bool {
    let side = s0.side(side_ref);
    let other_hp = s0.side(side_ref.other()).active().hp;
    &&& s1.wf()
    &&& s1.side(side_ref).pokemon@ =~= side.pokemon@.update(
        side.active_index.spec_position(),
        switched_out_pokemon(
            side,
            s0.weather,
            side_ref,
            other_hp,
            other_active_ability,
            active_ability_is_suppressed,
            hero_stat_changes,
        ),
    )
    &&& s1.side(side_ref).active_index == side.active_index
    &&& s1.side(side_ref).volatile_statuses == side.volatile_statuses
    &&& s1.side(side_ref).side_conditions == side.side_conditions
    &&& s1.side(side_ref).speed_boost == side.speed_boost
    &&& s1.side(side_ref.other()) == s0.side(side_ref.other())
    &&& s1.weather == switch_out_ability_effect(
        side,
        s0.weather,
        side_ref,
        other_hp,
        other_active_ability,
        active_ability_is_suppressed,
        hero_stat_changes,
    ).1
    &&& s1.terrain == s0.terrain
    &&& ins1 =~= ins0 + switch_out_instructions(
        side,
        s0.weather,
        side_ref,
        other_hp,
        other_active_ability,
        active_ability_is_suppressed,
        hero_stat_changes,
    )
}

/// Switching out as a whole: the opposing side never changes, nor does the
/// terrain; the weather changes only when a primordial sea or desolate land
/// holder leaves its own weather while the opposing active pokemon has fainted
/// or lacks that ability, and then it becomes none; the leaving pokemon's
/// ability reverts to its base ability.
pub proof fn law_switch_out_outcome(
    s0: State,
    s1: State,
    ins0: Seq<Instruction>,
    ins1: Seq<Instruction>,
    side_ref: SideReference,
    active_ability_is_suppressed: bool,
    other_active_ability: Abilities,
    hero_stat_changes: Seq<Instruction>,
)
    requires
        switch_out_outcome(
            s0,
            s1,
            ins0,
            ins1,
            side_ref,
            active_ability_is_suppressed,
            other_active_ability,
            hero_stat_changes,
        ),
        s0.wf(),
    ensures
        ({
            let p0 = s0.side(side_ref).active();
            let p1 = s1.side(side_ref).active();
            let other_hp = s0.side(side_ref.other()).active().hp;
            let primal = !active_ability_is_suppressed && ((p0.ability == Abilities::PRIMORDIALSEA
                && s0.weather.weather_type == Weather::HEAVYRAIN) || (p0.ability
                == Abilities::DESOLATELAND && s0.weather.weather_type == Weather::HARSHSUN));
            &&& s1.side(side_ref.other()) == s0.side(side_ref.other())
            &&& s1.terrain == s0.terrain
            &&& p1.ability == p0.base_ability
            &&& primal && (other_hp == 0 || other_active_ability != p0.ability) ==> s1.weather == (
            StateWeather { weather_type: Weather::NONE, turns_remaining: -1i8 })
            &&& !(primal && (other_hp == 0 || other_active_ability != p0.ability)) ==> s1.weather
                == s0.weather
        }),
{
    assert(s1.side(side_ref).pokemon@.len() == 6);
}

/// What a side's active pokemon's ability does as it switches out, recorded as
/// instructions, and then the reverting of its ability to its base ability.
/// Gulp missile turns cramorant back (when gulp missile is its base ability),
/// zero to hero turns palafin into its hero forme (followed by the stat changes
/// that forme's stats call for, which are given), hunger switch turns a hangry
/// morpeko that has not terastallized back, natural cure clears the status,
/// regenerator heals a third of the maximum hp (no more than is missing) when the
/// pokemon has not fainted, and primordial sea and desolate land end their
/// weather unless the opposing active pokemon stands and has the same ability.
/// A suppressed ability does nothing, but the revert still happens. Whether the
/// ability is suppressed, and the opposing active pokemon's effective ability,
/// are given.
pub fn ability_on_switch_out(
    state: &mut State,
    side_ref: &SideReference,
    instructions: &mut Vec<Instruction>,
    active_ability_is_suppressed: bool,
    other_active_ability: Abilities,
    hero_stat_changes: Vec<Instruction>,
)
    requires
        old(state).wf(),
    ensures
        switch_out_outcome(
            *old(state),
            *final(state),
            old(instructions)@,
            final(instructions)@,
            *side_ref,
            active_ability_is_suppressed,
            other_active_ability,
            hero_stat_changes@,
        ),
{
    match side_ref {
        SideReference::SideOne => {
            let other_hp = state.side_two.get_active_immutable().hp;
            switch_out_side(
                &mut state.side_one,
                &mut state.weather,
                *side_ref,
                other_hp,
                other_active_ability,
                active_ability_is_suppressed,
                hero_stat_changes,
                instructions,
            );
        },
        SideReference::SideTwo => {
            let other_hp = state.side_one.get_active_immutable().hp;
            switch_out_side(
                &mut state.side_two,
                &mut state.weather,
                *side_ref,
                other_hp,
                other_active_ability,
                active_ability_is_suppressed,
                hero_stat_changes,
                instructions,
            );
        },
    }
}


/// Whether ice face breaks when a move's damage was blocked: the damage was
/// blocked, and the defender is an eiscue with ice face.
pub open spec fn ice_face_breaks(defending_side: Side, choice: Choice) -> bool {
    &&& choice.damage_blocked
    &&& defending_side.active().ability == Abilities::ICEFACE
    &&& defending_side.active().id == PokemonName::EISCUE
}

/// What happens when a move's damage was blocked: an eiscue with ice face turns
/// into its no-ice forme, recorded as a forme change followed by the stat changes
/// that forme's stats call for (which are given). Returns whether it happened.
pub fn ability_on_damage_blocked(
    defending_side: &mut Side,
    choice: &Choice,
    defending_side_ref: &SideReference,
    instructions: &mut Vec<Instruction>,
    noice_stat_changes: Vec<Instruction>,
) -> (r: bool)
    requires
        old(defending_side).wf(),
    ensures
        r == ice_face_breaks(*old(defending_side), *choice),
        final(defending_side).wf(),
        final(defending_side).active_index == old(defending_side).active_index,
        final(defending_side).volatile_statuses == old(defending_side).volatile_statuses,
        final(defending_side).side_conditions == old(defending_side).side_conditions,
        final(defending_side).speed_boost == old(defending_side).speed_boost,
        r ==> {
            &&& final(defending_side).pokemon@ == old(defending_side).pokemon@.update(
                old(defending_side).active_index.spec_position(),
                Pokemon { id: PokemonName::EISCUENOICE, ..old(defending_side).active() },
            )
            &&& final(instructions)@ == old(instructions)@.push(
                forme_change(
                    *defending_side_ref,
                    PokemonName::EISCUE,
                    PokemonName::EISCUENOICE,
                ),
            ) + noice_stat_changes@
        },
        !r ==> {
            &&& final(defending_side).pokemon == old(defending_side).pokemon
            &&& final(instructions)@ == old(instructions)@
        },
{
    let mut noice_stat_changes = noice_stat_changes;
    let p = *defending_side.get_active_immutable();
    if choice.damage_blocked && p.ability == Abilities::ICEFACE && p.id == PokemonName::EISCUE {
        instructions.push(
            Instruction::FormeChange(
                FormeChangeInstruction {
                    side_ref: *defending_side_ref,
                    name_change: PokemonName::EISCUENOICE.number() - p.id.number(),
                },
            ),
        );
        let mut np = p;
        np.id = PokemonName::EISCUENOICE;
        defending_side.set_active(np);
        instructions.append(&mut noice_stat_changes);
        return true;
    }
    false
}

} // verus!
