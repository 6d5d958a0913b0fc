//! Text renderings of instructions, as the engine prints them when it reports
//! the instructions of a turn: each value is written as its variant's name, with
//! the payload in brackets, and numbers in decimal.

use vstd::prelude::*;
use crate::abilities::Abilities;
use crate::instruction::{FaintCause, FaintContext, FaintEffect, Instruction};
use crate::state::{
    Choices, Items, LastUsedMove, MoveCategory, PokemonBoostableStat, PokemonIndex,
    PokemonMoveIndex, PokemonSideCondition, PokemonStatus, PokemonType, PokemonVolatileStatus,
    SideReference, Terrain, Weather,
};

verus! {

/// The text of a decimal digit.
pub open spec fn digit_text(d: int) -> Seq<char> {
    if d == 0 {
        "0"@
    } else if d == 1 {
        "1"@
    } else if d == 2 {
        "2"@
    } else if d == 3 {
        "3"@
    } else if d == 4 {
        "4"@
    } else if d == 5 {
        "5"@
    } else if d == 6 {
        "6"@
    } else if d == 7 {
        "7"@
    } else if d == 8 {
        "8"@
    } else {
        "9"@
    }
}

/// The decimal text of a natural number, without leading zeros.
pub open spec fn nat_text(n: nat) -> Seq<char>
    decreases n,
{
    if n < 10 {
        digit_text(n as int)
    } else {
        nat_text(n / 10) + digit_text((n % 10) as int)
    }
}

/// The decimal text of an integer, with a minus sign when it is negative.
pub open spec fn int_text(v: int) -> Seq<char> {
    if v < 0 {
        "-"@ + nat_text((-v) as nat)
    } else {
        nat_text(v as nat)
    }
}

fn digit_str(d: u32) -> (r: &'static str)
    requires
        d < 10,
    ensures
        r@ == digit_text(d as int),
{
    if d == 0 {
        "0"
    } else if d == 1 {
        "1"
    } else if d == 2 {
        "2"
    } else if d == 3 {
        "3"
    } else if d == 4 {
        "4"
    } else if d == 5 {
        "5"
    } else if d == 6 {
        "6"
    } else if d == 7 {
        "7"
    } else if d == 8 {
        "8"
    } else {
        "9"
    }
}

/// Appends the decimal text of a natural number.
fn push_nat(out: &mut String, n: u32)
    ensures
        final(out)@ == old(out)@ + nat_text(n as nat),
    decreases n,
{
    if n < 10 {
        out.append(digit_str(n));
    } else {
        push_nat(out, n / 10);
        out.append(digit_str(n % 10));
        proof {
            assert(old(out)@ + nat_text((n / 10) as nat) + digit_text((n % 10) as int) =~= old(
                out,
            )@ + nat_text(n as nat));
        }
    }
}

/// Appends the decimal text of an integer.
pub fn push_int(out: &mut String, v: i16)
    ensures
        final(out)@ == old(out)@ + int_text(v as int),
{
    if v < 0 {
        out.append("-");
        let m: i32 = -(v as i32);
        push_nat(out, m as u32);
        proof {
            assert(old(out)@ + "-"@ + nat_text((-v) as nat) =~= old(out)@ + int_text(v as int));
        }
    } else {
        push_nat(out, v as u32);
    }
}

/// The text of a truth value.
pub open spec fn bool_text(b: bool) -> Seq<char> {
    if b {
        "true"@
    } else {
        "false"@
    }
}

/// The text of a truth value.
pub fn bool_str(b: bool) -> (r: &'static str)
    ensures
        r@ == bool_text(b),
{
    if b {
        "true"
    } else {
        "false"
    }
}

/// The name of a value of `SideReference`.
pub open spec fn side_text(x: SideReference) -> Seq<char> {
    match x {
        SideReference::SideOne => "SideOne"@,
        SideReference::SideTwo => "SideTwo"@,
    }
}

/// The name of a value of `SideReference`.
pub fn side_str(x: &SideReference) -> (r: &'static str)
    ensures
        r@ == side_text(*x),
{
    match x {
        SideReference::SideOne => "SideOne",
        SideReference::SideTwo => "SideTwo",
    }
}

/// The name of a value of `PokemonIndex`.
pub open spec fn pokemon_index_text(x: PokemonIndex) -> Seq<char> {
    match x {
        PokemonIndex::P0 => "P0"@,
        PokemonIndex::P1 => "P1"@,
        PokemonIndex::P2 => "P2"@,
        PokemonIndex::P3 => "P3"@,
        PokemonIndex::P4 => "P4"@,
        PokemonIndex::P5 => "P5"@,
    }
}

/// The name of a value of `PokemonIndex`.
pub fn pokemon_index_str(x: &PokemonIndex) -> (r: &'static str)
    ensures
        r@ == pokemon_index_text(*x),
{
    match x {
        PokemonIndex::P0 => "P0",
        PokemonIndex::P1 => "P1",
        PokemonIndex::P2 => "P2",
        PokemonIndex::P3 => "P3",
        PokemonIndex::P4 => "P4",
        PokemonIndex::P5 => "P5",
    }
}

/// The name of a value of `PokemonMoveIndex`.
pub open spec fn move_index_text(x: PokemonMoveIndex) -> Seq<char> {
    match x {
        PokemonMoveIndex::M0 => "M0"@,
        PokemonMoveIndex::M1 => "M1"@,
        PokemonMoveIndex::M2 => "M2"@,
        PokemonMoveIndex::M3 => "M3"@,
    }
}

/// The name of a value of `PokemonMoveIndex`.
pub fn move_index_str(x: &PokemonMoveIndex) -> (r: &'static str)
    ensures
        r@ == move_index_text(*x),
{
    match x {
        PokemonMoveIndex::M0 => "M0",
        PokemonMoveIndex::M1 => "M1",
        PokemonMoveIndex::M2 => "M2",
        PokemonMoveIndex::M3 => "M3",
    }
}

/// The name of a value of `PokemonVolatileStatus`.
pub open spec fn volatile_status_text(x: PokemonVolatileStatus) -> Seq<char> {
    match x {
        PokemonVolatileStatus::CHARGE => "CHARGE"@,
        PokemonVolatileStatus::FLASHFIRE => "FLASHFIRE"@,
        PokemonVolatileStatus::FLINCH => "FLINCH"@,
        PokemonVolatileStatus::LOCKEDMOVE => "LOCKEDMOVE"@,
        PokemonVolatileStatus::PARTIALLYTRAPPED => "PARTIALLYTRAPPED"@,
        PokemonVolatileStatus::PERISH1 => "PERISH1"@,
        PokemonVolatileStatus::PERISH2 => "PERISH2"@,
        PokemonVolatileStatus::PERISH3 => "PERISH3"@,
        PokemonVolatileStatus::PERISH4 => "PERISH4"@,
        PokemonVolatileStatus::PROTOSYNTHESISATK => "PROTOSYNTHESISATK"@,
        PokemonVolatileStatus::PROTOSYNTHESISDEF => "PROTOSYNTHESISDEF"@,
        PokemonVolatileStatus::PROTOSYNTHESISSPA => "PROTOSYNTHESISSPA"@,
        PokemonVolatileStatus::PROTOSYNTHESISSPD => "PROTOSYNTHESISSPD"@,
        PokemonVolatileStatus::PROTOSYNTHESISSPE => "PROTOSYNTHESISSPE"@,
        PokemonVolatileStatus::PROTOSYNTHESISBOOSTER => "PROTOSYNTHESISBOOSTER"@,
        PokemonVolatileStatus::QUARKDRIVEATK => "QUARKDRIVEATK"@,
        PokemonVolatileStatus::QUARKDRIVEDEF => "QUARKDRIVEDEF"@,
        PokemonVolatileStatus::QUARKDRIVESPA => "QUARKDRIVESPA"@,
        PokemonVolatileStatus::QUARKDRIVESPD => "QUARKDRIVESPD"@,
        PokemonVolatileStatus::QUARKDRIVESPE => "QUARKDRIVESPE"@,
        PokemonVolatileStatus::QUARKDRIVEBOOSTER => "QUARKDRIVEBOOSTER"@,
        PokemonVolatileStatus::SLOWSTART => "SLOWSTART"@,
        PokemonVolatileStatus::SMACKDOWN => "SMACKDOWN"@,
        PokemonVolatileStatus::SUBSTITUTE => "SUBSTITUTE"@,
        PokemonVolatileStatus::TYPECHANGE => "TYPECHANGE"@,
    }
}

/// The name of a value of `PokemonVolatileStatus`.
pub fn volatile_status_str(x: &PokemonVolatileStatus) -> (r: &'static str)
    ensures
        r@ == volatile_status_text(*x),
{
    match x {
        PokemonVolatileStatus::CHARGE => "CHARGE",
        PokemonVolatileStatus::FLASHFIRE => "FLASHFIRE",
        PokemonVolatileStatus::FLINCH => "FLINCH",
        PokemonVolatileStatus::LOCKEDMOVE => "LOCKEDMOVE",
        PokemonVolatileStatus::PARTIALLYTRAPPED => "PARTIALLYTRAPPED",
        PokemonVolatileStatus::PERISH1 => "PERISH1",
        PokemonVolatileStatus::PERISH2 => "PERISH2",
        PokemonVolatileStatus::PERISH3 => "PERISH3",
        PokemonVolatileStatus::PERISH4 => "PERISH4",
        PokemonVolatileStatus::PROTOSYNTHESISATK => "PROTOSYNTHESISATK",
        PokemonVolatileStatus::PROTOSYNTHESISDEF => "PROTOSYNTHESISDEF",
        PokemonVolatileStatus::PROTOSYNTHESISSPA => "PROTOSYNTHESISSPA",
        PokemonVolatileStatus::PROTOSYNTHESISSPD => "PROTOSYNTHESISSPD",
        PokemonVolatileStatus::PROTOSYNTHESISSPE => "PROTOSYNTHESISSPE",
        PokemonVolatileStatus::PROTOSYNTHESISBOOSTER => "PROTOSYNTHESISBOOSTER",
        PokemonVolatileStatus::QUARKDRIVEATK => "QUARKDRIVEATK",
        PokemonVolatileStatus::QUARKDRIVEDEF => "QUARKDRIVEDEF",
        PokemonVolatileStatus::QUARKDRIVESPA => "QUARKDRIVESPA",
        PokemonVolatileStatus::QUARKDRIVESPD => "QUARKDRIVESPD",
        PokemonVolatileStatus::QUARKDRIVESPE => "QUARKDRIVESPE",
        PokemonVolatileStatus::QUARKDRIVEBOOSTER => "QUARKDRIVEBOOSTER",
        PokemonVolatileStatus::SLOWSTART => "SLOWSTART",
        PokemonVolatileStatus::SMACKDOWN => "SMACKDOWN",
        PokemonVolatileStatus::SUBSTITUTE => "SUBSTITUTE",
        PokemonVolatileStatus::TYPECHANGE => "TYPECHANGE",
    }
}

/// The name of a value of `PokemonStatus`.
pub open spec fn status_text(x: PokemonStatus) -> Seq<char> {
    match x {
        PokemonStatus::NONE => "NONE"@,
        PokemonStatus::BURN => "BURN"@,
        PokemonStatus::SLEEP => "SLEEP"@,
        PokemonStatus::FREEZE => "FREEZE"@,
        PokemonStatus::PARALYZE => "PARALYZE"@,
        PokemonStatus::POISON => "POISON"@,
        PokemonStatus::TOXIC => "TOXIC"@,
    }
}

/// The name of a value of `PokemonStatus`.
pub fn status_str(x: &PokemonStatus) -> (r: &'static str)
    ensures
        r@ == status_text(*x),
{
    match x {
        PokemonStatus::NONE => "NONE",
        PokemonStatus::BURN => "BURN",
        PokemonStatus::SLEEP => "SLEEP",
        PokemonStatus::FREEZE => "FREEZE",
        PokemonStatus::PARALYZE => "PARALYZE",
        PokemonStatus::POISON => "POISON",
        PokemonStatus::TOXIC => "TOXIC",
    }
}

/// The name of a value of `PokemonBoostableStat`.
pub open spec fn boostable_stat_text(x: PokemonBoostableStat) -> Seq<char> {
    match x {
        PokemonBoostableStat::Attack => "Attack"@,
        PokemonBoostableStat::Defense => "Defense"@,
        PokemonBoostableStat::SpecialAttack => "SpecialAttack"@,
        PokemonBoostableStat::SpecialDefense => "SpecialDefense"@,
        PokemonBoostableStat::Speed => "Speed"@,
        PokemonBoostableStat::Evasion => "Evasion"@,
        PokemonBoostableStat::Accuracy => "Accuracy"@,
    }
}

/// The name of a value of `PokemonBoostableStat`.
pub fn boostable_stat_str(x: &PokemonBoostableStat) -> (r: &'static str)
    ensures
        r@ == boostable_stat_text(*x),
{
    match x {
        PokemonBoostableStat::Attack => "Attack",
        PokemonBoostableStat::Defense => "Defense",
        PokemonBoostableStat::SpecialAttack => "SpecialAttack",
        PokemonBoostableStat::SpecialDefense => "SpecialDefense",
        PokemonBoostableStat::Speed => "Speed",
        PokemonBoostableStat::Evasion => "Evasion",
        PokemonBoostableStat::Accuracy => "Accuracy",
    }
}

/// The name of a value of `PokemonSideCondition`.
pub open spec fn side_condition_text(x: PokemonSideCondition) -> Seq<char> {
    match x {
        PokemonSideCondition::AuroraVeil => "AuroraVeil"@,
        PokemonSideCondition::CraftyShield => "CraftyShield"@,
        PokemonSideCondition::HealingWish => "HealingWish"@,
        PokemonSideCondition::LightScreen => "LightScreen"@,
        PokemonSideCondition::LuckyChant => "LuckyChant"@,
        PokemonSideCondition::LunarDance => "LunarDance"@,
        PokemonSideCondition::MatBlock => "MatBlock"@,
        PokemonSideCondition::Mist => "Mist"@,
        PokemonSideCondition::Protect => "Protect"@,
        PokemonSideCondition::QuickGuard => "QuickGuard"@,
        PokemonSideCondition::Reflect => "Reflect"@,
        PokemonSideCondition::Safeguard => "Safeguard"@,
        PokemonSideCondition::Spikes => "Spikes"@,
        PokemonSideCondition::Stealthrock => "Stealthrock"@,
        PokemonSideCondition::StickyWeb => "StickyWeb"@,
        PokemonSideCondition::Tailwind => "Tailwind"@,
        PokemonSideCondition::ToxicCount => "ToxicCount"@,
        PokemonSideCondition::ToxicSpikes => "ToxicSpikes"@,
        PokemonSideCondition::WideGuard => "WideGuard"@,
    }
}

/// The name of a value of `PokemonSideCondition`.
pub fn side_condition_str(x: &PokemonSideCondition) -> (r: &'static str)
    ensures
        r@ == side_condition_text(*x),
{
    match x {
        PokemonSideCondition::AuroraVeil => "AuroraVeil",
        PokemonSideCondition::CraftyShield => "CraftyShield",
        PokemonSideCondition::HealingWish => "HealingWish",
        PokemonSideCondition::LightScreen => "LightScreen",
        PokemonSideCondition::LuckyChant => "LuckyChant",
        PokemonSideCondition::LunarDance => "LunarDance",
        PokemonSideCondition::MatBlock => "MatBlock",
        PokemonSideCondition::Mist => "Mist",
        PokemonSideCondition::Protect => "Protect",
        PokemonSideCondition::QuickGuard => "QuickGuard",
        PokemonSideCondition::Reflect => "Reflect",
        PokemonSideCondition::Safeguard => "Safeguard",
        PokemonSideCondition::Spikes => "Spikes",
        PokemonSideCondition::Stealthrock => "Stealthrock",
        PokemonSideCondition::StickyWeb => "StickyWeb",
        PokemonSideCondition::Tailwind => "Tailwind",
        PokemonSideCondition::ToxicCount => "ToxicCount",
        PokemonSideCondition::ToxicSpikes => "ToxicSpikes",
        PokemonSideCondition::WideGuard => "WideGuard",
    }
}

/// The name of a value of `Weather`.
pub open spec fn weather_text(x: Weather) -> Seq<char> {
    match x {
        Weather::NONE => "NONE"@,
        Weather::SUN => "SUN"@,
        Weather::RAIN => "RAIN"@,
        Weather::SAND => "SAND"@,
        Weather::HAIL => "HAIL"@,
        Weather::SNOW => "SNOW"@,
        Weather::HARSHSUN => "HARSHSUN"@,
        Weather::HEAVYRAIN => "HEAVYRAIN"@,
    }
}

/// The name of a value of `Weather`.
pub fn weather_str(x: &Weather) -> (r: &'static str)
    ensures
        r@ == weather_text(*x),
{
    match x {
        Weather::NONE => "NONE",
        Weather::SUN => "SUN",
        Weather::RAIN => "RAIN",
        Weather::SAND => "SAND",
        Weather::HAIL => "HAIL",
        Weather::SNOW => "SNOW",
        Weather::HARSHSUN => "HARSHSUN",
        Weather::HEAVYRAIN => "HEAVYRAIN",
    }
}

/// The name of a value of `Terrain`.
pub open spec fn terrain_text(x: Terrain) -> Seq<char> {
    match x {
        Terrain::NONE => "NONE"@,
        Terrain::ELECTRICTERRAIN => "ELECTRICTERRAIN"@,
        Terrain::GRASSYTERRAIN => "GRASSYTERRAIN"@,
        Terrain::MISTYTERRAIN => "MISTYTERRAIN"@,
        Terrain::PSYCHICTERRAIN => "PSYCHICTERRAIN"@,
    }
}

/// The name of a value of `Terrain`.
pub fn terrain_str(x: &Terrain) -> (r: &'static str)
    ensures
        r@ == terrain_text(*x),
{
    match x {
        Terrain::NONE => "NONE",
        Terrain::ELECTRICTERRAIN => "ELECTRICTERRAIN",
        Terrain::GRASSYTERRAIN => "GRASSYTERRAIN",
        Terrain::MISTYTERRAIN => "MISTYTERRAIN",
        Terrain::PSYCHICTERRAIN => "PSYCHICTERRAIN",
    }
}

/// The name of a value of `PokemonType`.
pub open spec fn type_text(x: PokemonType) -> Seq<char> {
    match x {
        PokemonType::NORMAL => "NORMAL"@,
        PokemonType::FIRE => "FIRE"@,
        PokemonType::WATER => "WATER"@,
        PokemonType::ELECTRIC => "ELECTRIC"@,
        PokemonType::GRASS => "GRASS"@,
        PokemonType::ICE => "ICE"@,
        PokemonType::FIGHTING => "FIGHTING"@,
        PokemonType::POISON => "POISON"@,
        PokemonType::GROUND => "GROUND"@,
        PokemonType::FLYING => "FLYING"@,
        PokemonType::PSYCHIC => "PSYCHIC"@,
        PokemonType::BUG => "BUG"@,
        PokemonType::ROCK => "ROCK"@,
        PokemonType::GHOST => "GHOST"@,
        PokemonType::DRAGON => "DRAGON"@,
        PokemonType::DARK => "DARK"@,
        PokemonType::STEEL => "STEEL"@,
        PokemonType::FAIRY => "FAIRY"@,
        PokemonType::STELLAR => "STELLAR"@,
        PokemonType::TYPELESS => "TYPELESS"@,
    }
}

/// The name of a value of `PokemonType`.
pub fn type_str(x: &PokemonType) -> (r: &'static str)
    ensures
        r@ == type_text(*x),
{
    match x {
        PokemonType::NORMAL => "NORMAL",
        PokemonType::FIRE => "FIRE",
        PokemonType::WATER => "WATER",
        PokemonType::ELECTRIC => "ELECTRIC",
        PokemonType::GRASS => "GRASS",
        PokemonType::ICE => "ICE",
        PokemonType::FIGHTING => "FIGHTING",
        PokemonType::POISON => "POISON",
        PokemonType::GROUND => "GROUND",
        PokemonType::FLYING => "FLYING",
        PokemonType::PSYCHIC => "PSYCHIC",
        PokemonType::BUG => "BUG",
        PokemonType::ROCK => "ROCK",
        PokemonType::GHOST => "GHOST",
        PokemonType::DRAGON => "DRAGON",
        PokemonType::DARK => "DARK",
        PokemonType::STEEL => "STEEL",
        PokemonType::FAIRY => "FAIRY",
        PokemonType::STELLAR => "STELLAR",
        PokemonType::TYPELESS => "TYPELESS",
    }
}

/// The name of a value of `Items`.
pub open spec fn item_text(x: Items) -> Seq<char> {
    match x {
        Items::NONE => "NONE"@,
        Items::ABILITYSHIELD => "ABILITYSHIELD"@,
        Items::ADRENALINEORB => "ADRENALINEORB"@,
        Items::BOOSTERENERGY => "BOOSTERENERGY"@,
        Items::LUMBERRY => "LUMBERRY"@,
        Items::ASSAULTVEST => "ASSAULTVEST"@,
        Items::BLACKSLUDGE => "BLACKSLUDGE"@,
        Items::CHOICEBAND => "CHOICEBAND"@,
        Items::CHOICESCARF => "CHOICESCARF"@,
        Items::CHOICESPECS => "CHOICESPECS"@,
        Items::CLEARAMULET => "CLEARAMULET"@,
        Items::COVERTCLOAK => "COVERTCLOAK"@,
        Items::EXPERTBELT => "EXPERTBELT"@,
        Items::FOCUSSASH => "FOCUSSASH"@,
        Items::HEAVYDUTYBOOTS => "HEAVYDUTYBOOTS"@,
        Items::LEFTOVERS => "LEFTOVERS"@,
        Items::LIFEORB => "LIFEORB"@,
        Items::ROCKYHELMET => "ROCKYHELMET"@,
        Items::SITRUSBERRY => "SITRUSBERRY"@,
    }
}

/// The name of a value of `Items`.
pub fn item_str(x: &Items) -> (r: &'static str)
    ensures
        r@ == item_text(*x),
{
    match x {
        Items::NONE => "NONE",
        Items::ABILITYSHIELD => "ABILITYSHIELD",
        Items::ADRENALINEORB => "ADRENALINEORB",
        Items::BOOSTERENERGY => "BOOSTERENERGY",
        Items::LUMBERRY => "LUMBERRY",
        Items::ASSAULTVEST => "ASSAULTVEST",
        Items::BLACKSLUDGE => "BLACKSLUDGE",
        Items::CHOICEBAND => "CHOICEBAND",
        Items::CHOICESCARF => "CHOICESCARF",
        Items::CHOICESPECS => "CHOICESPECS",
        Items::CLEARAMULET => "CLEARAMULET",
        Items::COVERTCLOAK => "COVERTCLOAK",
        Items::EXPERTBELT => "EXPERTBELT",
        Items::FOCUSSASH => "FOCUSSASH",
        Items::HEAVYDUTYBOOTS => "HEAVYDUTYBOOTS",
        Items::LEFTOVERS => "LEFTOVERS",
        Items::LIFEORB => "LIFEORB",
        Items::ROCKYHELMET => "ROCKYHELMET",
        Items::SITRUSBERRY => "SITRUSBERRY",
    }
}

/// The name of a value of `Choices`.
pub open spec fn move_text(x: Choices) -> Seq<char> {
    match x {
        Choices::NONE => "NONE"@,
        Choices::DIVE => "DIVE"@,
        Choices::EXPLOSION => "EXPLOSION"@,
        Choices::GROWL => "GROWL"@,
        Choices::MINDBLOWN => "MINDBLOWN"@,
        Choices::MISTYEXPLOSION => "MISTYEXPLOSION"@,
        Choices::MOONGEISTBEAM => "MOONGEISTBEAM"@,
        Choices::PHOTONGEYSER => "PHOTONGEYSER"@,
        Choices::SELFDESTRUCT => "SELFDESTRUCT"@,
        Choices::SOAK => "SOAK"@,
        Choices::SPIKES => "SPIKES"@,
        Choices::SPLASH => "SPLASH"@,
        Choices::STEALTHROCK => "STEALTHROCK"@,
        Choices::STICKYWEB => "STICKYWEB"@,
        Choices::SUNSTEELSTRIKE => "SUNSTEELSTRIKE"@,
        Choices::SURF => "SURF"@,
        Choices::TACKLE => "TACKLE"@,
        Choices::THOUSANDARROWS => "THOUSANDARROWS"@,
        Choices::TOXICSPIKES => "TOXICSPIKES"@,
        Choices::WATERGUN => "WATERGUN"@,
    }
}

/// The name of a value of `Choices`.
pub fn move_str(x: &Choices) -> (r: &'static str)
    ensures
        r@ == move_text(*x),
{
    match x {
        Choices::NONE => "NONE",
        Choices::DIVE => "DIVE",
        Choices::EXPLOSION => "EXPLOSION",
        Choices::GROWL => "GROWL",
        Choices::MINDBLOWN => "MINDBLOWN",
        Choices::MISTYEXPLOSION => "MISTYEXPLOSION",
        Choices::MOONGEISTBEAM => "MOONGEISTBEAM",
        Choices::PHOTONGEYSER => "PHOTONGEYSER",
        Choices::SELFDESTRUCT => "SELFDESTRUCT",
        Choices::SOAK => "SOAK",
        Choices::SPIKES => "SPIKES",
        Choices::SPLASH => "SPLASH",
        Choices::STEALTHROCK => "STEALTHROCK",
        Choices::STICKYWEB => "STICKYWEB",
        Choices::SUNSTEELSTRIKE => "SUNSTEELSTRIKE",
        Choices::SURF => "SURF",
        Choices::TACKLE => "TACKLE",
        Choices::THOUSANDARROWS => "THOUSANDARROWS",
        Choices::TOXICSPIKES => "TOXICSPIKES",
        Choices::WATERGUN => "WATERGUN",
    }
}

/// The name of a value of `MoveCategory`.
pub open spec fn category_text(x: MoveCategory) -> Seq<char> {
    match x {
        MoveCategory::Physical => "Physical"@,
        MoveCategory::Special => "Special"@,
        MoveCategory::Status => "Status"@,
        MoveCategory::Switch => "Switch"@,
    }
}

/// The name of a value of `MoveCategory`.
pub fn category_str(x: &MoveCategory) -> (r: &'static str)
    ensures
        r@ == category_text(*x),
{
    match x {
        MoveCategory::Physical => "Physical",
        MoveCategory::Special => "Special",
        MoveCategory::Status => "Status",
        MoveCategory::Switch => "Switch",
    }
}

/// The name of a value of `Abilities`.
pub open spec fn ability_text(x: Abilities) -> Seq<char> {
    match x {
        Abilities::NONE => "NONE"@,
        Abilities::ARMORTAIL => "ARMORTAIL"@,
        Abilities::RIPEN => "RIPEN"@,
        Abilities::TANGLEDFEET => "TANGLEDFEET"@,
        Abilities::DRAGONSMAW => "DRAGONSMAW"@,
        Abilities::CLEARBODY => "CLEARBODY"@,
        Abilities::GALVANIZE => "GALVANIZE"@,
        Abilities::VITALSPIRIT => "VITALSPIRIT"@,
        Abilities::AERILATE => "AERILATE"@,
        Abilities::DEFIANT => "DEFIANT"@,
        Abilities::CUTECHARM => "CUTECHARM"@,
        Abilities::NEUROFORCE => "NEUROFORCE"@,
        Abilities::SOUNDPROOF => "SOUNDPROOF"@,
        Abilities::RKSSYSTEM => "RKSSYSTEM"@,
        Abilities::POISONPOINT => "POISONPOINT"@,
        Abilities::STAKEOUT => "STAKEOUT"@,
        Abilities::UNNERVE => "UNNERVE"@,
        Abilities::ROCKHEAD => "ROCKHEAD"@,
        Abilities::AURABREAK => "AURABREAK"@,
        Abilities::MIMICRY => "MIMICRY"@,
        Abilities::BULLETPROOF => "BULLETPROOF"@,
        Abilities::POWEROFALCHEMY => "POWEROFALCHEMY"@,
        Abilities::TECHNICIAN => "TECHNICIAN"@,
        Abilities::MULTISCALE => "MULTISCALE"@,
        Abilities::ARENATRAP => "ARENATRAP"@,
        Abilities::BATTLEBOND => "BATTLEBOND"@,
        Abilities::DISGUISE => "DISGUISE"@,
        Abilities::EARLYBIRD => "EARLYBIRD"@,
        Abilities::LIGHTNINGROD => "LIGHTNINGROD"@,
        Abilities::MAGICIAN => "MAGICIAN"@,
        Abilities::REFRIGERATE => "REFRIGERATE"@,
        Abilities::FRIENDGUARD => "FRIENDGUARD"@,
        Abilities::NOABILITY => "NOABILITY"@,
        Abilities::GULPMISSILE => "GULPMISSILE"@,
        Abilities::POWERCONSTRUCT => "POWERCONSTRUCT"@,
        Abilities::FORECAST => "FORECAST"@,
        Abilities::PRANKSTER => "PRANKSTER"@,
        Abilities::PROTEAN => "PROTEAN"@,
        Abilities::ASONEGLASTRIER => "ASONEGLASTRIER"@,
        Abilities::SHADOWTAG => "SHADOWTAG"@,
        Abilities::SHARPNESS => "SHARPNESS"@,
        Abilities::WINDRIDER => "WINDRIDER"@,
        Abilities::SKILLLINK => "SKILLLINK"@,
        Abilities::INTREPIDSWORD => "INTREPIDSWORD"@,
        Abilities::SOULHEART => "SOULHEART"@,
        Abilities::SWIFTSWIM => "SWIFTSWIM"@,
        Abilities::EARTHEATER => "EARTHEATER"@,
        Abilities::SUPERLUCK => "SUPERLUCK"@,
        Abilities::SUPREMEOVERLORD => "SUPREMEOVERLORD"@,
        Abilities::INSOMNIA => "INSOMNIA"@,
        Abilities::DANCER => "DANCER"@,
        Abilities::STEAMENGINE => "STEAMENGINE"@,
        Abilities::ANGERPOINT => "ANGERPOINT"@,
        Abilities::CONTRARY => "CONTRARY"@,
        Abilities::MAGMAARMOR => "MAGMAARMOR"@,
        Abilities::HUNGERSWITCH => "HUNGERSWITCH"@,
        Abilities::RECEIVER => "RECEIVER"@,
        Abilities::ZENMODE => "ZENMODE"@,
        Abilities::EMERGENCYEXIT => "EMERGENCYEXIT"@,
        Abilities::ILLUSION => "ILLUSION"@,
        Abilities::WEAKARMOR => "WEAKARMOR"@,
        Abilities::DROUGHT => "DROUGHT"@,
        Abilities::INNARDSOUT => "INNARDSOUT"@,
        Abilities::SHIELDSDOWN => "SHIELDSDOWN"@,
        Abilities::ADAPTABILITY => "ADAPTABILITY"@,
        Abilities::CORROSION => "CORROSION"@,
        Abilities::LONGREACH => "LONGREACH"@,
        Abilities::PUREPOWER => "PUREPOWER"@,
        Abilities::TINTEDLENS => "TINTEDLENS"@,
        Abilities::QUEENLYMAJESTY => "QUEENLYMAJESTY"@,
        Abilities::DESOLATELAND => "DESOLATELAND"@,
        Abilities::MOXIE => "MOXIE"@,
        Abilities::SAPSIPPER => "SAPSIPPER"@,
        Abilities::SLUSHRUSH => "SLUSHRUSH"@,
        Abilities::BIGPECKS => "BIGPECKS"@,
        Abilities::STALL => "STALL"@,
        Abilities::WHITESMOKE => "WHITESMOKE"@,
        Abilities::FLAREBOOST => "FLAREBOOST"@,
        Abilities::SHADOWSHIELD => "SHADOWSHIELD"@,
        Abilities::LIQUIDVOICE => "LIQUIDVOICE"@,
        Abilities::MISTYSURGE => "MISTYSURGE"@,
        Abilities::MULTITYPE => "MULTITYPE"@,
        Abilities::NOGUARD => "NOGUARD"@,
        Abilities::TORRENT => "TORRENT"@,
        Abilities::DELTASTREAM => "DELTASTREAM"@,
        Abilities::KLUTZ => "KLUTZ"@,
        Abilities::LIBERO => "LIBERO"@,
        Abilities::SERENEGRACE => "SERENEGRACE"@,
        Abilities::CURSEDBODY => "CURSEDBODY"@,
        Abilities::UNAWARE => "UNAWARE"@,
        Abilities::LIGHTMETAL => "LIGHTMETAL"@,
        Abilities::MARVELSCALE => "MARVELSCALE"@,
        Abilities::TELEPATHY => "TELEPATHY"@,
        Abilities::QUICKDRAW => "QUICKDRAW"@,
        Abilities::HYPERCUTTER => "HYPERCUTTER"@,
        Abilities::SYMBIOSIS => "SYMBIOSIS"@,
        Abilities::PLUS => "PLUS"@,
        Abilities::MIRRORARMOR => "MIRRORARMOR"@,
        Abilities::PASTELVEIL => "PASTELVEIL"@,
        Abilities::TOUGHCLAWS => "TOUGHCLAWS"@,
        Abilities::EFFECTSPORE => "EFFECTSPORE"@,
        Abilities::MUMMY => "MUMMY"@,
        Abilities::BADDREAMS => "BADDREAMS"@,
        Abilities::MAGICGUARD => "MAGICGUARD"@,
        Abilities::SANDSTREAM => "SANDSTREAM"@,
        Abilities::POWERSPOT => "POWERSPOT"@,
        Abilities::FLAMEBODY => "FLAMEBODY"@,
        Abilities::RECKLESS => "RECKLESS"@,
        Abilities::PRESSURE => "PRESSURE"@,
        Abilities::GOOEY => "GOOEY"@,
        Abilities::IMMUNITY => "IMMUNITY"@,
        Abilities::LEAFGUARD => "LEAFGUARD"@,
        Abilities::HUGEPOWER => "HUGEPOWER"@,
        Abilities::SOLARPOWER => "SOLARPOWER"@,
        Abilities::SCHOOLING => "SCHOOLING"@,
        Abilities::MOTORDRIVE => "MOTORDRIVE"@,
        Abilities::ANTICIPATION => "ANTICIPATION"@,
        Abilities::MERCILESS => "MERCILESS"@,
        Abilities::TRACE => "TRACE"@,
        Abilities::NATURALCURE => "NATURALCURE"@,
        Abilities::HARVEST => "HARVEST"@,
        Abilities::SUCTIONCUPS => "SUCTIONCUPS"@,
        Abilities::ICEFACE => "ICEFACE"@,
        Abilities::ROUGHSKIN => "ROUGHSKIN"@,
        Abilities::WONDERGUARD => "WONDERGUARD"@,
        Abilities::WATERVEIL => "WATERVEIL"@,
        Abilities::FAIRYAURA => "FAIRYAURA"@,
        Abilities::SANDSPIT => "SANDSPIT"@,
        Abilities::SEEDSOWER => "SEEDSOWER"@,
        Abilities::TOXICDEBRIS => "TOXICDEBRIS"@,
        Abilities::INTIMIDATE => "INTIMIDATE"@,
        Abilities::DAUNTLESSSHIELD => "DAUNTLESSSHIELD"@,
        Abilities::AROMAVEIL => "AROMAVEIL"@,
        Abilities::AIRLOCK => "AIRLOCK"@,
        Abilities::NORMALIZE => "NORMALIZE"@,
        Abilities::DARKAURA => "DARKAURA"@,
        Abilities::VICTORYSTAR => "VICTORYSTAR"@,
        Abilities::GRASSYSURGE => "GRASSYSURGE"@,
        Abilities::STURDY => "STURDY"@,
        Abilities::PICKPOCKET => "PICKPOCKET"@,
        Abilities::ELECTRICSURGE => "ELECTRICSURGE"@,
        Abilities::HADRONENGINE => "HADRONENGINE"@,
        Abilities::ORICHALCUMPULSE => "ORICHALCUMPULSE"@,
        Abilities::RUNAWAY => "RUNAWAY"@,
        Abilities::OBLIVIOUS => "OBLIVIOUS"@,
        Abilities::SURGESURFER => "SURGESURFER"@,
        Abilities::LEVITATE => "LEVITATE"@,
        Abilities::ASONESPECTRIER => "ASONESPECTRIER"@,
        Abilities::PICKUP => "PICKUP"@,
        Abilities::ICEBODY => "ICEBODY"@,
        Abilities::CURIOUSMEDICINE => "CURIOUSMEDICINE"@,
        Abilities::FLOWERVEIL => "FLOWERVEIL"@,
        Abilities::STATIC => "STATIC"@,
        Abilities::WONDERSKIN => "WONDERSKIN"@,
        Abilities::OVERGROW => "OVERGROW"@,
        Abilities::PROPELLERTAIL => "PROPELLERTAIL"@,
        Abilities::THICKFAT => "THICKFAT"@,
        Abilities::GLUTTONY => "GLUTTONY"@,
        Abilities::KEENEYE => "KEENEYE"@,
        Abilities::MOUNTAINEER => "MOUNTAINEER"@,
        Abilities::FLASHFIRE => "FLASHFIRE"@,
        Abilities::COMPOUNDEYES => "COMPOUNDEYES"@,
        Abilities::STEELWORKER => "STEELWORKER"@,
        Abilities::COMATOSE => "COMATOSE"@,
        Abilities::BALLFETCH => "BALLFETCH"@,
        Abilities::DAZZLING => "DAZZLING"@,
        Abilities::DOWNLOAD => "DOWNLOAD"@,
        Abilities::TRANSISTOR => "TRANSISTOR"@,
        Abilities::MOLDBREAKER => "MOLDBREAKER"@,
        Abilities::MYCELIUMMIGHT => "MYCELIUMMIGHT"@,
        Abilities::LIQUIDOOZE => "LIQUIDOOZE"@,
        Abilities::POISONHEAL => "POISONHEAL"@,
        Abilities::PRISMARMOR => "PRISMARMOR"@,
        Abilities::SNIPER => "SNIPER"@,
        Abilities::STENCH => "STENCH"@,
        Abilities::COMPETITIVE => "COMPETITIVE"@,
        Abilities::SWARM => "SWARM"@,
        Abilities::STALWART => "STALWART"@,
        Abilities::ILLUMINATE => "ILLUMINATE"@,
        Abilities::TURBOBLAZE => "TURBOBLAZE"@,
        Abilities::GORILLATACTICS => "GORILLATACTICS"@,
        Abilities::SPEEDBOOST => "SPEEDBOOST"@,
        Abilities::GUARDDOG => "GUARDDOG"@,
        Abilities::HEATPROOF => "HEATPROOF"@,
        Abilities::SNOWCLOAK => "SNOWCLOAK"@,
        Abilities::TERAVOLT => "TERAVOLT"@,
        Abilities::CHILLINGNEIGH => "CHILLINGNEIGH"@,
        Abilities::SHIELDDUST => "SHIELDDUST"@,
        Abilities::RIVALRY => "RIVALRY"@,
        Abilities::PRIMORDIALSEA => "PRIMORDIALSEA"@,
        Abilities::SCREENCLEANER => "SCREENCLEANER"@,
        Abilities::MAGNETPULL => "MAGNETPULL"@,
        Abilities::HONEYGATHER => "HONEYGATHER"@,
        Abilities::COTTONDOWN => "COTTONDOWN"@,
        Abilities::GRASSPELT => "GRASSPELT"@,
        Abilities::BATTLEARMOR => "BATTLEARMOR"@,
        Abilities::BEASTBOOST => "BEASTBOOST"@,
        Abilities::BERSERK => "BERSERK"@,
        Abilities::MINUS => "MINUS"@,
        Abilities::RAINDISH => "RAINDISH"@,
        Abilities::SYNCHRONIZE => "SYNCHRONIZE"@,
        Abilities::FILTER => "FILTER"@,
        Abilities::TRUANT => "TRUANT"@,
        Abilities::FURCOAT => "FURCOAT"@,
        Abilities::FULLMETALBODY => "FULLMETALBODY"@,
        Abilities::REGENERATOR => "REGENERATOR"@,
        Abilities::FOREWARN => "FOREWARN"@,
        Abilities::IRONBARBS => "IRONBARBS"@,
        Abilities::STAMINA => "STAMINA"@,
        Abilities::SANDRUSH => "SANDRUSH"@,
        Abilities::COLORCHANGE => "COLORCHANGE"@,
        Abilities::BLAZE => "BLAZE"@,
        Abilities::ANALYTIC => "ANALYTIC"@,
        Abilities::TANGLINGHAIR => "TANGLINGHAIR"@,
        Abilities::CLOUDNINE => "CLOUDNINE"@,
        Abilities::STEELYSPIRIT => "STEELYSPIRIT"@,
        Abilities::QUICKFEET => "QUICKFEET"@,
        Abilities::MAGICBOUNCE => "MAGICBOUNCE"@,
        Abilities::MEGALAUNCHER => "MEGALAUNCHER"@,
        Abilities::HEAVYMETAL => "HEAVYMETAL"@,
        Abilities::STORMDRAIN => "STORMDRAIN"@,
        Abilities::PIXILATE => "PIXILATE"@,
        Abilities::WATERCOMPACTION => "WATERCOMPACTION"@,
        Abilities::JUSTIFIED => "JUSTIFIED"@,
        Abilities::SLOWSTART => "SLOWSTART"@,
        Abilities::SNOWWARNING => "SNOWWARNING"@,
        Abilities::FLOWERGIFT => "FLOWERGIFT"@,
        Abilities::SHEDSKIN => "SHEDSKIN"@,
        Abilities::WIMPOUT => "WIMPOUT"@,
        Abilities::ICESCALES => "ICESCALES"@,
        Abilities::INFILTRATOR => "INFILTRATOR"@,
        Abilities::LIMBER => "LIMBER"@,
        Abilities::PSYCHICSURGE => "PSYCHICSURGE"@,
        Abilities::DEFEATIST => "DEFEATIST"@,
        Abilities::WATERABSORB => "WATERABSORB"@,
        Abilities::IMPOSTER => "IMPOSTER"@,
        Abilities::DRYSKIN => "DRYSKIN"@,
        Abilities::FLUFFY => "FLUFFY"@,
        Abilities::UNBURDEN => "UNBURDEN"@,
        Abilities::CHEEKPOUCH => "CHEEKPOUCH"@,
        Abilities::STANCECHANGE => "STANCECHANGE"@,
        Abilities::MOODY => "MOODY"@,
        Abilities::ROCKYPAYLOAD => "ROCKYPAYLOAD"@,
        Abilities::PUNKROCK => "PUNKROCK"@,
        Abilities::SANDVEIL => "SANDVEIL"@,
        Abilities::PARENTALBOND => "PARENTALBOND"@,
        Abilities::STRONGJAW => "STRONGJAW"@,
        Abilities::BATTERY => "BATTERY"@,
        Abilities::HEALER => "HEALER"@,
        Abilities::STEADFAST => "STEADFAST"@,
        Abilities::DAMP => "DAMP"@,
        Abilities::PERISHBODY => "PERISHBODY"@,
        Abilities::TRIAGE => "TRIAGE"@,
        Abilities::SHEERFORCE => "SHEERFORCE"@,
        Abilities::OWNTEMPO => "OWNTEMPO"@,
        Abilities::FRISK => "FRISK"@,
        Abilities::VOLTABSORB => "VOLTABSORB"@,
        Abilities::GALEWINGS => "GALEWINGS"@,
        Abilities::AFTERMATH => "AFTERMATH"@,
        Abilities::STICKYHOLD => "STICKYHOLD"@,
        Abilities::GRIMNEIGH => "GRIMNEIGH"@,
        Abilities::IRONFIST => "IRONFIST"@,
        Abilities::REBOUND => "REBOUND"@,
        Abilities::UNSEENFIST => "UNSEENFIST"@,
        Abilities::SOLIDROCK => "SOLIDROCK"@,
        Abilities::HUSTLE => "HUSTLE"@,
        Abilities::HYDRATION => "HYDRATION"@,
        Abilities::SCRAPPY => "SCRAPPY"@,
        Abilities::MINDSEYE => "MINDSEYE"@,
        Abilities::OVERCOAT => "OVERCOAT"@,
        Abilities::NEUTRALIZINGGAS => "NEUTRALIZINGGAS"@,
        Abilities::SWEETVEIL => "SWEETVEIL"@,
        Abilities::DRIZZLE => "DRIZZLE"@,
        Abilities::INNERFOCUS => "INNERFOCUS"@,
        Abilities::POISONTOUCH => "POISONTOUCH"@,
        Abilities::WANDERINGSPIRIT => "WANDERINGSPIRIT"@,
        Abilities::GUTS => "GUTS"@,
        Abilities::SHELLARMOR => "SHELLARMOR"@,
        Abilities::RATTLED => "RATTLED"@,
        Abilities::WATERBUBBLE => "WATERBUBBLE"@,
        Abilities::SANDFORCE => "SANDFORCE"@,
        Abilities::TOXICBOOST => "TOXICBOOST"@,
        Abilities::PERSISTENT => "PERSISTENT"@,
        Abilities::CHLOROPHYLL => "CHLOROPHYLL"@,
        Abilities::SIMPLE => "SIMPLE"@,
        Abilities::PURIFYINGSALT => "PURIFYINGSALT"@,
        Abilities::EMBODYASPECTWELLSPRING => "EMBODYASPECTWELLSPRING"@,
        Abilities::EMBODYASPECTCORNERSTONE => "EMBODYASPECTCORNERSTONE"@,
        Abilities::EMBODYASPECTHEARTHFLAME => "EMBODYASPECTHEARTHFLAME"@,
        Abilities::EMBODYASPECTTEAL => "EMBODYASPECTTEAL"@,
        Abilities::ANGERSHELL => "ANGERSHELL"@,
        Abilities::BEADSOFRUIN => "BEADSOFRUIN"@,
        Abilities::COMMANDER => "COMMANDER"@,
        Abilities::COSTAR => "COSTAR"@,
        Abilities::CUDCHEW => "CUDCHEW"@,
        Abilities::ELECTROMORPHOSIS => "ELECTROMORPHOSIS"@,
        Abilities::EMBODYASPECT => "EMBODYASPECT"@,
        Abilities::GOODASGOLD => "GOODASGOLD"@,
        Abilities::HOSPITALITY => "HOSPITALITY"@,
        Abilities::LINGERINGAROMA => "LINGERINGAROMA"@,
        Abilities::OPPORTUNIST => "OPPORTUNIST"@,
        Abilities::POISONPUPPETEER => "POISONPUPPETEER"@,
        Abilities::PROTOSYNTHESIS => "PROTOSYNTHESIS"@,
        Abilities::QUARKDRIVE => "QUARKDRIVE"@,
        Abilities::SUPERSWEETSYRUP => "SUPERSWEETSYRUP"@,
        Abilities::SWORDOFRUIN => "SWORDOFRUIN"@,
        Abilities::TABLETSOFRUIN => "TABLETSOFRUIN"@,
        Abilities::TERASHELL => "TERASHELL"@,
        Abilities::TERASHIFT => "TERASHIFT"@,
        Abilities::TERAFORMZERO => "TERAFORMZERO"@,
        Abilities::THERMALEXCHANGE => "THERMALEXCHANGE"@,
        Abilities::TOXICCHAIN => "TOXICCHAIN"@,
        Abilities::VESSELOFRUIN => "VESSELOFRUIN"@,
        Abilities::WELLBAKEDBODY => "WELLBAKEDBODY"@,
        Abilities::WINDPOWER => "WINDPOWER"@,
        Abilities::ZEROTOHERO => "ZEROTOHERO"@,
        Abilities::MEGASOL => "MEGASOL"@,
        Abilities::DRAGONIZE => "DRAGONIZE"@,
        Abilities::SPICYSPRAY => "SPICYSPRAY"@,
        Abilities::PIERCINGDRILL => "PIERCINGDRILL"@,
    }
}

/// The name of a value of `Abilities`.
pub fn ability_str(x: &Abilities) -> (r: &'static str)
    ensures
        r@ == ability_text(*x),
{
    match x {
        Abilities::NONE => "NONE",
        Abilities::ARMORTAIL => "ARMORTAIL",
        Abilities::RIPEN => "RIPEN",
        Abilities::TANGLEDFEET => "TANGLEDFEET",
        Abilities::DRAGONSMAW => "DRAGONSMAW",
        Abilities::CLEARBODY => "CLEARBODY",
        Abilities::GALVANIZE => "GALVANIZE",
        Abilities::VITALSPIRIT => "VITALSPIRIT",
        Abilities::AERILATE => "AERILATE",
        Abilities::DEFIANT => "DEFIANT",
        Abilities::CUTECHARM => "CUTECHARM",
        Abilities::NEUROFORCE => "NEUROFORCE",
        Abilities::SOUNDPROOF => "SOUNDPROOF",
        Abilities::RKSSYSTEM => "RKSSYSTEM",
        Abilities::POISONPOINT => "POISONPOINT",
        Abilities::STAKEOUT => "STAKEOUT",
        Abilities::UNNERVE => "UNNERVE",
        Abilities::ROCKHEAD => "ROCKHEAD",
        Abilities::AURABREAK => "AURABREAK",
        Abilities::MIMICRY => "MIMICRY",
        Abilities::BULLETPROOF => "BULLETPROOF",
        Abilities::POWEROFALCHEMY => "POWEROFALCHEMY",
        Abilities::TECHNICIAN => "TECHNICIAN",
        Abilities::MULTISCALE => "MULTISCALE",
        Abilities::ARENATRAP => "ARENATRAP",
        Abilities::BATTLEBOND => "BATTLEBOND",
        Abilities::DISGUISE => "DISGUISE",
        Abilities::EARLYBIRD => "EARLYBIRD",
        Abilities::LIGHTNINGROD => "LIGHTNINGROD",
        Abilities::MAGICIAN => "MAGICIAN",
        Abilities::REFRIGERATE => "REFRIGERATE",
        Abilities::FRIENDGUARD => "FRIENDGUARD",
        Abilities::NOABILITY => "NOABILITY",
        Abilities::GULPMISSILE => "GULPMISSILE",
        Abilities::POWERCONSTRUCT => "POWERCONSTRUCT",
        Abilities::FORECAST => "FORECAST",
        Abilities::PRANKSTER => "PRANKSTER",
        Abilities::PROTEAN => "PROTEAN",
        Abilities::ASONEGLASTRIER => "ASONEGLASTRIER",
        Abilities::SHADOWTAG => "SHADOWTAG",
        Abilities::SHARPNESS => "SHARPNESS",
        Abilities::WINDRIDER => "WINDRIDER",
        Abilities::SKILLLINK => "SKILLLINK",
        Abilities::INTREPIDSWORD => "INTREPIDSWORD",
        Abilities::SOULHEART => "SOULHEART",
        Abilities::SWIFTSWIM => "SWIFTSWIM",
        Abilities::EARTHEATER => "EARTHEATER",
        Abilities::SUPERLUCK => "SUPERLUCK",
        Abilities::SUPREMEOVERLORD => "SUPREMEOVERLORD",
        Abilities::INSOMNIA => "INSOMNIA",
        Abilities::DANCER => "DANCER",
        Abilities::STEAMENGINE => "STEAMENGINE",
        Abilities::ANGERPOINT => "ANGERPOINT",
        Abilities::CONTRARY => "CONTRARY",
        Abilities::MAGMAARMOR => "MAGMAARMOR",
        Abilities::HUNGERSWITCH => "HUNGERSWITCH",
        Abilities::RECEIVER => "RECEIVER",
        Abilities::ZENMODE => "ZENMODE",
        Abilities::EMERGENCYEXIT => "EMERGENCYEXIT",
        Abilities::ILLUSION => "ILLUSION",
        Abilities::WEAKARMOR => "WEAKARMOR",
        Abilities::DROUGHT => "DROUGHT",
        Abilities::INNARDSOUT => "INNARDSOUT",
        Abilities::SHIELDSDOWN => "SHIELDSDOWN",
        Abilities::ADAPTABILITY => "ADAPTABILITY",
        Abilities::CORROSION => "CORROSION",
        Abilities::LONGREACH => "LONGREACH",
        Abilities::PUREPOWER => "PUREPOWER",
        Abilities::TINTEDLENS => "TINTEDLENS",
        Abilities::QUEENLYMAJESTY => "QUEENLYMAJESTY",
        Abilities::DESOLATELAND => "DESOLATELAND",
        Abilities::MOXIE => "MOXIE",
        Abilities::SAPSIPPER => "SAPSIPPER",
        Abilities::SLUSHRUSH => "SLUSHRUSH",
        Abilities::BIGPECKS => "BIGPECKS",
        Abilities::STALL => "STALL",
        Abilities::WHITESMOKE => "WHITESMOKE",
        Abilities::FLAREBOOST => "FLAREBOOST",
        Abilities::SHADOWSHIELD => "SHADOWSHIELD",
        Abilities::LIQUIDVOICE => "LIQUIDVOICE",
        Abilities::MISTYSURGE => "MISTYSURGE",
        Abilities::MULTITYPE => "MULTITYPE",
        Abilities::NOGUARD => "NOGUARD",
        Abilities::TORRENT => "TORRENT",
        Abilities::DELTASTREAM => "DELTASTREAM",
        Abilities::KLUTZ => "KLUTZ",
        Abilities::LIBERO => "LIBERO",
        Abilities::SERENEGRACE => "SERENEGRACE",
        Abilities::CURSEDBODY => "CURSEDBODY",
        Abilities::UNAWARE => "UNAWARE",
        Abilities::LIGHTMETAL => "LIGHTMETAL",
        Abilities::MARVELSCALE => "MARVELSCALE",
        Abilities::TELEPATHY => "TELEPATHY",
        Abilities::QUICKDRAW => "QUICKDRAW",
        Abilities::HYPERCUTTER => "HYPERCUTTER",
        Abilities::SYMBIOSIS => "SYMBIOSIS",
        Abilities::PLUS => "PLUS",
        Abilities::MIRRORARMOR => "MIRRORARMOR",
        Abilities::PASTELVEIL => "PASTELVEIL",
        Abilities::TOUGHCLAWS => "TOUGHCLAWS",
        Abilities::EFFECTSPORE => "EFFECTSPORE",
        Abilities::MUMMY => "MUMMY",
        Abilities::BADDREAMS => "BADDREAMS",
        Abilities::MAGICGUARD => "MAGICGUARD",
        Abilities::SANDSTREAM => "SANDSTREAM",
        Abilities::POWERSPOT => "POWERSPOT",
        Abilities::FLAMEBODY => "FLAMEBODY",
        Abilities::RECKLESS => "RECKLESS",
        Abilities::PRESSURE => "PRESSURE",
        Abilities::GOOEY => "GOOEY",
        Abilities::IMMUNITY => "IMMUNITY",
        Abilities::LEAFGUARD => "LEAFGUARD",
        Abilities::HUGEPOWER => "HUGEPOWER",
        Abilities::SOLARPOWER => "SOLARPOWER",
        Abilities::SCHOOLING => "SCHOOLING",
        Abilities::MOTORDRIVE => "MOTORDRIVE",
        Abilities::ANTICIPATION => "ANTICIPATION",
        Abilities::MERCILESS => "MERCILESS",
        Abilities::TRACE => "TRACE",
        Abilities::NATURALCURE => "NATURALCURE",
        Abilities::HARVEST => "HARVEST",
        Abilities::SUCTIONCUPS => "SUCTIONCUPS",
        Abilities::ICEFACE => "ICEFACE",
        Abilities::ROUGHSKIN => "ROUGHSKIN",
        Abilities::WONDERGUARD => "WONDERGUARD",
        Abilities::WATERVEIL => "WATERVEIL",
        Abilities::FAIRYAURA => "FAIRYAURA",
        Abilities::SANDSPIT => "SANDSPIT",
        Abilities::SEEDSOWER => "SEEDSOWER",
        Abilities::TOXICDEBRIS => "TOXICDEBRIS",
        Abilities::INTIMIDATE => "INTIMIDATE",
        Abilities::DAUNTLESSSHIELD => "DAUNTLESSSHIELD",
        Abilities::AROMAVEIL => "AROMAVEIL",
        Abilities::AIRLOCK => "AIRLOCK",
        Abilities::NORMALIZE => "NORMALIZE",
        Abilities::DARKAURA => "DARKAURA",
        Abilities::VICTORYSTAR => "VICTORYSTAR",
        Abilities::GRASSYSURGE => "GRASSYSURGE",
        Abilities::STURDY => "STURDY",
        Abilities::PICKPOCKET => "PICKPOCKET",
        Abilities::ELECTRICSURGE => "ELECTRICSURGE",
        Abilities::HADRONENGINE => "HADRONENGINE",
        Abilities::ORICHALCUMPULSE => "ORICHALCUMPULSE",
        Abilities::RUNAWAY => "RUNAWAY",
        Abilities::OBLIVIOUS => "OBLIVIOUS",
        Abilities::SURGESURFER => "SURGESURFER",
        Abilities::LEVITATE => "LEVITATE",
        Abilities::ASONESPECTRIER => "ASONESPECTRIER",
        Abilities::PICKUP => "PICKUP",
        Abilities::ICEBODY => "ICEBODY",
        Abilities::CURIOUSMEDICINE => "CURIOUSMEDICINE",
        Abilities::FLOWERVEIL => "FLOWERVEIL",
        Abilities::STATIC => "STATIC",
        Abilities::WONDERSKIN => "WONDERSKIN",
        Abilities::OVERGROW => "OVERGROW",
        Abilities::PROPELLERTAIL => "PROPELLERTAIL",
        Abilities::THICKFAT => "THICKFAT",
        Abilities::GLUTTONY => "GLUTTONY",
        Abilities::KEENEYE => "KEENEYE",
        Abilities::MOUNTAINEER => "MOUNTAINEER",
        Abilities::FLASHFIRE => "FLASHFIRE",
        Abilities::COMPOUNDEYES => "COMPOUNDEYES",
        Abilities::STEELWORKER => "STEELWORKER",
        Abilities::COMATOSE => "COMATOSE",
        Abilities::BALLFETCH => "BALLFETCH",
        Abilities::DAZZLING => "DAZZLING",
        Abilities::DOWNLOAD => "DOWNLOAD",
        Abilities::TRANSISTOR => "TRANSISTOR",
        Abilities::MOLDBREAKER => "MOLDBREAKER",
        Abilities::MYCELIUMMIGHT => "MYCELIUMMIGHT",
        Abilities::LIQUIDOOZE => "LIQUIDOOZE",
        Abilities::POISONHEAL => "POISONHEAL",
        Abilities::PRISMARMOR => "PRISMARMOR",
        Abilities::SNIPER => "SNIPER",
        Abilities::STENCH => "STENCH",
        Abilities::COMPETITIVE => "COMPETITIVE",
        Abilities::SWARM => "SWARM",
        Abilities::STALWART => "STALWART",
        Abilities::ILLUMINATE => "ILLUMINATE",
        Abilities::TURBOBLAZE => "TURBOBLAZE",
        Abilities::GORILLATACTICS => "GORILLATACTICS",
        Abilities::SPEEDBOOST => "SPEEDBOOST",
        Abilities::GUARDDOG => "GUARDDOG",
        Abilities::HEATPROOF => "HEATPROOF",
        Abilities::SNOWCLOAK => "SNOWCLOAK",
        Abilities::TERAVOLT => "TERAVOLT",
        Abilities::CHILLINGNEIGH => "CHILLINGNEIGH",
        Abilities::SHIELDDUST => "SHIELDDUST",
        Abilities::RIVALRY => "RIVALRY",
        Abilities::PRIMORDIALSEA => "PRIMORDIALSEA",
        Abilities::SCREENCLEANER => "SCREENCLEANER",
        Abilities::MAGNETPULL => "MAGNETPULL",
        Abilities::HONEYGATHER => "HONEYGATHER",
        Abilities::COTTONDOWN => "COTTONDOWN",
        Abilities::GRASSPELT => "GRASSPELT",
        Abilities::BATTLEARMOR => "BATTLEARMOR",
        Abilities::BEASTBOOST => "BEASTBOOST",
        Abilities::BERSERK => "BERSERK",
        Abilities::MINUS => "MINUS",
        Abilities::RAINDISH => "RAINDISH",
        Abilities::SYNCHRONIZE => "SYNCHRONIZE",
        Abilities::FILTER => "FILTER",
        Abilities::TRUANT => "TRUANT",
        Abilities::FURCOAT => "FURCOAT",
        Abilities::FULLMETALBODY => "FULLMETALBODY",
        Abilities::REGENERATOR => "REGENERATOR",
        Abilities::FOREWARN => "FOREWARN",
        Abilities::IRONBARBS => "IRONBARBS",
        Abilities::STAMINA => "STAMINA",
        Abilities::SANDRUSH => "SANDRUSH",
        Abilities::COLORCHANGE => "COLORCHANGE",
        Abilities::BLAZE => "BLAZE",
        Abilities::ANALYTIC => "ANALYTIC",
        Abilities::TANGLINGHAIR => "TANGLINGHAIR",
        Abilities::CLOUDNINE => "CLOUDNINE",
        Abilities::STEELYSPIRIT => "STEELYSPIRIT",
        Abilities::QUICKFEET => "QUICKFEET",
        Abilities::MAGICBOUNCE => "MAGICBOUNCE",
        Abilities::MEGALAUNCHER => "MEGALAUNCHER",
        Abilities::HEAVYMETAL => "HEAVYMETAL",
        Abilities::STORMDRAIN => "STORMDRAIN",
        Abilities::PIXILATE => "PIXILATE",
        Abilities::WATERCOMPACTION => "WATERCOMPACTION",
        Abilities::JUSTIFIED => "JUSTIFIED",
        Abilities::SLOWSTART => "SLOWSTART",
        Abilities::SNOWWARNING => "SNOWWARNING",
        Abilities::FLOWERGIFT => "FLOWERGIFT",
        Abilities::SHEDSKIN => "SHEDSKIN",
        Abilities::WIMPOUT => "WIMPOUT",
        Abilities::ICESCALES => "ICESCALES",
        Abilities::INFILTRATOR => "INFILTRATOR",
        Abilities::LIMBER => "LIMBER",
        Abilities::PSYCHICSURGE => "PSYCHICSURGE",
        Abilities::DEFEATIST => "DEFEATIST",
        Abilities::WATERABSORB => "WATERABSORB",
        Abilities::IMPOSTER => "IMPOSTER",
        Abilities::DRYSKIN => "DRYSKIN",
        Abilities::FLUFFY => "FLUFFY",
        Abilities::UNBURDEN => "UNBURDEN",
        Abilities::CHEEKPOUCH => "CHEEKPOUCH",
        Abilities::STANCECHANGE => "STANCECHANGE",
        Abilities::MOODY => "MOODY",
        Abilities::ROCKYPAYLOAD => "ROCKYPAYLOAD",
        Abilities::PUNKROCK => "PUNKROCK",
        Abilities::SANDVEIL => "SANDVEIL",
        Abilities::PARENTALBOND => "PARENTALBOND",
        Abilities::STRONGJAW => "STRONGJAW",
        Abilities::BATTERY => "BATTERY",
        Abilities::HEALER => "HEALER",
        Abilities::STEADFAST => "STEADFAST",
        Abilities::DAMP => "DAMP",
        Abilities::PERISHBODY => "PERISHBODY",
        Abilities::TRIAGE => "TRIAGE",
        Abilities::SHEERFORCE => "SHEERFORCE",
        Abilities::OWNTEMPO => "OWNTEMPO",
        Abilities::FRISK => "FRISK",
        Abilities::VOLTABSORB => "VOLTABSORB",
        Abilities::GALEWINGS => "GALEWINGS",
        Abilities::AFTERMATH => "AFTERMATH",
        Abilities::STICKYHOLD => "STICKYHOLD",
        Abilities::GRIMNEIGH => "GRIMNEIGH",
        Abilities::IRONFIST => "IRONFIST",
        Abilities::REBOUND => "REBOUND",
        Abilities::UNSEENFIST => "UNSEENFIST",
        Abilities::SOLIDROCK => "SOLIDROCK",
        Abilities::HUSTLE => "HUSTLE",
        Abilities::HYDRATION => "HYDRATION",
        Abilities::SCRAPPY => "SCRAPPY",
        Abilities::MINDSEYE => "MINDSEYE",
        Abilities::OVERCOAT => "OVERCOAT",
        Abilities::NEUTRALIZINGGAS => "NEUTRALIZINGGAS",
        Abilities::SWEETVEIL => "SWEETVEIL",
        Abilities::DRIZZLE => "DRIZZLE",
        Abilities::INNERFOCUS => "INNERFOCUS",
        Abilities::POISONTOUCH => "POISONTOUCH",
        Abilities::WANDERINGSPIRIT => "WANDERINGSPIRIT",
        Abilities::GUTS => "GUTS",
        Abilities::SHELLARMOR => "SHELLARMOR",
        Abilities::RATTLED => "RATTLED",
        Abilities::WATERBUBBLE => "WATERBUBBLE",
        Abilities::SANDFORCE => "SANDFORCE",
        Abilities::TOXICBOOST => "TOXICBOOST",
        Abilities::PERSISTENT => "PERSISTENT",
        Abilities::CHLOROPHYLL => "CHLOROPHYLL",
        Abilities::SIMPLE => "SIMPLE",
        Abilities::PURIFYINGSALT => "PURIFYINGSALT",
        Abilities::EMBODYASPECTWELLSPRING => "EMBODYASPECTWELLSPRING",
        Abilities::EMBODYASPECTCORNERSTONE => "EMBODYASPECTCORNERSTONE",
        Abilities::EMBODYASPECTHEARTHFLAME => "EMBODYASPECTHEARTHFLAME",
        Abilities::EMBODYASPECTTEAL => "EMBODYASPECTTEAL",
        Abilities::ANGERSHELL => "ANGERSHELL",
        Abilities::BEADSOFRUIN => "BEADSOFRUIN",
        Abilities::COMMANDER => "COMMANDER",
        Abilities::COSTAR => "COSTAR",
        Abilities::CUDCHEW => "CUDCHEW",
        Abilities::ELECTROMORPHOSIS => "ELECTROMORPHOSIS",
        Abilities::EMBODYASPECT => "EMBODYASPECT",
        Abilities::GOODASGOLD => "GOODASGOLD",
        Abilities::HOSPITALITY => "HOSPITALITY",
        Abilities::LINGERINGAROMA => "LINGERINGAROMA",
        Abilities::OPPORTUNIST => "OPPORTUNIST",
        Abilities::POISONPUPPETEER => "POISONPUPPETEER",
        Abilities::PROTOSYNTHESIS => "PROTOSYNTHESIS",
        Abilities::QUARKDRIVE => "QUARKDRIVE",
        Abilities::SUPERSWEETSYRUP => "SUPERSWEETSYRUP",
        Abilities::SWORDOFRUIN => "SWORDOFRUIN",
        Abilities::TABLETSOFRUIN => "TABLETSOFRUIN",
        Abilities::TERASHELL => "TERASHELL",
        Abilities::TERASHIFT => "TERASHIFT",
        Abilities::TERAFORMZERO => "TERAFORMZERO",
        Abilities::THERMALEXCHANGE => "THERMALEXCHANGE",
        Abilities::TOXICCHAIN => "TOXICCHAIN",
        Abilities::VESSELOFRUIN => "VESSELOFRUIN",
        Abilities::WELLBAKEDBODY => "WELLBAKEDBODY",
        Abilities::WINDPOWER => "WINDPOWER",
        Abilities::ZEROTOHERO => "ZEROTOHERO",
        Abilities::MEGASOL => "MEGASOL",
        Abilities::DRAGONIZE => "DRAGONIZE",
        Abilities::SPICYSPRAY => "SPICYSPRAY",
        Abilities::PIERCINGDRILL => "PIERCINGDRILL",
    }
}

/// The name of a value of `FaintCause`.
pub open spec fn faint_cause_text(x: FaintCause) -> Seq<char> {
    match x {
        FaintCause::Unknown => "Unknown"@,
        FaintCause::DirectMove => "DirectMove"@,
        FaintCause::DestinyBond => "DestinyBond"@,
        FaintCause::Recoil => "Recoil"@,
        FaintCause::SelfKoMove => "SelfKoMove"@,
        FaintCause::PerishSong => "PerishSong"@,
        FaintCause::Residual => "Residual"@,
        FaintCause::Ability => "Ability"@,
        FaintCause::Item => "Item"@,
    }
}

/// The name of a value of `FaintCause`.
pub fn faint_cause_str(x: &FaintCause) -> (r: &'static str)
    ensures
        r@ == faint_cause_text(*x),
{
    match x {
        FaintCause::Unknown => "Unknown",
        FaintCause::DirectMove => "DirectMove",
        FaintCause::DestinyBond => "DestinyBond",
        FaintCause::Recoil => "Recoil",
        FaintCause::SelfKoMove => "SelfKoMove",
        FaintCause::PerishSong => "PerishSong",
        FaintCause::Residual => "Residual",
        FaintCause::Ability => "Ability",
        FaintCause::Item => "Item",
    }
}
/// The text of a last used move.
pub open spec fn last_used_move_text(x: LastUsedMove) -> Seq<char> {
    match x {
        LastUsedMove::Move(m) => "Move("@ + move_index_text(m) + ")"@,
        LastUsedMove::Switch(p) => "Switch("@ + pokemon_index_text(p) + ")"@,
        LastUsedMove::Nothing => "None"@,
    }
}

/// Appends the text of a last used move.
pub fn push_last_used_move(out: &mut String, x: &LastUsedMove)
    ensures
        final(out)@ == old(out)@ + last_used_move_text(*x),
{
    match x {
        LastUsedMove::Move(m) => {
            out.append("Move(");
            out.append(move_index_str(m));
            out.append(")");
        },
        LastUsedMove::Switch(p) => {
            out.append("Switch(");
            out.append(pokemon_index_str(p));
            out.append(")");
        },
        LastUsedMove::Nothing => {
            out.append("None");
        },
    }
    proof {
        match x {
            LastUsedMove::Move(m) => {
                assert(old(out)@ + "Move("@ + move_index_text(*m) + ")"@ =~= old(out)@ + (
                "Move("@ + move_index_text(*m) + ")"@));
            },
            LastUsedMove::Switch(p) => {
                assert(old(out)@ + "Switch("@ + pokemon_index_text(*p) + ")"@ =~= old(out)@ + (
                "Switch("@ + pokemon_index_text(*p) + ")"@));
            },
            LastUsedMove::Nothing => {},
        }
    }
}

/// The text of what dealt a fainting blow.
pub open spec fn faint_effect_text(x: FaintEffect) -> Seq<char> {
    match x {
        FaintEffect::Nothing => "None"@,
        FaintEffect::Move(m) => "Move("@ + move_text(m) + ")"@,
        FaintEffect::Ability(a) => "Ability("@ + ability_text(a) + ")"@,
        FaintEffect::Item(i) => "Item("@ + item_text(i) + ")"@,
        FaintEffect::Status(s) => "Status("@ + status_text(s) + ")"@,
        FaintEffect::Weather(w) => "Weather("@ + weather_text(w) + ")"@,
        FaintEffect::Volatile(v) => "Volatile("@ + volatile_status_text(v) + ")"@,
    }
}

/// Appends a text in brackets after a name, the opening bracket part of the name.
fn push_wrapped(out: &mut String, name_and_bracket: &str, inner: &str)
    ensures
        final(out)@ == old(out)@ + (name_and_bracket@ + inner@ + ")"@),
{
    out.append(name_and_bracket);
    out.append(inner);
    out.append(")");
    proof {
        assert(old(out)@ + name_and_bracket@ + inner@ + ")"@ =~= old(out)@ + (name_and_bracket@
            + inner@ + ")"@));
    }
}

/// Appends the text of what dealt a fainting blow.
pub fn push_faint_effect(out: &mut String, x: &FaintEffect)
    ensures
        final(out)@ == old(out)@ + faint_effect_text(*x),
{
    match x {
        FaintEffect::Nothing => out.append("None"),
        FaintEffect::Move(m) => push_wrapped(out, "Move(", move_str(m)),
        FaintEffect::Ability(a) => push_wrapped(out, "Ability(", ability_str(a)),
        FaintEffect::Item(i) => push_wrapped(out, "Item(", item_str(i)),
        FaintEffect::Status(s) => push_wrapped(out, "Status(", status_str(s)),
        FaintEffect::Weather(w) => push_wrapped(out, "Weather(", weather_str(w)),
        FaintEffect::Volatile(v) => push_wrapped(out, "Volatile(", volatile_status_str(v)),
    }
}

/// The text of an optional side.
pub open spec fn optional_side_text(x: Option<SideReference>) -> Seq<char> {
    match x {
        Some(s) => "Some("@ + side_text(s) + ")"@,
        None => "None"@,
    }
}

/// The text of an optional party slot.
pub open spec fn optional_index_text(x: Option<PokemonIndex>) -> Seq<char> {
    match x {
        Some(p) => "Some("@ + pokemon_index_text(p) + ")"@,
        None => "None"@,
    }
}

/// Appends the text of an optional side.
fn push_optional_side(out: &mut String, x: &Option<SideReference>)
    ensures
        final(out)@ == old(out)@ + optional_side_text(*x),
{
    match x {
        Some(s) => push_wrapped(out, "Some(", side_str(s)),
        None => out.append("None"),
    }
}

/// Appends the text of an optional party slot.
fn push_optional_index(out: &mut String, x: &Option<PokemonIndex>)
    ensures
        final(out)@ == old(out)@ + optional_index_text(*x),
{
    match x {
        Some(p) => push_wrapped(out, "Some(", pokemon_index_str(p)),
        None => out.append("None"),
    }
}

/// The text of a faint context: its fields by name.
pub open spec fn faint_context_text(x: FaintContext) -> Seq<char> {
    "FaintContext { source_side: "@ + optional_side_text(x.source_side) + ", source_index: "@
        + optional_index_text(x.source_index) + ", cause: "@ + faint_cause_text(x.cause)
        + ", effect: "@ + faint_effect_text(x.effect) + " }"@
}

/// Appends the text of a faint context.
pub fn push_faint_context(out: &mut String, x: &FaintContext)
    ensures
        final(out)@ == old(out)@ + faint_context_text(*x),
{
    let ghost start = out@;
    out.append("FaintContext { source_side: ");
    push_optional_side(out, &x.source_side);
    out.append(", source_index: ");
    push_optional_index(out, &x.source_index);
    out.append(", cause: ");
    out.append(faint_cause_str(&x.cause));
    out.append(", effect: ");
    push_faint_effect(out, &x.effect);
    out.append(" }");
    proof {
        assert(out@ =~= start + faint_context_text(*x));
    }
}

/// The text of a pair of types.
pub open spec fn types_text(x: (PokemonType, PokemonType)) -> Seq<char> {
    "("@ + type_text(x.0) + ", "@ + type_text(x.1) + ")"@
}

/// Appends the text of a pair of types.
pub fn push_types(out: &mut String, x: &(PokemonType, PokemonType))
    ensures
        final(out)@ == old(out)@ + types_text(*x),
{
    out.append("(");
    out.append(type_str(&x.0));
    out.append(", ");
    out.append(type_str(&x.1));
    out.append(")");
    proof {
        assert(old(out)@ + "("@ + type_text(x.0) + ", "@ + type_text(x.1) + ")"@ =~= old(out)@
            + types_text(*x));
    }
}

impl Instruction {
    /// The text of an instruction, as the engine prints it.
    pub open spec fn debug_text(self) -> Seq<char> {
        match self {
            Instruction::Switch(x) => "Switch "@ + side_text(x.side_ref) + ": "@ + pokemon_index_text(x.previous_index) + " -> "@ + pokemon_index_text(x.next_index),
            Instruction::ApplyVolatileStatus(x) => "ApplyVolatileStatus "@ + side_text(x.side_ref) + ": "@ + volatile_status_text(x.volatile_status),
            Instruction::RemoveVolatileStatus(x) => "RemoveVolatileStatus "@ + side_text(x.side_ref) + ": "@ + volatile_status_text(x.volatile_status),
            Instruction::ChangeStatus(x) => "ChangeStatus "@ + side_text(x.side_ref) + "-"@ + pokemon_index_text(x.pokemon_index) + ": "@ + status_text(x.old_status) + " -> "@ + status_text(x.new_status),
            Instruction::Heal(x) => "Heal "@ + side_text(x.side_ref) + ": "@ + int_text(x.heal_amount as int),
            Instruction::Damage(x) => "Damage "@ + side_text(x.side_ref) + ": "@ + int_text(x.damage_amount as int),
            Instruction::DamageWithFaintContext(x) => "Damage "@ + side_text(x.side_ref) + ": "@ + int_text(x.damage_amount as int) + " ("@ + faint_context_text(x.faint_context) + ")"@,
            Instruction::Boost(x) => "Boost "@ + side_text(x.side_ref) + " "@ + boostable_stat_text(x.stat) + ": "@ + int_text(x.amount as int),
            Instruction::ChangeSideCondition(x) => "ChangeSideCondition "@ + side_text(x.side_ref) + " "@ + side_condition_text(x.side_condition) + ": "@ + int_text(x.amount as int),
            Instruction::ChangeVolatileStatusDuration(x) => "ChangeVolatileStatusDuration "@ + side_text(x.side_ref) + " "@ + volatile_status_text(x.volatile_status) + ": "@ + int_text(x.amount as int),
            Instruction::ChangeWeather(x) => "ChangeWeather: "@ + weather_text(x.previous_weather) + ","@ + int_text(x.previous_weather_turns_remaining as int) + " -> "@ + weather_text(x.new_weather) + ","@ + int_text(x.new_weather_turns_remaining as int),
            Instruction::DecrementWeatherTurnsRemaining => "DecrementWeatherTurnsRemaining"@,
            Instruction::ChangeTerrain(x) => "ChangeTerrain: "@ + terrain_text(x.previous_terrain) + ","@ + int_text(x.previous_terrain_turns_remaining as int) + " -> "@ + terrain_text(x.new_terrain) + ","@ + int_text(x.new_terrain_turns_remaining as int),
            Instruction::DecrementTerrainTurnsRemaining => "DecrementTerrainTurnsRemaining"@,
            Instruction::ChangeType(x) => "ChangeType "@ + side_text(x.side_ref) + ": "@ + types_text(x.old_types) + " -> "@ + types_text(x.new_types),
            Instruction::ChangeAbility(x) => "ChangeAbility "@ + side_text(x.side_ref) + ": "@ + int_text(x.ability_change as int),
            Instruction::ChangeBaseAbility(x) => "ChangeBaseAbility "@ + side_text(x.side_ref) + ": "@ + int_text(x.ability_change as int),
            Instruction::ChangeItem(x) => "ChangeItem "@ + side_text(x.side_ref) + ": "@ + item_text(x.current_item) + " -> "@ + item_text(x.new_item),
            Instruction::ChangeAttack(x) => "ChangeAttack "@ + side_text(x.side_ref) + ": "@ + int_text(x.amount as int),
            Instruction::ChangeDefense(x) => "ChangeDefense "@ + side_text(x.side_ref) + ": "@ + int_text(x.amount as int),
            Instruction::ChangeSpecialAttack(x) => "ChangeSpecialAttack "@ + side_text(x.side_ref) + ": "@ + int_text(x.amount as int),
            Instruction::ChangeSpecialDefense(x) => "ChangeSpecialDefense "@ + side_text(x.side_ref) + ": "@ + int_text(x.amount as int),
            Instruction::ChangeSpeed(x) => "ChangeSpeed "@ + side_text(x.side_ref) + ": "@ + int_text(x.amount as int),
            Instruction::DisableMove(x) => "DisableMove "@ + side_text(x.side_ref) + ": "@ + move_index_text(x.move_index),
            Instruction::EnableMove(x) => "EnableMove "@ + side_text(x.side_ref) + ": "@ + move_index_text(x.move_index),
            Instruction::ChangeWish(x) => "SetWish "@ + side_text(x.side_ref) + ": "@ + int_text(x.wish_amount_change as int),
            Instruction::DecrementWish(x) => "DecrementWish "@ + side_text(x.side_ref),
            Instruction::SetFutureSight(x) => "SetFutureSight "@ + side_text(x.side_ref) + ": "@ + pokemon_index_text(x.previous_pokemon_index) + " -> "@ + pokemon_index_text(x.pokemon_index),
            Instruction::DecrementFutureSight(x) => "DecrementFutureSight "@ + side_text(x.side_ref),
            Instruction::DamageSubstitute(x) => "DamageSubstitute "@ + side_text(x.side_ref) + ": "@ + int_text(x.damage_amount as int),
            Instruction::DecrementRestTurns(x) => "DecrementRestTurns "@ + side_text(x.side_ref),
            Instruction::SetRestTurns(x) => "SetRestTurns "@ + side_text(x.side_ref) + "-"@ + pokemon_index_text(x.pokemon_index) + ": "@ + int_text(x.previous_turns as int) + " -> "@ + int_text(x.new_turns as int),
            Instruction::SetSleepTurns(x) => "SetSleepTurns "@ + side_text(x.side_ref) + "-"@ + pokemon_index_text(x.pokemon_index) + ": "@ + int_text(x.previous_turns as int) + " -> "@ + int_text(x.new_turns as int),
            Instruction::SetFreezeTurns(x) => "SetFreezeTurns "@ + side_text(x.side_ref) + "-"@ + pokemon_index_text(x.pokemon_index) + ": "@ + int_text(x.previous_turns as int) + " -> "@ + int_text(x.new_turns as int),
            Instruction::ChangeSubstituteHealth(x) => "ChangeSubstituteHealth "@ + side_text(x.side_ref) + ": "@ + int_text(x.health_change as int),
            Instruction::FormeChange(x) => "FormeChange "@ + side_text(x.side_ref) + " "@ + int_text(x.name_change as int),
            Instruction::SetSideOneMoveSecondSwitchOutMove(x) => "SideOneMoveSecondSwitchOutMove: "@ + move_text(x.previous_choice) + " -> "@ + move_text(x.new_choice),
            Instruction::SetSideTwoMoveSecondSwitchOutMove(x) => "SideTwoMoveSecondSwitchOutMove: "@ + move_text(x.previous_choice) + " -> "@ + move_text(x.new_choice),
            Instruction::ToggleBatonPassing(x) => "ToggleBatonPassing "@ + side_text(x.side_ref),
            Instruction::ToggleShedTailing(x) => "ToggleShedTailing "@ + side_text(x.side_ref),
            Instruction::SetLastUsedMove(x) => "SetLastUsedMove "@ + side_text(x.side_ref) + ": "@ + last_used_move_text(x.previous_last_used_move) + " -> "@ + last_used_move_text(x.last_used_move),
            Instruction::ChangeDamageDealtDamage(x) => "ChangeDamageDealtDamage "@ + side_text(x.side_ref) + ": "@ + int_text(x.damage_change as int),
            Instruction::ChangeDamageDealtMoveCatagory(x) => "ChangeDamageDealtMoveCatagory "@ + side_text(x.side_ref) + ": "@ + category_text(x.previous_move_category) + " -> "@ + category_text(x.move_category),
            Instruction::ToggleDamageDealtHitSubstitute(x) => "ToggleDamageDealtHitSubstitute "@ + side_text(x.side_ref),
            Instruction::DecrementPP(x) => "DecrementPP "@ + side_text(x.side_ref) + ": "@ + move_index_text(x.move_index) + " "@ + int_text(x.amount as int),
            Instruction::ToggleTrickRoom(x) => "ToggleTrickRoom: "@ + bool_text(x.currently_active) + ","@ + int_text(x.previous_trickroom_turns_remaining as int) + " -> "@ + bool_text(!x.currently_active) + ","@ + int_text(x.new_trickroom_turns_remaining as int),
            Instruction::DecrementTrickRoomTurnsRemaining => "DecrementTrickRoomTurnsRemaining"@,
            Instruction::ToggleSideOneForceSwitch => "ToggleSideOneForceSwitch"@,
            Instruction::ToggleSideTwoForceSwitch => "ToggleSideTwoForceSwitch"@,
            Instruction::ToggleTerastallized(x) => "ToggleTerastallized "@ + side_text(x.side_ref),
            Instruction::ToggleMegaEvolved(x) => "ToggleMegaEvolved "@ + side_text(x.side_ref) + ": "@ + pokemon_index_text(x.pokemon_index),
            Instruction::ToggleSwordBoostUsed(x) => "ToggleSwordBoostUsed "@ + side_text(x.side_ref) + ": "@ + pokemon_index_text(x.pokemon_index),
            Instruction::ToggleShieldBoostUsed(x) => "ToggleShieldBoostUsed "@ + side_text(x.side_ref) + ": "@ + pokemon_index_text(x.pokemon_index),
            Instruction::TeamPreview(x) => "TeamPreview "@ + side_text(x.side_ref) + ": "@ + pokemon_index_text(x.lead_index) + ","@ + pokemon_index_text(x.reserve_index_one) + ","@ + pokemon_index_text(x.reserve_index_two),
        }
    }

    /// The text of an instruction, as the engine prints it.
    pub fn debug_string(&self) -> (r: String)
        ensures
            r@ == self.debug_text(),
    {
        match self {
            Instruction::Switch(x) => text_of_switch(x),
            Instruction::ApplyVolatileStatus(x) => text_of_apply_volatile_status(x),
            Instruction::RemoveVolatileStatus(x) => text_of_remove_volatile_status(x),
            Instruction::ChangeStatus(x) => text_of_change_status(x),
            Instruction::Heal(x) => text_of_heal(x),
            Instruction::Damage(x) => text_of_damage(x),
            Instruction::DamageWithFaintContext(x) => text_of_damage_with_faint_context(x),
            Instruction::Boost(x) => text_of_boost(x),
            Instruction::ChangeSideCondition(x) => text_of_change_side_condition(x),
            Instruction::ChangeVolatileStatusDuration(x) => text_of_change_volatile_status_duration(x),
            Instruction::ChangeWeather(x) => text_of_change_weather(x),
            Instruction::DecrementWeatherTurnsRemaining => String::from_str("DecrementWeatherTurnsRemaining"),
            Instruction::ChangeTerrain(x) => text_of_change_terrain(x),
            Instruction::DecrementTerrainTurnsRemaining => String::from_str("DecrementTerrainTurnsRemaining"),
            Instruction::ChangeType(x) => text_of_change_type(x),
            Instruction::ChangeAbility(x) => text_of_change_ability(x),
            Instruction::ChangeBaseAbility(x) => text_of_change_base_ability(x),
            Instruction::ChangeItem(x) => text_of_change_item(x),
            Instruction::ChangeAttack(x) => text_of_change_attack(x),
            Instruction::ChangeDefense(x) => text_of_change_defense(x),
            Instruction::ChangeSpecialAttack(x) => text_of_change_special_attack(x),
            Instruction::ChangeSpecialDefense(x) => text_of_change_special_defense(x),
            Instruction::ChangeSpeed(x) => text_of_change_speed(x),
            Instruction::DisableMove(x) => text_of_disable_move(x),
            Instruction::EnableMove(x) => text_of_enable_move(x),
            Instruction::ChangeWish(x) => text_of_change_wish(x),
            Instruction::DecrementWish(x) => text_of_decrement_wish(x),
            Instruction::SetFutureSight(x) => text_of_set_future_sight(x),
            Instruction::DecrementFutureSight(x) => text_of_decrement_future_sight(x),
            Instruction::DamageSubstitute(x) => text_of_damage_substitute(x),
            Instruction::DecrementRestTurns(x) => text_of_decrement_rest_turns(x),
            Instruction::SetRestTurns(x) => text_of_set_rest_turns(x),
            Instruction::SetSleepTurns(x) => text_of_set_sleep_turns(x),
            Instruction::SetFreezeTurns(x) => text_of_set_freeze_turns(x),
            Instruction::ChangeSubstituteHealth(x) => text_of_change_substitute_health(x),
            Instruction::FormeChange(x) => text_of_forme_change(x),
            Instruction::SetSideOneMoveSecondSwitchOutMove(x) => text_of_set_side_one_move_second_switch_out_move(x),
            Instruction::SetSideTwoMoveSecondSwitchOutMove(x) => text_of_set_side_two_move_second_switch_out_move(x),
            Instruction::ToggleBatonPassing(x) => text_of_toggle_baton_passing(x),
            Instruction::ToggleShedTailing(x) => text_of_toggle_shed_tailing(x),
            Instruction::SetLastUsedMove(x) => text_of_set_last_used_move(x),
            Instruction::ChangeDamageDealtDamage(x) => text_of_change_damage_dealt_damage(x),
            Instruction::ChangeDamageDealtMoveCatagory(x) => text_of_change_damage_dealt_move_catagory(x),
            Instruction::ToggleDamageDealtHitSubstitute(x) => text_of_toggle_damage_dealt_hit_substitute(x),
            Instruction::DecrementPP(x) => text_of_decrement_p_p(x),
            Instruction::ToggleTrickRoom(x) => text_of_toggle_trick_room(x),
            Instruction::DecrementTrickRoomTurnsRemaining => String::from_str("DecrementTrickRoomTurnsRemaining"),
            Instruction::ToggleSideOneForceSwitch => String::from_str("ToggleSideOneForceSwitch"),
            Instruction::ToggleSideTwoForceSwitch => String::from_str("ToggleSideTwoForceSwitch"),
            Instruction::ToggleTerastallized(x) => text_of_toggle_terastallized(x),
            Instruction::ToggleMegaEvolved(x) => text_of_toggle_mega_evolved(x),
            Instruction::ToggleSwordBoostUsed(x) => text_of_toggle_sword_boost_used(x),
            Instruction::ToggleShieldBoostUsed(x) => text_of_toggle_shield_boost_used(x),
            Instruction::TeamPreview(x) => text_of_team_preview(x),
        }
    }
}

fn text_of_switch(x: &crate::instruction::SwitchInstruction) -> (r: String)
    ensures
        r@ == "Switch "@ + side_text(x.side_ref) + ": "@ + pokemon_index_text(x.previous_index) + " -> "@ + pokemon_index_text(x.next_index),
{
    let mut out = String::from_str("Switch ");
    out.append(side_str(&x.side_ref));
    out.append(": ");
    out.append(pokemon_index_str(&x.previous_index));
    out.append(" -> ");
    out.append(pokemon_index_str(&x.next_index));
    out
}

fn text_of_apply_volatile_status(x: &crate::instruction::ApplyVolatileStatusInstruction) -> (r: String)
    ensures
        r@ == "ApplyVolatileStatus "@ + side_text(x.side_ref) + ": "@ + volatile_status_text(x.volatile_status),
{
    let mut out = String::from_str("ApplyVolatileStatus ");
    out.append(side_str(&x.side_ref));
    out.append(": ");
    out.append(volatile_status_str(&x.volatile_status));
    out
}

fn text_of_remove_volatile_status(x: &crate::instruction::RemoveVolatileStatusInstruction) -> (r: String)
    ensures
        r@ == "RemoveVolatileStatus "@ + side_text(x.side_ref) + ": "@ + volatile_status_text(x.volatile_status),
{
    let mut out = String::from_str("RemoveVolatileStatus ");
    out.append(side_str(&x.side_ref));
    out.append(": ");
    out.append(volatile_status_str(&x.volatile_status));
    out
}

fn text_of_change_status(x: &crate::instruction::ChangeStatusInstruction) -> (r: String)
    ensures
        r@ == "ChangeStatus "@ + side_text(x.side_ref) + "-"@ + pokemon_index_text(x.pokemon_index) + ": "@ + status_text(x.old_status) + " -> "@ + status_text(x.new_status),
{
    let mut out = String::from_str("ChangeStatus ");
    out.append(side_str(&x.side_ref));
    out.append("-");
    out.append(pokemon_index_str(&x.pokemon_index));
    out.append(": ");
    out.append(status_str(&x.old_status));
    out.append(" -> ");
    out.append(status_str(&x.new_status));
    out
}

fn text_of_heal(x: &crate::instruction::HealInstruction) -> (r: String)
    ensures
        r@ == "Heal "@ + side_text(x.side_ref) + ": "@ + int_text(x.heal_amount as int),
{
    let mut out = String::from_str("Heal ");
    out.append(side_str(&x.side_ref));
    out.append(": ");
    push_int(&mut out, x.heal_amount);
    out
}

fn text_of_damage(x: &crate::instruction::DamageInstruction) -> (r: String)
    ensures
        r@ == "Damage "@ + side_text(x.side_ref) + ": "@ + int_text(x.damage_amount as int),
{
    let mut out = String::from_str("Damage ");
    out.append(side_str(&x.side_ref));
    out.append(": ");
    push_int(&mut out, x.damage_amount);
    out
}

fn text_of_damage_with_faint_context(x: &crate::instruction::DamageWithFaintContextInstruction) -> (r: String)
    ensures
        r@ == "Damage "@ + side_text(x.side_ref) + ": "@ + int_text(x.damage_amount as int) + " ("@ + faint_context_text(x.faint_context) + ")"@,
{
    let mut out = String::from_str("Damage ");
    out.append(side_str(&x.side_ref));
    out.append(": ");
    push_int(&mut out, x.damage_amount);
    out.append(" (");
    push_faint_context(&mut out, &x.faint_context);
    out.append(")");
    out
}

fn text_of_boost(x: &crate::instruction::BoostInstruction) -> (r: String)
    ensures
        r@ == "Boost "@ + side_text(x.side_ref) + " "@ + boostable_stat_text(x.stat) + ": "@ + int_text(x.amount as int),
{
    let mut out = String::from_str("Boost ");
    out.append(side_str(&x.side_ref));
    out.append(" ");
    out.append(boostable_stat_str(&x.stat));
    out.append(": ");
    push_int(&mut out, x.amount as i16);
    out
}

fn text_of_change_side_condition(x: &crate::instruction::ChangeSideConditionInstruction) -> (r: String)
    ensures
        r@ == "ChangeSideCondition "@ + side_text(x.side_ref) + " "@ + side_condition_text(x.side_condition) + ": "@ + int_text(x.amount as int),
{
    let mut out = String::from_str("ChangeSideCondition ");
    out.append(side_str(&x.side_ref));
    out.append(" ");
    out.append(side_condition_str(&x.side_condition));
    out.append(": ");
    push_int(&mut out, x.amount as i16);
    out
}

fn text_of_change_volatile_status_duration(x: &crate::instruction::ChangeVolatileStatusDurationInstruction) -> (r: String)
    ensures
        r@ == "ChangeVolatileStatusDuration "@ + side_text(x.side_ref) + " "@ + volatile_status_text(x.volatile_status) + ": "@ + int_text(x.amount as int),
{
    let mut out = String::from_str("ChangeVolatileStatusDuration ");
    out.append(side_str(&x.side_ref));
    out.append(" ");
    out.append(volatile_status_str(&x.volatile_status));
    out.append(": ");
    push_int(&mut out, x.amount as i16);
    out
}

fn text_of_change_weather(x: &crate::instruction::ChangeWeather) -> (r: String)
    ensures
        r@ == "ChangeWeather: "@ + weather_text(x.previous_weather) + ","@ + int_text(x.previous_weather_turns_remaining as int) + " -> "@ + weather_text(x.new_weather) + ","@ + int_text(x.new_weather_turns_remaining as int),
{
    let mut out = String::from_str("ChangeWeather: ");
    out.append(weather_str(&x.previous_weather));
    out.append(",");
    push_int(&mut out, x.previous_weather_turns_remaining as i16);
    out.append(" -> ");
    out.append(weather_str(&x.new_weather));
    out.append(",");
    push_int(&mut out, x.new_weather_turns_remaining as i16);
    out
}

fn text_of_change_terrain(x: &crate::instruction::ChangeTerrain) -> (r: String)
    ensures
        r@ == "ChangeTerrain: "@ + terrain_text(x.previous_terrain) + ","@ + int_text(x.previous_terrain_turns_remaining as int) + " -> "@ + terrain_text(x.new_terrain) + ","@ + int_text(x.new_terrain_turns_remaining as int),
{
    let mut out = String::from_str("ChangeTerrain: ");
    out.append(terrain_str(&x.previous_terrain));
    out.append(",");
    push_int(&mut out, x.previous_terrain_turns_remaining as i16);
    out.append(" -> ");
    out.append(terrain_str(&x.new_terrain));
    out.append(",");
    push_int(&mut out, x.new_terrain_turns_remaining as i16);
    out
}

fn text_of_change_type(x: &crate::instruction::ChangeType) -> (r: String)
    ensures
        r@ == "ChangeType "@ + side_text(x.side_ref) + ": "@ + types_text(x.old_types) + " -> "@ + types_text(x.new_types),
{
    let mut out = String::from_str("ChangeType ");
    out.append(side_str(&x.side_ref));
    out.append(": ");
    push_types(&mut out, &x.old_types);
    out.append(" -> ");
    push_types(&mut out, &x.new_types);
    out
}

fn text_of_change_ability(x: &crate::instruction::ChangeAbilityInstruction) -> (r: String)
    ensures
        r@ == "ChangeAbility "@ + side_text(x.side_ref) + ": "@ + int_text(x.ability_change as int),
{
    let mut out = String::from_str("ChangeAbility ");
    out.append(side_str(&x.side_ref));
    out.append(": ");
    push_int(&mut out, x.ability_change);
    out
}

fn text_of_change_base_ability(x: &crate::instruction::ChangeAbilityInstruction) -> (r: String)
    ensures
        r@ == "ChangeBaseAbility "@ + side_text(x.side_ref) + ": "@ + int_text(x.ability_change as int),
{
    let mut out = String::from_str("ChangeBaseAbility ");
    out.append(side_str(&x.side_ref));
    out.append(": ");
    push_int(&mut out, x.ability_change);
    out
}

fn text_of_change_item(x: &crate::instruction::ChangeItemInstruction) -> (r: String)
    ensures
        r@ == "ChangeItem "@ + side_text(x.side_ref) + ": "@ + item_text(x.current_item) + " -> "@ + item_text(x.new_item),
{
    let mut out = String::from_str("ChangeItem ");
    out.append(side_str(&x.side_ref));
    out.append(": ");
    out.append(item_str(&x.current_item));
    out.append(" -> ");
    out.append(item_str(&x.new_item));
    out
}

fn text_of_change_attack(x: &crate::instruction::ChangeStatInstruction) -> (r: String)
    ensures
        r@ == "ChangeAttack "@ + side_text(x.side_ref) + ": "@ + int_text(x.amount as int),
{
    let mut out = String::from_str("ChangeAttack ");
    out.append(side_str(&x.side_ref));
    out.append(": ");
    push_int(&mut out, x.amount);
    out
}

fn text_of_change_defense(x: &crate::instruction::ChangeStatInstruction) -> (r: String)
    ensures
        r@ == "ChangeDefense "@ + side_text(x.side_ref) + ": "@ + int_text(x.amount as int),
{
    let mut out = String::from_str("ChangeDefense ");
    out.append(side_str(&x.side_ref));
    out.append(": ");
    push_int(&mut out, x.amount);
    out
}

fn text_of_change_special_attack(x: &crate::instruction::ChangeStatInstruction) -> (r: String)
    ensures
        r@ == "ChangeSpecialAttack "@ + side_text(x.side_ref) + ": "@ + int_text(x.amount as int),
{
    let mut out = String::from_str("ChangeSpecialAttack ");
    out.append(side_str(&x.side_ref));
    out.append(": ");
    push_int(&mut out, x.amount);
    out
}

fn text_of_change_special_defense(x: &crate::instruction::ChangeStatInstruction) -> (r: String)
    ensures
        r@ == "ChangeSpecialDefense "@ + side_text(x.side_ref) + ": "@ + int_text(x.amount as int),
{
    let mut out = String::from_str("ChangeSpecialDefense ");
    out.append(side_str(&x.side_ref));
    out.append(": ");
    push_int(&mut out, x.amount);
    out
}

fn text_of_change_speed(x: &crate::instruction::ChangeStatInstruction) -> (r: String)
    ensures
        r@ == "ChangeSpeed "@ + side_text(x.side_ref) + ": "@ + int_text(x.amount as int),
{
    let mut out = String::from_str("ChangeSpeed ");
    out.append(side_str(&x.side_ref));
    out.append(": ");
    push_int(&mut out, x.amount);
    out
}

fn text_of_disable_move(x: &crate::instruction::DisableMoveInstruction) -> (r: String)
    ensures
        r@ == "DisableMove "@ + side_text(x.side_ref) + ": "@ + move_index_text(x.move_index),
{
    let mut out = String::from_str("DisableMove ");
    out.append(side_str(&x.side_ref));
    out.append(": ");
    out.append(move_index_str(&x.move_index));
    out
}

fn text_of_enable_move(x: &crate::instruction::EnableMoveInstruction) -> (r: String)
    ensures
        r@ == "EnableMove "@ + side_text(x.side_ref) + ": "@ + move_index_text(x.move_index),
{
    let mut out = String::from_str("EnableMove ");
    out.append(side_str(&x.side_ref));
    out.append(": ");
    out.append(move_index_str(&x.move_index));
    out
}

fn text_of_change_wish(x: &crate::instruction::ChangeWishInstruction) -> (r: String)
    ensures
        r@ == "SetWish "@ + side_text(x.side_ref) + ": "@ + int_text(x.wish_amount_change as int),
{
    let mut out = String::from_str("SetWish ");
    out.append(side_str(&x.side_ref));
    out.append(": ");
    push_int(&mut out, x.wish_amount_change);
    out
}

fn text_of_decrement_wish(x: &crate::instruction::DecrementWishInstruction) -> (r: String)
    ensures
        r@ == "DecrementWish "@ + side_text(x.side_ref),
{
    let mut out = String::from_str("DecrementWish ");
    out.append(side_str(&x.side_ref));
    out
}

fn text_of_set_future_sight(x: &crate::instruction::SetFutureSightInstruction) -> (r: String)
    ensures
        r@ == "SetFutureSight "@ + side_text(x.side_ref) + ": "@ + pokemon_index_text(x.previous_pokemon_index) + " -> "@ + pokemon_index_text(x.pokemon_index),
{
    let mut out = String::from_str("SetFutureSight ");
    out.append(side_str(&x.side_ref));
    out.append(": ");
    out.append(pokemon_index_str(&x.previous_pokemon_index));
    out.append(" -> ");
    out.append(pokemon_index_str(&x.pokemon_index));
    out
}

fn text_of_decrement_future_sight(x: &crate::instruction::DecrementFutureSightInstruction) -> (r: String)
    ensures
        r@ == "DecrementFutureSight "@ + side_text(x.side_ref),
{
    let mut out = String::from_str("DecrementFutureSight ");
    out.append(side_str(&x.side_ref));
    out
}

fn text_of_damage_substitute(x: &crate::instruction::DamageInstruction) -> (r: String)
    ensures
        r@ == "DamageSubstitute "@ + side_text(x.side_ref) + ": "@ + int_text(x.damage_amount as int),
{
    let mut out = String::from_str("DamageSubstitute ");
    out.append(side_str(&x.side_ref));
    out.append(": ");
    push_int(&mut out, x.damage_amount);
    out
}

fn text_of_decrement_rest_turns(x: &crate::instruction::DecrementRestTurnsInstruction) -> (r: String)
    ensures
        r@ == "DecrementRestTurns "@ + side_text(x.side_ref),
{
    let mut out = String::from_str("DecrementRestTurns ");
    out.append(side_str(&x.side_ref));
    out
}

fn text_of_set_rest_turns(x: &crate::instruction::SetSleepTurnsInstruction) -> (r: String)
    ensures
        r@ == "SetRestTurns "@ + side_text(x.side_ref) + "-"@ + pokemon_index_text(x.pokemon_index) + ": "@ + int_text(x.previous_turns as int) + " -> "@ + int_text(x.new_turns as int),
{
    let mut out = String::from_str("SetRestTurns ");
    out.append(side_str(&x.side_ref));
    out.append("-");
    out.append(pokemon_index_str(&x.pokemon_index));
    out.append(": ");
    push_int(&mut out, x.previous_turns as i16);
    out.append(" -> ");
    push_int(&mut out, x.new_turns as i16);
    out
}

fn text_of_set_sleep_turns(x: &crate::instruction::SetSleepTurnsInstruction) -> (r: String)
    ensures
        r@ == "SetSleepTurns "@ + side_text(x.side_ref) + "-"@ + pokemon_index_text(x.pokemon_index) + ": "@ + int_text(x.previous_turns as int) + " -> "@ + int_text(x.new_turns as int),
{
    let mut out = String::from_str("SetSleepTurns ");
    out.append(side_str(&x.side_ref));
    out.append("-");
    out.append(pokemon_index_str(&x.pokemon_index));
    out.append(": ");
    push_int(&mut out, x.previous_turns as i16);
    out.append(" -> ");
    push_int(&mut out, x.new_turns as i16);
    out
}

fn text_of_set_freeze_turns(x: &crate::instruction::SetSleepTurnsInstruction) -> (r: String)
    ensures
        r@ == "SetFreezeTurns "@ + side_text(x.side_ref) + "-"@ + pokemon_index_text(x.pokemon_index) + ": "@ + int_text(x.previous_turns as int) + " -> "@ + int_text(x.new_turns as int),
{
    let mut out = String::from_str("SetFreezeTurns ");
    out.append(side_str(&x.side_ref));
    out.append("-");
    out.append(pokemon_index_str(&x.pokemon_index));
    out.append(": ");
    push_int(&mut out, x.previous_turns as i16);
    out.append(" -> ");
    push_int(&mut out, x.new_turns as i16);
    out
}

fn text_of_change_substitute_health(x: &crate::instruction::ChangeSubsituteHealthInstruction) -> (r: String)
    ensures
        r@ == "ChangeSubstituteHealth "@ + side_text(x.side_ref) + ": "@ + int_text(x.health_change as int),
{
    let mut out = String::from_str("ChangeSubstituteHealth ");
    out.append(side_str(&x.side_ref));
    out.append(": ");
    push_int(&mut out, x.health_change);
    out
}

fn text_of_forme_change(x: &crate::instruction::FormeChangeInstruction) -> (r: String)
    ensures
        r@ == "FormeChange "@ + side_text(x.side_ref) + " "@ + int_text(x.name_change as int),
{
    let mut out = String::from_str("FormeChange ");
    out.append(side_str(&x.side_ref));
    out.append(" ");
    push_int(&mut out, x.name_change);
    out
}

fn text_of_set_side_one_move_second_switch_out_move(x: &crate::instruction::SetSecondMoveSwitchOutMoveInstruction) -> (r: String)
    ensures
        r@ == "SideOneMoveSecondSwitchOutMove: "@ + move_text(x.previous_choice) + " -> "@ + move_text(x.new_choice),
{
    let mut out = String::from_str("SideOneMoveSecondSwitchOutMove: ");
    out.append(move_str(&x.previous_choice));
    out.append(" -> ");
    out.append(move_str(&x.new_choice));
    out
}

fn text_of_set_side_two_move_second_switch_out_move(x: &crate::instruction::SetSecondMoveSwitchOutMoveInstruction) -> (r: String)
    ensures
        r@ == "SideTwoMoveSecondSwitchOutMove: "@ + move_text(x.previous_choice) + " -> "@ + move_text(x.new_choice),
{
    let mut out = String::from_str("SideTwoMoveSecondSwitchOutMove: ");
    out.append(move_str(&x.previous_choice));
    out.append(" -> ");
    out.append(move_str(&x.new_choice));
    out
}

fn text_of_toggle_baton_passing(x: &crate::instruction::ToggleBatonPassingInstruction) -> (r: String)
    ensures
        r@ == "ToggleBatonPassing "@ + side_text(x.side_ref),
{
    let mut out = String::from_str("ToggleBatonPassing ");
    out.append(side_str(&x.side_ref));
    out
}

fn text_of_toggle_shed_tailing(x: &crate::instruction::ToggleShedTailingInstruction) -> (r: String)
    ensures
        r@ == "ToggleShedTailing "@ + side_text(x.side_ref),
{
    let mut out = String::from_str("ToggleShedTailing ");
    out.append(side_str(&x.side_ref));
    out
}

fn text_of_set_last_used_move(x: &crate::instruction::SetLastUsedMoveInstruction) -> (r: String)
    ensures
        r@ == "SetLastUsedMove "@ + side_text(x.side_ref) + ": "@ + last_used_move_text(x.previous_last_used_move) + " -> "@ + last_used_move_text(x.last_used_move),
{
    let mut out = String::from_str("SetLastUsedMove ");
    out.append(side_str(&x.side_ref));
    out.append(": ");
    push_last_used_move(&mut out, &x.previous_last_used_move);
    out.append(" -> ");
    push_last_used_move(&mut out, &x.last_used_move);
    out
}

fn text_of_change_damage_dealt_damage(x: &crate::instruction::ChangeDamageDealtDamageInstruction) -> (r: String)
    ensures
        r@ == "ChangeDamageDealtDamage "@ + side_text(x.side_ref) + ": "@ + int_text(x.damage_change as int),
{
    let mut out = String::from_str("ChangeDamageDealtDamage ");
    out.append(side_str(&x.side_ref));
    out.append(": ");
    push_int(&mut out, x.damage_change);
    out
}

fn text_of_change_damage_dealt_move_catagory(x: &crate::instruction::ChangeDamageDealtMoveCategoryInstruction) -> (r: String)
    ensures
        r@ == "ChangeDamageDealtMoveCatagory "@ + side_text(x.side_ref) + ": "@ + category_text(x.previous_move_category) + " -> "@ + category_text(x.move_category),
{
    let mut out = String::from_str("ChangeDamageDealtMoveCatagory ");
    out.append(side_str(&x.side_ref));
    out.append(": ");
    out.append(category_str(&x.previous_move_category));
    out.append(" -> ");
    out.append(category_str(&x.move_category));
    out
}

fn text_of_toggle_damage_dealt_hit_substitute(x: &crate::instruction::ToggleDamageDealtHitSubstituteInstruction) -> (r: String)
    ensures
        r@ == "ToggleDamageDealtHitSubstitute "@ + side_text(x.side_ref),
{
    let mut out = String::from_str("ToggleDamageDealtHitSubstitute ");
    out.append(side_str(&x.side_ref));
    out
}

fn text_of_decrement_p_p(x: &crate::instruction::DecrementPPInstruction) -> (r: String)
    ensures
        r@ == "DecrementPP "@ + side_text(x.side_ref) + ": "@ + move_index_text(x.move_index) + " "@ + int_text(x.amount as int),
{
    let mut out = String::from_str("DecrementPP ");
    out.append(side_str(&x.side_ref));
    out.append(": ");
    out.append(move_index_str(&x.move_index));
    out.append(" ");
    push_int(&mut out, x.amount as i16);
    out
}

fn text_of_toggle_trick_room(x: &crate::instruction::ToggleTrickRoomInstruction) -> (r: String)
    ensures
        r@ == "ToggleTrickRoom: "@ + bool_text(x.currently_active) + ","@ + int_text(x.previous_trickroom_turns_remaining as int) + " -> "@ + bool_text(!x.currently_active) + ","@ + int_text(x.new_trickroom_turns_remaining as int),
{
    let mut out = String::from_str("ToggleTrickRoom: ");
    out.append(bool_str(x.currently_active));
    out.append(",");
    push_int(&mut out, x.previous_trickroom_turns_remaining as i16);
    out.append(" -> ");
    out.append(bool_str(!x.currently_active));
    out.append(",");
    push_int(&mut out, x.new_trickroom_turns_remaining as i16);
    out
}

fn text_of_toggle_terastallized(x: &crate::instruction::ToggleTerastallizedInstruction) -> (r: String)
    ensures
        r@ == "ToggleTerastallized "@ + side_text(x.side_ref),
{
    let mut out = String::from_str("ToggleTerastallized ");
    out.append(side_str(&x.side_ref));
    out
}

fn text_of_toggle_mega_evolved(x: &crate::instruction::ToggleMegaEvolvedInstruction) -> (r: String)
    ensures
        r@ == "ToggleMegaEvolved "@ + side_text(x.side_ref) + ": "@ + pokemon_index_text(x.pokemon_index),
{
    let mut out = String::from_str("ToggleMegaEvolved ");
    out.append(side_str(&x.side_ref));
    out.append(": ");
    out.append(pokemon_index_str(&x.pokemon_index));
    out
}

fn text_of_toggle_sword_boost_used(x: &crate::instruction::ToggleAbilityOnStartFlagInstruction) -> (r: String)
    ensures
        r@ == "ToggleSwordBoostUsed "@ + side_text(x.side_ref) + ": "@ + pokemon_index_text(x.pokemon_index),
{
    let mut out = String::from_str("ToggleSwordBoostUsed ");
    out.append(side_str(&x.side_ref));
    out.append(": ");
    out.append(pokemon_index_str(&x.pokemon_index));
    out
}

fn text_of_toggle_shield_boost_used(x: &crate::instruction::ToggleAbilityOnStartFlagInstruction) -> (r: String)
    ensures
        r@ == "ToggleShieldBoostUsed "@ + side_text(x.side_ref) + ": "@ + pokemon_index_text(x.pokemon_index),
{
    let mut out = String::from_str("ToggleShieldBoostUsed ");
    out.append(side_str(&x.side_ref));
    out.append(": ");
    out.append(pokemon_index_str(&x.pokemon_index));
    out
}

fn text_of_team_preview(x: &crate::instruction::TeamPreviewInstruction) -> (r: String)
    ensures
        r@ == "TeamPreview "@ + side_text(x.side_ref) + ": "@ + pokemon_index_text(x.lead_index) + ","@ + pokemon_index_text(x.reserve_index_one) + ","@ + pokemon_index_text(x.reserve_index_two),
{
    let mut out = String::from_str("TeamPreview ");
    out.append(side_str(&x.side_ref));
    out.append(": ");
    out.append(pokemon_index_str(&x.lead_index));
    out.append(",");
    out.append(pokemon_index_str(&x.reserve_index_one));
    out.append(",");
    out.append(pokemon_index_str(&x.reserve_index_two));
    out
}

} // verus!
