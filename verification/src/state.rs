//! The battle vocabulary shared by the instruction set and the ability rules:
//! sides, slots, stats, types, statuses, weather, terrain, moves and items,
//! and the small part of a side's state that the ability helpers read and write.

use vstd::prelude::*;
use crate::abilities::Abilities;

verus! {

/// Which of the two sides of a battle an effect concerns.
#[derive(Debug, PartialEq, Eq, Clone, Copy, Hash, Structural)]
pub enum SideReference {
    SideOne,
    SideTwo,
}

impl SideReference {
    /// The opposing side, as a mathematical function.
    pub open spec fn other(self) -> SideReference {
        match self {
            SideReference::SideOne => SideReference::SideTwo,
            SideReference::SideTwo => SideReference::SideOne,
        }
    }

    /// The opposing side.
    pub fn get_other_side(&self) -> (r: SideReference)
        ensures
            r == self.other(),
            r != *self,
    {
        match self {
            SideReference::SideOne => SideReference::SideTwo,
            SideReference::SideTwo => SideReference::SideOne,
        }
    }
}

/// Taking the other side twice gives back the side one started from.
pub proof fn lemma_other_side_involution(s: SideReference)
    ensures
        s.other().other() == s,
        s.other() != s,
{
}

/// The six party slots of a side.
#[derive(Debug, PartialEq, Eq, Clone, Copy, Hash, Structural)]
pub enum PokemonIndex {
    P0,
    P1,
    P2,
    P3,
    P4,
    P5,
}

impl PokemonIndex {
    /// The slot's position in the party, 0 to 5.
    pub open spec fn spec_position(self) -> int {
        match self {
            PokemonIndex::P0 => 0,
            PokemonIndex::P1 => 1,
            PokemonIndex::P2 => 2,
            PokemonIndex::P3 => 3,
            PokemonIndex::P4 => 4,
            PokemonIndex::P5 => 5,
        }
    }

    /// The slot's position in the party, 0 to 5.
    pub fn position(&self) -> (r: usize)
        ensures
            r == self.spec_position(),
            r < 6,
    {
        match self {
            PokemonIndex::P0 => 0,
            PokemonIndex::P1 => 1,
            PokemonIndex::P2 => 2,
            PokemonIndex::P3 => 3,
            PokemonIndex::P4 => 4,
            PokemonIndex::P5 => 5,
        }
    }
}

/// The four move slots of a pokemon.
#[derive(Debug, PartialEq, Eq, Clone, Copy, Hash, Structural)]
pub enum PokemonMoveIndex {
    M0,
    M1,
    M2,
    M3,
}

/// What a side did last: used a move from a slot, switched to a slot, or nothing yet.
#[derive(Debug, PartialEq, Eq, Clone, Copy, Hash, Structural)]
pub enum LastUsedMove {
    Move(PokemonMoveIndex),
    Switch(PokemonIndex),
    Nothing,
}

/// A decision a side can make in a turn: use a move, switch, or nothing.
#[derive(Debug, PartialEq, Eq, Clone, Copy, Hash, Structural)]
pub enum MoveChoice {
    Move(PokemonMoveIndex),
    Switch(PokemonIndex),
    Nothing,
}

/// The stats that boosts apply to.
#[derive(Debug, PartialEq, Eq, Clone, Copy, Hash, Structural)]
pub enum PokemonBoostableStat {
    Attack,
    Defense,
    SpecialAttack,
    SpecialDefense,
    Speed,
    Evasion,
    Accuracy,
}

/// Conditions that lie on one side of the field.
#[derive(Debug, PartialEq, Eq, Clone, Copy, Hash, Structural)]
pub enum PokemonSideCondition {
    AuroraVeil,
    CraftyShield,
    HealingWish,
    LightScreen,
    LuckyChant,
    LunarDance,
    MatBlock,
    Mist,
    Protect,
    QuickGuard,
    Reflect,
    Safeguard,
    Spikes,
    Stealthrock,
    StickyWeb,
    Tailwind,
    ToxicCount,
    ToxicSpikes,
    WideGuard,
}

/// Non-volatile status conditions.
#[derive(Debug, PartialEq, Eq, Clone, Copy, Hash, Structural)]
pub enum PokemonStatus {
    NONE,
    BURN,
    SLEEP,
    FREEZE,
    PARALYZE,
    POISON,
    TOXIC,
}

/// Elemental types.
#[derive(Debug, PartialEq, Eq, Clone, Copy, Hash, Structural)]
pub enum PokemonType {
    NORMAL,
    FIRE,
    WATER,
    ELECTRIC,
    GRASS,
    ICE,
    FIGHTING,
    POISON,
    GROUND,
    FLYING,
    PSYCHIC,
    BUG,
    ROCK,
    GHOST,
    DRAGON,
    DARK,
    STEEL,
    FAIRY,
    STELLAR,
    TYPELESS,
}

/// Field weather.
#[derive(Debug, PartialEq, Eq, Clone, Copy, Hash, Structural)]
pub enum Weather {
    NONE,
    SUN,
    RAIN,
    SAND,
    HAIL,
    SNOW,
    HARSHSUN,
    HEAVYRAIN,
}

/// Field terrain.
#[derive(Debug, PartialEq, Eq, Clone, Copy, Hash, Structural)]
pub enum Terrain {
    NONE,
    ELECTRICTERRAIN,
    GRASSYTERRAIN,
    MISTYTERRAIN,
    PSYCHICTERRAIN,
}

/// Volatile statuses: the ones that the ability rules and the instruction set name.
#[derive(Debug, PartialEq, Eq, Clone, Copy, Hash, Structural)]
pub enum PokemonVolatileStatus {
    CHARGE,
    FLASHFIRE,
    FLINCH,
    LOCKEDMOVE,
    PARTIALLYTRAPPED,
    PERISH1,
    PERISH2,
    PERISH3,
    PERISH4,
    PROTOSYNTHESISATK,
    PROTOSYNTHESISDEF,
    PROTOSYNTHESISSPA,
    PROTOSYNTHESISSPD,
    PROTOSYNTHESISSPE,
    PROTOSYNTHESISBOOSTER,
    QUARKDRIVEATK,
    QUARKDRIVEDEF,
    QUARKDRIVESPA,
    QUARKDRIVESPD,
    QUARKDRIVESPE,
    QUARKDRIVEBOOSTER,
    SLOWSTART,
    SMACKDOWN,
    SUBSTITUTE,
    TYPECHANGE,
}

/// The damage class of a move, or a switch.
#[derive(Debug, PartialEq, Eq, Clone, Copy, Hash, Structural)]
pub enum MoveCategory {
    Physical,
    Special,
    Status,
    Switch,
}

/// Moves: the ones that the ability rules name, and the ones of the sample battles.
#[derive(Debug, PartialEq, Eq, Clone, Copy, Hash, Structural)]
pub enum Choices {
    NONE,
    DIVE,
    EXPLOSION,
    GROWL,
    MINDBLOWN,
    MISTYEXPLOSION,
    MOONGEISTBEAM,
    PHOTONGEYSER,
    SELFDESTRUCT,
    SOAK,
    SPIKES,
    SPLASH,
    STEALTHROCK,
    STICKYWEB,
    SUNSTEELSTRIKE,
    SURF,
    TACKLE,
    THOUSANDARROWS,
    TOXICSPIKES,
    WATERGUN,
}

/// Held items.
#[derive(Debug, PartialEq, Eq, Clone, Copy, Hash, Structural)]
pub enum Items {
    NONE,
    ABILITYSHIELD,
    ADRENALINEORB,
    BOOSTERENERGY,
    LUMBERRY,
    ASSAULTVEST,
    BLACKSLUDGE,
    CHOICEBAND,
    CHOICESCARF,
    CHOICESPECS,
    CLEARAMULET,
    COVERTCLOAK,
    EXPERTBELT,
    FOCUSSASH,
    HEAVYDUTYBOOTS,
    LEFTOVERS,
    LIFEORB,
    ROCKYHELMET,
    SITRUSBERRY,
}


/// The facts of a chosen move that the ability helpers read.
#[derive(Debug, PartialEq, Eq, Clone, Copy, Structural)]
pub struct Choice {
    pub move_id: Choices,
    pub category: MoveCategory,
    /// The move's type.
    pub move_type: PokemonType,
    /// Whether the move is sound based.
    pub sound: bool,
    /// Whether the move makes contact.
    pub contact: bool,
    /// Whether the move is a wind move.
    pub wind: bool,
    /// Whether the move's damage was blocked (by ice face).
    pub damage_blocked: bool,
}

/// Species and formes: the ones whose forme the ability rules change.
#[derive(Debug, PartialEq, Eq, Clone, Copy, Hash, Structural)]
pub enum PokemonName {
    NONE,
    PIKACHU,
    CRAMORANT,
    CRAMORANTGULPING,
    CRAMORANTGORGING,
    PALAFIN,
    PALAFINHERO,
    MORPEKO,
    MORPEKOHANGRY,
    MINIOR,
    MINIORMETEOR,
    WISHIWASHI,
    WISHIWASHISCHOOL,
    EISCUE,
    EISCUENOICE,
    MIMIKYU,
    MIMIKYUTOTEM,
    MIMIKYUBUSTED,
}

impl PokemonName {
    /// The number of a species or forme: its place in the list above.
    pub open spec fn spec_number(self) -> int {
        match self {
            PokemonName::NONE => 0,
            PokemonName::PIKACHU => 1,
            PokemonName::CRAMORANT => 2,
            PokemonName::CRAMORANTGULPING => 3,
            PokemonName::CRAMORANTGORGING => 4,
            PokemonName::PALAFIN => 5,
            PokemonName::PALAFINHERO => 6,
            PokemonName::MORPEKO => 7,
            PokemonName::MORPEKOHANGRY => 8,
            PokemonName::MINIOR => 9,
            PokemonName::MINIORMETEOR => 10,
            PokemonName::WISHIWASHI => 11,
            PokemonName::WISHIWASHISCHOOL => 12,
            PokemonName::EISCUE => 13,
            PokemonName::EISCUENOICE => 14,
            PokemonName::MIMIKYU => 15,
            PokemonName::MIMIKYUTOTEM => 16,
            PokemonName::MIMIKYUBUSTED => 17,
        }
    }

    /// The number of a species or forme.
    pub fn number(&self) -> (r: i16)
        ensures
            r == self.spec_number(),
            0 <= r < 18,
    {
        match self {
            PokemonName::NONE => 0,
            PokemonName::PIKACHU => 1,
            PokemonName::CRAMORANT => 2,
            PokemonName::CRAMORANTGULPING => 3,
            PokemonName::CRAMORANTGORGING => 4,
            PokemonName::PALAFIN => 5,
            PokemonName::PALAFINHERO => 6,
            PokemonName::MORPEKO => 7,
            PokemonName::MORPEKOHANGRY => 8,
            PokemonName::MINIOR => 9,
            PokemonName::MINIORMETEOR => 10,
            PokemonName::WISHIWASHI => 11,
            PokemonName::WISHIWASHISCHOOL => 12,
            PokemonName::EISCUE => 13,
            PokemonName::EISCUENOICE => 14,
            PokemonName::MIMIKYU => 15,
            PokemonName::MIMIKYUTOTEM => 16,
            PokemonName::MIMIKYUBUSTED => 17,
        }
    }
}

/// The part of a pokemon that the ability rules read and write.
#[derive(Debug, PartialEq, Eq, Clone, Copy, Structural)]
pub struct Pokemon {
    pub id: PokemonName,
    pub hp: i16,
    pub maxhp: i16,
    pub ability: Abilities,
    pub base_ability: Abilities,
    pub item: Items,
    pub status: PokemonStatus,
    pub terastallized: bool,
    /// Its two types (the second is typeless for a single-typed pokemon).
    pub type1: PokemonType,
    pub type2: PokemonType,
    /// Whether intrepid sword has boosted it already.
    pub sword_boost_used: bool,
    /// Whether dauntless shield has boosted it already.
    pub shield_boost_used: bool,
}

/// Layers of hazards and other conditions on a side.
#[derive(Debug, PartialEq, Eq, Clone, Copy, Structural)]
pub struct SideConditions {
    pub toxic_spikes: i8,
    pub reflect: i8,
    pub light_screen: i8,
    pub aurora_veil: i8,
}

/// The weather and how many turns it has left (-1: until it is replaced).
#[derive(Debug, PartialEq, Eq, Clone, Copy, Structural)]
pub struct StateWeather {
    pub weather_type: Weather,
    pub turns_remaining: i8,
}

/// The terrain and how many turns it has left.
#[derive(Debug, PartialEq, Eq, Clone, Copy, Structural)]
pub struct StateTerrain {
    pub terrain_type: Terrain,
    pub turns_remaining: i8,
}

/// A battle: its two sides and the field.
#[derive(Debug, Clone)]
pub struct State {
    pub side_one: Side,
    pub side_two: Side,
    pub weather: StateWeather,
    pub terrain: StateTerrain,
}

impl State {
    /// Both sides are well formed.
    pub open spec fn wf(&self) -> bool {
        self.side_one.wf() && self.side_two.wf()
    }

    /// The side a reference names.
    pub open spec fn side(&self, side_ref: SideReference) -> Side {
        match side_ref {
            SideReference::SideOne => self.side_one,
            SideReference::SideTwo => self.side_two,
        }
    }
}

/// One side of a battle: its party of six, which of them is active, the active
/// pokemon's volatile statuses (a set: no status occurs twice), the side's
/// conditions and its speed boost.
#[derive(Debug, Clone)]
pub struct Side {
    pub active_index: PokemonIndex,
    pub pokemon: Vec<Pokemon>,
    pub volatile_statuses: Vec<PokemonVolatileStatus>,
    pub side_conditions: SideConditions,
    pub speed_boost: i8,
}

impl Side {
    /// A side holds six pokemon and no volatile status twice.
    pub open spec fn wf(&self) -> bool {
        &&& self.pokemon@.len() == 6
        &&& self.volatile_statuses@.no_duplicates()
    }

    /// The active pokemon.
    pub open spec fn active(&self) -> Pokemon {
        self.pokemon@[self.active_index.spec_position()]
    }

    /// The volatile statuses as a set.
    pub open spec fn volatiles(&self) -> Set<PokemonVolatileStatus> {
        self.volatile_statuses@.to_set()
    }

    /// The active pokemon.
    pub fn get_active_immutable(&self) -> (r: &Pokemon)
        requires
            self.wf(),
        ensures
            *r == self.active(),
    {
        &self.pokemon[self.active_index.position()]
    }

    /// Whether the side has the given volatile status.
    pub fn has_volatile(&self, status: PokemonVolatileStatus) -> (r: bool)
        ensures
            r == self.volatiles().contains(status),
    {
        let mut i: usize = 0;
        while i < self.volatile_statuses.len()
            invariant
                0 <= i <= self.volatile_statuses@.len(),
                forall|j: int| 0 <= j < i ==> self.volatile_statuses@[j] != status,
            decreases self.volatile_statuses@.len() - i,
        {
            if self.volatile_statuses[i] == status {
                assert(self.volatile_statuses@.contains(status));
                return true;
            }
            i = i + 1;
        }
        false
    }

    /// Adds a volatile status to the set; a status already there stays once.
    pub fn add_volatile(&mut self, status: PokemonVolatileStatus)
        requires
            old(self).wf(),
        ensures
            final(self).wf(),
            final(self).volatiles() == old(self).volatiles().insert(status),
            final(self).pokemon == old(self).pokemon,
            final(self).active_index == old(self).active_index,
            final(self).side_conditions == old(self).side_conditions,
            final(self).speed_boost == old(self).speed_boost,
    {
        if !self.has_volatile(status) {
            let ghost before = self.volatile_statuses@;
            self.volatile_statuses.push(status);
            proof {
                assert(self.volatile_statuses@ == before.push(status));
                assert(self.volatile_statuses@.to_set() =~= before.to_set().insert(status)) by {
                    assert forall|v| self.volatile_statuses@.to_set().contains(v)
                        <==> before.to_set().insert(status).contains(v) by {
                        if v != status && self.volatile_statuses@.contains(v) {
                            let k = choose|k: int| 0 <= k < self.volatile_statuses@.len()
                                && self.volatile_statuses@[k] == v;
                            assert(before[k] == v);
                        }
                        if before.contains(v) {
                            let k = choose|k: int| 0 <= k < before.len() && before[k] == v;
                            assert(self.volatile_statuses@[k] == v);
                        }
                        if v == status {
                            assert(self.volatile_statuses@[before.len() as int] == v);
                        }
                    }
                }
            }
        } else {
            assert(self.volatiles().insert(status) =~= self.volatiles());
        }
    }

    /// Replaces the active pokemon.
    pub fn set_active(&mut self, pkmn: Pokemon)
        requires
            old(self).wf(),
        ensures
            final(self).wf(),
            final(self).pokemon@ == old(self).pokemon@.update(
                old(self).active_index.spec_position(),
                pkmn,
            ),
            final(self).active() == pkmn,
            final(self).volatile_statuses == old(self).volatile_statuses,
            final(self).active_index == old(self).active_index,
            final(self).side_conditions == old(self).side_conditions,
            final(self).speed_boost == old(self).speed_boost,
    {
        let i = self.active_index.position();
        self.pokemon.set(i, pkmn);
    }

    /// Replaces the active pokemon's item.
    pub fn set_active_item(&mut self, item: Items)
        requires
            old(self).wf(),
        ensures
            final(self).wf(),
            final(self).pokemon@ == old(self).pokemon@.update(
                old(self).active_index.spec_position(),
                Pokemon { item: item, ..old(self).active() },
            ),
            final(self).volatile_statuses == old(self).volatile_statuses,
            final(self).active_index == old(self).active_index,
            final(self).side_conditions == old(self).side_conditions,
            final(self).speed_boost == old(self).speed_boost,
    {
        let i = self.active_index.position();
        let mut pkmn = self.pokemon[i];
        pkmn.item = item;
        self.pokemon.set(i, pkmn);
    }
}

} // verus!
