//! What abilities do as their holder takes the field: trace, the forme and
//! boost abilities, slow start, protosynthesis and quark drive, the weather
//! and terrain setters, intimidate and screen cleaner.

use vstd::prelude::*;
use crate::abilities::{
    ability_fails_trace, ability_number, apply_volatile, forme_change, is_battle_stat,
    is_refused_by_trace, protosynthesis_volatile, protosynthesis_volatile_from_side,
    protosynthesus_or_quarkdrive_on_switch_in, quarkdrive_volatile, quarkdrive_volatile_from_side,
    Abilities,
};
use crate::after_hit::{change_ability, change_item, recorded_speed_change, speed_change};
use crate::instruction::{
    ChangeAbilityInstruction, ChangeItemInstruction, ChangeSideConditionInstruction,
    ChangeTerrain, ChangeVolatileStatusDurationInstruction, ChangeWeather,
    FormeChangeInstruction, Instruction, ToggleAbilityOnStartFlagInstruction,
};
use crate::state::{
    Items, Pokemon, PokemonBoostableStat, PokemonIndex, PokemonName, PokemonSideCondition,
    PokemonVolatileStatus, Side, SideConditions, SideReference, State, StateTerrain,
    StateWeather, Terrain, Weather,
};

verus! {

/// What the rest of an engine knows as a pokemon takes the field: whether its
/// ability is suppressed, its item active and its ability replaceable; the
/// opposing pokemon's acting ability and whether its item is active; whether an
/// ability suppresses the weather; whether electric terrain is up; whether the
/// weather or terrain that the ability sets would be set; the holder's highest
/// stat; whether intimidate's attack drop and the adrenaline orb's speed boost
/// took effect; and the turns of slow start already counted.
#[derive(Debug, PartialEq, Eq, Clone, Copy, Structural)]
pub struct StartFacts {
    pub active_ability_is_suppressed: bool,
    pub active_item_is_active: bool,
    pub active_ability_can_be_changed: bool,
    pub defender_ability: Abilities,
    pub defender_item_is_active: bool,
    pub weather_is_suppressed: bool,
    pub electric_terrain_is_active: bool,
    pub field_should_be_set: bool,
    pub highest_stat: PokemonBoostableStat,
    pub attack_drop_applied: bool,
    pub orb_boost_applied: bool,
    pub slowstart_turns: i8,
}

/// Trace copies the opposing pokemon's ability: the holder's ability acts, is
/// trace, differs from the opposing one, can be replaced, and trace may copy
/// the opposing one.
pub open spec fn trace_copies(p: Pokemon, d: Pokemon, facts: StartFacts) -> bool {
    &&& !facts.active_ability_is_suppressed
    &&& p.ability == Abilities::TRACE
    &&& p.ability != d.ability
    &&& facts.active_ability_can_be_changed
    &&& !is_refused_by_trace(d.ability)
}

/// The holder after trace, and the instructions of trace.
pub open spec fn traced(p: Pokemon, d: Pokemon, side_ref: SideReference, facts: StartFacts) -> (
    Pokemon,
    Seq<Instruction>,
) {
    if trace_copies(p, d, facts) {
        (Pokemon { ability: d.ability, ..p }, seq![change_ability(side_ref, p.ability, d.ability)])
    } else {
        (p, Seq::empty())
    }
}

/// The weather an ability sets, and for how many turns.
pub open spec fn weather_set_by(ability: Abilities) -> Option<(Weather, i8)> {
    if ability == Abilities::DROUGHT || ability == Abilities::ORICHALCUMPULSE {
        Some((Weather::SUN, 5i8))
    } else if ability == Abilities::DESOLATELAND {
        Some((Weather::HARSHSUN, -1i8))
    } else if ability == Abilities::SANDSTREAM {
        Some((Weather::SAND, 5i8))
    } else if ability == Abilities::SNOWWARNING {
        Some((Weather::SNOW, 5i8))
    } else if ability == Abilities::PRIMORDIALSEA {
        Some((Weather::HEAVYRAIN, -1i8))
    } else if ability == Abilities::DRIZZLE {
        Some((Weather::RAIN, 5i8))
    } else {
        None
    }
}

/// The terrain an ability sets (for five turns).
pub open spec fn terrain_set_by(ability: Abilities) -> Option<Terrain> {
    if ability == Abilities::MISTYSURGE {
        Some(Terrain::MISTYTERRAIN)
    } else if ability == Abilities::GRASSYSURGE {
        Some(Terrain::GRASSYTERRAIN)
    } else if ability == Abilities::ELECTRICSURGE || ability == Abilities::HADRONENGINE {
        Some(Terrain::ELECTRICTERRAIN)
    } else if ability == Abilities::PSYCHICSURGE {
        Some(Terrain::PSYCHICTERRAIN)
    } else {
        None
    }
}

/// The weather and terrain setters: the weather and terrain afterwards, and the
/// instructions recording the change.
#[verifier::opaque]
pub open spec fn field_part(
    ability: Abilities,
    should_be_set: bool,
    weather: StateWeather,
    terrain: StateTerrain,
) -> (StateWeather, StateTerrain, Seq<Instruction>) {
    if weather_set_by(ability) is Some && should_be_set {
        let (w, turns) = weather_set_by(ability)->0;
        (
            StateWeather { weather_type: w, turns_remaining: turns },
            terrain,
            seq![
                Instruction::ChangeWeather(
                    ChangeWeather {
                        new_weather: w,
                        new_weather_turns_remaining: turns,
                        previous_weather: weather.weather_type,
                        previous_weather_turns_remaining: weather.turns_remaining,
                    },
                ),
            ],
        )
    } else if terrain_set_by(ability) is Some && should_be_set {
        let t = terrain_set_by(ability)->0;
        (
            weather,
            StateTerrain { terrain_type: t, turns_remaining: 5 },
            seq![
                Instruction::ChangeTerrain(
                    ChangeTerrain {
                        new_terrain: t,
                        new_terrain_turns_remaining: 5,
                        previous_terrain: terrain.terrain_type,
                        previous_terrain_turns_remaining: terrain.turns_remaining,
                    },
                ),
            ],
        )
    } else {
        (weather, terrain, Seq::empty())
    }
}

/// The abilities that boost their holder as it takes the field (the
/// instructions of the boost are given).
pub open spec fn boosts_on_start(ability: Abilities) -> bool {
    ||| ability == Abilities::EMBODYASPECTTEAL
    ||| ability == Abilities::EMBODYASPECTWELLSPRING
    ||| ability == Abilities::EMBODYASPECTCORNERSTONE
    ||| ability == Abilities::EMBODYASPECTHEARTHFLAME
    ||| ability == Abilities::DOWNLOAD
}

/// The abilities handled by `holder_part`.
pub open spec fn acts_on_holder(ability: Abilities) -> bool {
    ||| ability == Abilities::ICEFACE
    ||| ability == Abilities::INTREPIDSWORD
    ||| ability == Abilities::DAUNTLESSSHIELD
    ||| boosts_on_start(ability)
}

/// The holder's own forme and boosts: ice face regains its ice in hail or snow
/// (with the stat changes of the forme, given), intrepid sword and dauntless
/// shield boost once per battle, marking it, and the aspect abilities and
/// download boost (the boosts' instructions given).
#[verifier::opaque]
pub open spec fn holder_part(
    p: Pokemon,
    side_ref: SideReference,
    active_index: PokemonIndex,
    ability: Abilities,
    hail_or_snow: bool,
    boosts: Seq<Instruction>,
    forme_stat_changes: Seq<Instruction>,
) -> (Pokemon, Seq<Instruction>) {
    if ability == Abilities::ICEFACE {
        if p.id == PokemonName::EISCUENOICE && hail_or_snow {
            (
                Pokemon { id: PokemonName::EISCUE, ..p },
                seq![forme_change(side_ref, p.id, PokemonName::EISCUE)] + forme_stat_changes,
            )
        } else {
            (p, Seq::empty())
        }
    } else if ability == Abilities::INTREPIDSWORD {
        if !p.sword_boost_used {
            (
                Pokemon { sword_boost_used: true, ..p },
                seq![
                    Instruction::ToggleSwordBoostUsed(
                        ToggleAbilityOnStartFlagInstruction {
                            side_ref: side_ref,
                            pokemon_index: active_index,
                        },
                    ),
                ] + boosts,
            )
        } else {
            (p, Seq::empty())
        }
    } else if ability == Abilities::DAUNTLESSSHIELD {
        if !p.shield_boost_used {
            (
                Pokemon { shield_boost_used: true, ..p },
                seq![
                    Instruction::ToggleShieldBoostUsed(
                        ToggleAbilityOnStartFlagInstruction {
                            side_ref: side_ref,
                            pokemon_index: active_index,
                        },
                    ),
                ] + boosts,
            )
        } else {
            (p, Seq::empty())
        }
    } else if boosts_on_start(ability) {
        (p, boosts)
    } else {
        (p, Seq::empty())
    }
}

/// Protosynthesis or quark drive: when its weather or terrain is up, the
/// volatile status of the highest stat (once); otherwise an active booster
/// energy is used up for it and for the booster status. The holder, its side's
/// volatile statuses and the instructions afterwards.
#[verifier::opaque]
pub open spec fn paradox_part(
    p: Pokemon,
    volatiles: Set<PokemonVolatileStatus>,
    side_ref: SideReference,
    thing_is_active: bool,
    item_is_active: bool,
    volatile: PokemonVolatileStatus,
    booster: PokemonVolatileStatus,
) -> (Pokemon, Set<PokemonVolatileStatus>, Seq<Instruction>) {
    if thing_is_active {
        if volatiles.contains(volatile) {
            (p, volatiles, Seq::empty())
        } else {
            (p, volatiles.insert(volatile), seq![apply_volatile(side_ref, volatile)])
        }
    } else if item_is_active && p.item == Items::BOOSTERENERGY {
        (
            Pokemon { item: Items::NONE, ..p },
            volatiles.insert(volatile).insert(booster),
            seq![
                change_item(side_ref, Items::BOOSTERENERGY, Items::NONE),
                apply_volatile(side_ref, volatile),
                apply_volatile(side_ref, booster),
            ],
        )
    } else {
        (p, volatiles, Seq::empty())
    }
}

/// Intimidate is shrugged off: the opposing pokemon has own tempo, oblivious,
/// inner focus or scrappy, or hides behind a substitute.
pub open spec fn intimidate_blocked(facts: StartFacts, defender_has_substitute: bool) -> bool {
    ||| facts.defender_ability == Abilities::OWNTEMPO
    ||| facts.defender_ability == Abilities::OBLIVIOUS
    ||| facts.defender_ability == Abilities::INNERFOCUS
    ||| facts.defender_ability == Abilities::SCRAPPY
    ||| defender_has_substitute
}

/// Intimidate: the opposing pokemon's attack drop (instructions given); when it
/// took effect and the opposing pokemon holds an active adrenaline orb, the
/// orb's speed boost (given), and when that took effect the orb is used up.
#[verifier::opaque]
pub open spec fn intimidate_part(
    d: Pokemon,
    defender_has_substitute: bool,
    side_ref: SideReference,
    facts: StartFacts,
    drop: Seq<Instruction>,
    orb: Seq<Instruction>,
) -> (Pokemon, Seq<Instruction>) {
    if intimidate_blocked(facts, defender_has_substitute) {
        (d, Seq::empty())
    } else if !facts.attack_drop_applied || !(d.item == Items::ADRENALINEORB
        && facts.defender_item_is_active) {
        (d, drop)
    } else if !facts.orb_boost_applied {
        (d, drop + orb)
    } else {
        (
            Pokemon { item: Items::NONE, ..d },
            drop + orb + seq![change_item(side_ref.other(), Items::ADRENALINEORB, Items::NONE)],
        )
    }
}

/// The instruction clearing a screen from a side, where it is up.
pub open spec fn clear_screen(side_ref: SideReference, condition: PokemonSideCondition, amount: i8) -> Seq<
    Instruction,
> {
    if amount > 0 {
        seq![
            Instruction::ChangeSideCondition(
                ChangeSideConditionInstruction {
                    side_ref: side_ref,
                    side_condition: condition,
                    amount: (-1 * amount) as i8,
                },
            ),
        ]
    } else {
        Seq::empty()
    }
}

/// A screen's layers after screen cleaner.
pub open spec fn cleared(amount: i8) -> i8 {
    if amount > 0 {
        0
    } else {
        amount
    }
}

/// A side's conditions after screen cleaner.
pub open spec fn cleaned(c: SideConditions) -> SideConditions {
    SideConditions {
        reflect: cleared(c.reflect),
        light_screen: cleared(c.light_screen),
        aurora_veil: cleared(c.aurora_veil),
        ..c
    }
}

/// Screen cleaner's instructions: reflect, light screen and aurora veil, each
/// on side one and then side two.
pub open spec fn screen_cleaner_instructions(one: SideConditions, two: SideConditions) -> Seq<
    Instruction,
> {
    clear_screen(SideReference::SideOne, PokemonSideCondition::Reflect, one.reflect)
        + clear_screen(SideReference::SideTwo, PokemonSideCondition::Reflect, two.reflect)
        + clear_screen(SideReference::SideOne, PokemonSideCondition::LightScreen, one.light_screen)
        + clear_screen(SideReference::SideTwo, PokemonSideCondition::LightScreen, two.light_screen)
        + clear_screen(SideReference::SideOne, PokemonSideCondition::AuroraVeil, one.aurora_veil)
        + clear_screen(SideReference::SideTwo, PokemonSideCondition::AuroraVeil, two.aurora_veil)
}

/// The ability that acts once trace has done its part.
pub open spec fn start_ability(p1: Pokemon, facts: StartFacts) -> Abilities {
    if facts.active_ability_is_suppressed {
        Abilities::NONE
    } else {
        p1.ability
    }
}

/// The side one and side two of a pair of sides.
pub open spec fn side_one_of(attacking: Side, defending: Side, side_ref: SideReference) -> Side {
    match side_ref {
        SideReference::SideOne => attacking,
        SideReference::SideTwo => defending,
    }
}

/// The duration instruction of slow start: it counts from six again.
pub open spec fn slow_start_duration(side_ref: SideReference, turns: i8) -> Instruction {
    Instruction::ChangeVolatileStatusDuration(
        ChangeVolatileStatusDurationInstruction {
            side_ref: side_ref,
            volatile_status: PokemonVolatileStatus::SLOWSTART,
            amount: (6 - turns) as i8,
        },
    )
}

/// What the acting ability does once trace has done its part, with `p1` the
/// holder after trace: the holder, its side's volatile statuses, the opposing
/// pokemon, the weather, the terrain, and the instructions.
pub open spec fn start_body(
    attacking: Side,
    defending: Side,
    p1: Pokemon,
    weather: StateWeather,
    terrain: StateTerrain,
    side_ref: SideReference,
    ability: Abilities,
    facts: StartFacts,
    boosts: Seq<Instruction>,
    orb: Seq<Instruction>,
    forme_stat_changes: Seq<Instruction>,
) -> (Pokemon, Set<PokemonVolatileStatus>, Pokemon, StateWeather, StateTerrain, Seq<Instruction>) {
    let d = defending.active();
    let vols = attacking.volatiles();
    let hail_or_snow = !facts.weather_is_suppressed && (weather.weather_type == Weather::HAIL
        || weather.weather_type == Weather::SNOW);
    let sun = !facts.weather_is_suppressed && weather.weather_type == Weather::SUN;
    if acts_on_holder(ability) {
        let h = holder_part(
            p1,
            side_ref,
            attacking.active_index,
            ability,
            hail_or_snow,
            boosts,
            forme_stat_changes,
        );
        (h.0, vols, d, weather, terrain, h.1)
    } else if ability == Abilities::SLOWSTART {
        (
            p1,
            vols.insert(PokemonVolatileStatus::SLOWSTART),
            d,
            weather,
            terrain,
            seq![
                apply_volatile(side_ref, PokemonVolatileStatus::SLOWSTART),
                slow_start_duration(side_ref, facts.slowstart_turns),
            ],
        )
    } else if ability == Abilities::PROTOSYNTHESIS {
        let x = paradox_part(
            p1,
            vols,
            side_ref,
            sun,
            facts.active_item_is_active,
            protosynthesis_volatile(facts.highest_stat),
            PokemonVolatileStatus::PROTOSYNTHESISBOOSTER,
        );
        (x.0, x.1, d, weather, terrain, x.2)
    } else if ability == Abilities::QUARKDRIVE {
        let x = paradox_part(
            p1,
            vols,
            side_ref,
            facts.electric_terrain_is_active,
            facts.active_item_is_active,
            quarkdrive_volatile(facts.highest_stat),
            PokemonVolatileStatus::QUARKDRIVEBOOSTER,
        );
        (x.0, x.1, d, weather, terrain, x.2)
    } else if ability == Abilities::INTIMIDATE {
        let i = intimidate_part(
            d,
            defending.volatiles().contains(PokemonVolatileStatus::SUBSTITUTE),
            side_ref,
            facts,
            boosts,
            orb,
        );
        (p1, vols, i.0, weather, terrain, i.1)
    } else if ability == Abilities::SCREENCLEANER {
        (
            p1,
            vols,
            d,
            weather,
            terrain,
            screen_cleaner_instructions(
                side_one_of(attacking, defending, side_ref).side_conditions,
                side_one_of(defending, attacking, side_ref).side_conditions,
            ),
        )
    } else {
        let f = field_part(ability, facts.field_should_be_set, weather, terrain);
        (p1, vols, d, f.0, f.1, f.2)
    }
}

/// The holder's own forme and boosts, applied to the holder.
fn holder_exec(
    p: Pokemon,
    side_ref: SideReference,
    active_index: PokemonIndex,
    ability: Abilities,
    hail_or_snow: bool,
    boosts: Vec<Instruction>,
    forme_stat_changes: Vec<Instruction>,
    instructions: &mut Vec<Instruction>,
) -> (r: Pokemon)
    ensures
        r == holder_part(
            p,
            side_ref,
            active_index,
            ability,
            hail_or_snow,
            boosts@,
            forme_stat_changes@,
        ).0,
        final(instructions)@ == old(instructions)@ + holder_part(
            p,
            side_ref,
            active_index,
            ability,
            hail_or_snow,
            boosts@,
            forme_stat_changes@,
        ).1,
{
    proof {
        reveal(holder_part);
    }
    let ghost start = instructions@;
    let ghost e = holder_part(
        p,
        side_ref,
        active_index,
        ability,
        hail_or_snow,
        boosts@,
        forme_stat_changes@,
    );
    let mut boosts = boosts;
    let mut forme_stat_changes = forme_stat_changes;
    let mut np = p;
    if ability == Abilities::ICEFACE {
        if p.id == PokemonName::EISCUENOICE && hail_or_snow {
            instructions.push(
                Instruction::FormeChange(
                    FormeChangeInstruction {
                        side_ref,
                        name_change: PokemonName::EISCUE.number() - p.id.number(),
                    },
                ),
            );
            instructions.append(&mut forme_stat_changes);
            np.id = PokemonName::EISCUE;
        }
    } else if ability == Abilities::INTREPIDSWORD {
        if !p.sword_boost_used {
            instructions.push(
                Instruction::ToggleSwordBoostUsed(
                    ToggleAbilityOnStartFlagInstruction { side_ref, pokemon_index: active_index },
                ),
            );
            instructions.append(&mut boosts);
            np.sword_boost_used = true;
        }
    } else if ability == Abilities::DAUNTLESSSHIELD {
        if !p.shield_boost_used {
            instructions.push(
                Instruction::ToggleShieldBoostUsed(
                    ToggleAbilityOnStartFlagInstruction { side_ref, pokemon_index: active_index },
                ),
            );
            instructions.append(&mut boosts);
            np.shield_boost_used = true;
        }
    } else if ability == Abilities::EMBODYASPECTTEAL || ability
        == Abilities::EMBODYASPECTWELLSPRING || ability == Abilities::EMBODYASPECTCORNERSTONE
        || ability == Abilities::EMBODYASPECTHEARTHFLAME || ability == Abilities::DOWNLOAD {
        instructions.append(&mut boosts);
    }
    assert(instructions@ =~= start + e.1);
    np
}

/// Records the setting of a weather.
fn push_weather(w: Weather, turns: i8, weather: StateWeather, instructions: &mut Vec<Instruction>)
    ensures
        final(instructions)@ == old(instructions)@.push(
            Instruction::ChangeWeather(
                ChangeWeather {
                    new_weather: w,
                    new_weather_turns_remaining: turns,
                    previous_weather: weather.weather_type,
                    previous_weather_turns_remaining: weather.turns_remaining,
                },
            ),
        ),
{
    instructions.push(
        Instruction::ChangeWeather(
            ChangeWeather {
                new_weather: w,
                new_weather_turns_remaining: turns,
                previous_weather: weather.weather_type,
                previous_weather_turns_remaining: weather.turns_remaining,
            },
        ),
    );
}

/// The weather or terrain an ability sets, applied.
fn field_exec(
    ability: Abilities,
    should_be_set: bool,
    weather: StateWeather,
    terrain: StateTerrain,
    instructions: &mut Vec<Instruction>,
) -> (r: (StateWeather, StateTerrain))
    ensures
        r.0 == field_part(ability, should_be_set, weather, terrain).0,
        r.1 == field_part(ability, should_be_set, weather, terrain).1,
        final(instructions)@ == old(instructions)@ + field_part(
            ability,
            should_be_set,
            weather,
            terrain,
        ).2,
{
    proof {
        reveal(field_part);
    }
    let ghost start = instructions@;
    let set_weather: Option<(Weather, i8)> = if ability == Abilities::DROUGHT || ability
        == Abilities::ORICHALCUMPULSE {
        Some((Weather::SUN, 5))
    } else if ability == Abilities::DESOLATELAND {
        Some((Weather::HARSHSUN, -1))
    } else if ability == Abilities::SANDSTREAM {
        Some((Weather::SAND, 5))
    } else if ability == Abilities::SNOWWARNING {
        Some((Weather::SNOW, 5))
    } else if ability == Abilities::PRIMORDIALSEA {
        Some((Weather::HEAVYRAIN, -1))
    } else if ability == Abilities::DRIZZLE {
        Some((Weather::RAIN, 5))
    } else {
        None
    };
    let set_terrain: Option<Terrain> = if ability == Abilities::MISTYSURGE {
        Some(Terrain::MISTYTERRAIN)
    } else if ability == Abilities::GRASSYSURGE {
        Some(Terrain::GRASSYTERRAIN)
    } else if ability == Abilities::ELECTRICSURGE || ability == Abilities::HADRONENGINE {
        Some(Terrain::ELECTRICTERRAIN)
    } else if ability == Abilities::PSYCHICSURGE {
        Some(Terrain::PSYCHICTERRAIN)
    } else {
        None
    };
    assert(set_weather == weather_set_by(ability));
    assert(set_terrain == terrain_set_by(ability));
    match set_weather {
        Some((w, turns)) => {
            if should_be_set {
                push_weather(w, turns, weather, instructions);
                assert(instructions@ =~= start + field_part(ability, should_be_set, weather, terrain).2);
                return (StateWeather { weather_type: w, turns_remaining: turns }, terrain);
            }
        },
        None => {},
    }
    match set_terrain {
        Some(t) => {
            if should_be_set {
                instructions.push(
                    Instruction::ChangeTerrain(
                        ChangeTerrain {
                            new_terrain: t,
                            new_terrain_turns_remaining: 5,
                            previous_terrain: terrain.terrain_type,
                            previous_terrain_turns_remaining: terrain.turns_remaining,
                        },
                    ),
                );
                assert(instructions@ =~= start + field_part(ability, should_be_set, weather, terrain).2);
                return (weather, StateTerrain { terrain_type: t, turns_remaining: 5 });
            }
        },
        None => {},
    }
    assert(instructions@ =~= start + field_part(ability, should_be_set, weather, terrain).2);
    (weather, terrain)
}

/// Intimidate, applied to the opposing pokemon.
fn intimidate_exec(
    d: Pokemon,
    defender_has_substitute: bool,
    side_ref: SideReference,
    facts: StartFacts,
    drop: Vec<Instruction>,
    orb: Vec<Instruction>,
    instructions: &mut Vec<Instruction>,
) -> (r: Pokemon)
    ensures
        r == intimidate_part(d, defender_has_substitute, side_ref, facts, drop@, orb@).0,
        final(instructions)@ == old(instructions)@ + intimidate_part(
            d,
            defender_has_substitute,
            side_ref,
            facts,
            drop@,
            orb@,
        ).1,
{
    proof {
        reveal(intimidate_part);
    }
    let ghost start = instructions@;
    let ghost e = intimidate_part(d, defender_has_substitute, side_ref, facts, drop@, orb@);
    let mut drop = drop;
    let mut orb = orb;
    let ability = facts.defender_ability;
    if ability == Abilities::OWNTEMPO || ability == Abilities::OBLIVIOUS || ability
        == Abilities::INNERFOCUS || ability == Abilities::SCRAPPY || defender_has_substitute {
        assert(instructions@ =~= start + e.1);
        return d;
    }
    instructions.append(&mut drop);
    if facts.attack_drop_applied && d.item == Items::ADRENALINEORB && facts.defender_item_is_active {
        instructions.append(&mut orb);
        if facts.orb_boost_applied {
            instructions.push(
                Instruction::ChangeItem(
                    ChangeItemInstruction {
                        side_ref: side_ref.get_other_side(),
                        current_item: Items::ADRENALINEORB,
                        new_item: Items::NONE,
                    },
                ),
            );
            let mut nd = d;
            nd.item = Items::NONE;
            assert(instructions@ =~= start + e.1);
            return nd;
        }
    }
    assert(instructions@ =~= start + e.1);
    d
}

/// Records the clearing of a screen from a side, where it is up.
fn push_clear(
    side_ref: SideReference,
    condition: PokemonSideCondition,
    amount: i8,
    instructions: &mut Vec<Instruction>,
) -> (r: i8)
    ensures
        r == cleared(amount),
        final(instructions)@ == old(instructions)@ + clear_screen(side_ref, condition, amount),
{
    if amount > 0 {
        instructions.push(
            Instruction::ChangeSideCondition(
                ChangeSideConditionInstruction {
                    side_ref,
                    side_condition: condition,
                    amount: -1 * amount,
                },
            ),
        );
        assert(instructions@ =~= old(instructions)@ + clear_screen(side_ref, condition, amount));
        0
    } else {
        assert(instructions@ =~= old(instructions)@ + clear_screen(side_ref, condition, amount));
        amount
    }
}

/// Screen cleaner, applied to the conditions of side one and side two.
fn screen_cleaner_exec(
    one: SideConditions,
    two: SideConditions,
    instructions: &mut Vec<Instruction>,
) -> (r: (SideConditions, SideConditions))
    ensures
        r.0 == cleaned(one),
        r.1 == cleaned(two),
        final(instructions)@ == old(instructions)@ + screen_cleaner_instructions(one, two),
{
    let ghost start = instructions@;
    let mut a = one;
    let mut b = two;
    a.reflect = push_clear(SideReference::SideOne, PokemonSideCondition::Reflect, one.reflect, instructions);
    b.reflect = push_clear(SideReference::SideTwo, PokemonSideCondition::Reflect, two.reflect, instructions);
    a.light_screen = push_clear(
        SideReference::SideOne,
        PokemonSideCondition::LightScreen,
        one.light_screen,
        instructions,
    );
    b.light_screen = push_clear(
        SideReference::SideTwo,
        PokemonSideCondition::LightScreen,
        two.light_screen,
        instructions,
    );
    a.aurora_veil = push_clear(
        SideReference::SideOne,
        PokemonSideCondition::AuroraVeil,
        one.aurora_veil,
        instructions,
    );
    b.aurora_veil = push_clear(
        SideReference::SideTwo,
        PokemonSideCondition::AuroraVeil,
        two.aurora_veil,
        instructions,
    );
    assert(instructions@ =~= start + screen_cleaner_instructions(one, two));
    (a, b)
}

/// Protosynthesis or quark drive, applied to the holder's side.
fn paradox_exec(
    side: &mut Side,
    side_ref: SideReference,
    thing_is_active: bool,
    item_is_active: bool,
    volatile: PokemonVolatileStatus,
    booster: PokemonVolatileStatus,
    instructions: &mut Vec<Instruction>,
)
    requires
        old(side).wf(),
    ensures
        ({
            let x = paradox_part(
                old(side).active(),
                old(side).volatiles(),
                side_ref,
                thing_is_active,
                item_is_active,
                volatile,
                booster,
            );
            &&& final(side).wf()
            &&& final(side).pokemon@ == old(side).pokemon@.update(
                old(side).active_index.spec_position(),
                x.0,
            )
            &&& final(side).volatiles() == x.1
            &&& final(instructions)@ == old(instructions)@ + x.2
            &&& final(side).active_index == old(side).active_index
            &&& final(side).side_conditions == old(side).side_conditions
            &&& final(side).speed_boost == old(side).speed_boost
        }),
{
    proof {
        reveal(paradox_part);
    }
    let ghost start = instructions@;
    let ghost s0 = *side;
    let p = *side.get_active_immutable();
    protosynthesus_or_quarkdrive_on_switch_in(
        thing_is_active,
        item_is_active,
        volatile,
        booster,
        instructions,
        side,
        &side_ref,
    );
    proof {
        if thing_is_active && !s0.volatiles().contains(volatile) {
            assert(instructions@ =~= start + seq![apply_volatile(side_ref, volatile)]);
        } else if thing_is_active {
            assert(instructions@ =~= start + Seq::<Instruction>::empty());
        } else if item_is_active && p.item == Items::BOOSTERENERGY {
            assert(instructions@ =~= start + seq![
                change_item(side_ref, Items::BOOSTERENERGY, Items::NONE),
                apply_volatile(side_ref, volatile),
                apply_volatile(side_ref, booster),
            ]);
        } else {
            assert(instructions@ =~= start + Seq::<Instruction>::empty());
        }
        assert(side.pokemon@ =~= s0.pokemon@.update(s0.active_index.spec_position(), side.active()));
    }
}

/// What the acting ability does, applied to both sides and the field, with the
/// holder's trace already done.
#[verifier::rlimit(100)]
#[verifier::spinoff_prover]
fn start_dispatch(
    attacking: &mut Side,
    defending: &mut Side,
    weather: &mut StateWeather,
    terrain: &mut StateTerrain,
    side_ref: SideReference,
    ability: Abilities,
    facts: StartFacts,
    boosts: Vec<Instruction>,
    orb: Vec<Instruction>,
    forme_stat_changes: Vec<Instruction>,
    instructions: &mut Vec<Instruction>,
)
    requires
        old(attacking).wf(),
        old(defending).wf(),
        ability == Abilities::PROTOSYNTHESIS || ability == Abilities::QUARKDRIVE ==> is_battle_stat(
            facts.highest_stat,
        ),
        ability == Abilities::SLOWSTART ==> 6 - facts.slowstart_turns <= i8::MAX,
    ensures
        ({
            let b = start_body(
                *old(attacking),
                *old(defending),
                old(attacking).active(),
                *old(weather),
                *old(terrain),
                side_ref,
                ability,
                facts,
                boosts@,
                orb@,
                forme_stat_changes@,
            );
            &&& final(attacking).wf()
            &&& final(defending).wf()
            &&& final(attacking).pokemon@ == old(attacking).pokemon@.update(
                old(attacking).active_index.spec_position(),
                b.0,
            )
            &&& final(attacking).volatiles() == b.1
            &&& final(defending).pokemon@ == old(defending).pokemon@.update(
                old(defending).active_index.spec_position(),
                b.2,
            )
            &&& final(defending).volatile_statuses == old(defending).volatile_statuses
            &&& *final(weather) == b.3
            &&& *final(terrain) == b.4
            &&& final(instructions)@ == old(instructions)@ + b.5
            &&& final(attacking).active_index == old(attacking).active_index
            &&& final(defending).active_index == old(defending).active_index
            &&& final(attacking).speed_boost == old(attacking).speed_boost
            &&& final(defending).speed_boost == old(defending).speed_boost
            &&& ability == Abilities::SCREENCLEANER ==> final(attacking).side_conditions == cleaned(
                old(attacking).side_conditions,
            ) && final(defending).side_conditions == cleaned(old(defending).side_conditions)
            &&& ability != Abilities::SCREENCLEANER ==> final(attacking).side_conditions == old(
                attacking,
            ).side_conditions && final(defending).side_conditions == old(
                defending,
            ).side_conditions
        }),
{
    let ghost start = instructions@;
    let ghost att = *attacking;
    let ghost def = *defending;
    let p = *attacking.get_active_immutable();
    let d = *defending.get_active_immutable();
    let w = weather.weather_type;
    let hail_or_snow = !facts.weather_is_suppressed && (w == Weather::HAIL || w == Weather::SNOW);
    let sun = !facts.weather_is_suppressed && w == Weather::SUN;
    if ability == Abilities::ICEFACE || ability == Abilities::INTREPIDSWORD || ability
        == Abilities::DAUNTLESSSHIELD || ability == Abilities::EMBODYASPECTTEAL || ability
        == Abilities::EMBODYASPECTWELLSPRING || ability == Abilities::EMBODYASPECTCORNERSTONE
        || ability == Abilities::EMBODYASPECTHEARTHFLAME || ability == Abilities::DOWNLOAD {
        let np = holder_exec(
            p,
            side_ref,
            attacking.active_index,
            ability,
            hail_or_snow,
            boosts,
            forme_stat_changes,
            instructions,
        );
        attacking.set_active(np);
    } else if ability == Abilities::SLOWSTART {
        instructions.push(
            Instruction::ApplyVolatileStatus(
                crate::instruction::ApplyVolatileStatusInstruction {
                    side_ref,
                    volatile_status: PokemonVolatileStatus::SLOWSTART,
                },
            ),
        );
        instructions.push(
            Instruction::ChangeVolatileStatusDuration(
                ChangeVolatileStatusDurationInstruction {
                    side_ref,
                    volatile_status: PokemonVolatileStatus::SLOWSTART,
                    amount: 6 - facts.slowstart_turns,
                },
            ),
        );
        attacking.add_volatile(PokemonVolatileStatus::SLOWSTART);
        assert(instructions@ =~= start + seq![
            apply_volatile(side_ref, PokemonVolatileStatus::SLOWSTART),
            slow_start_duration(side_ref, facts.slowstart_turns),
        ]);
    } else if ability == Abilities::PROTOSYNTHESIS {
        let volatile = protosynthesis_volatile_from_side(facts.highest_stat);
        paradox_exec(
            attacking,
            side_ref,
            sun,
            facts.active_item_is_active,
            volatile,
            PokemonVolatileStatus::PROTOSYNTHESISBOOSTER,
            instructions,
        );
    } else if ability == Abilities::QUARKDRIVE {
        let volatile = quarkdrive_volatile_from_side(facts.highest_stat);
        paradox_exec(
            attacking,
            side_ref,
            facts.electric_terrain_is_active,
            facts.active_item_is_active,
            volatile,
            PokemonVolatileStatus::QUARKDRIVEBOOSTER,
            instructions,
        );
    } else if ability == Abilities::INTIMIDATE {
        let has_substitute = defending.has_volatile(PokemonVolatileStatus::SUBSTITUTE);
        let nd = intimidate_exec(d, has_substitute, side_ref, facts, boosts, orb, instructions);
        defending.set_active(nd);
    } else if ability == Abilities::SCREENCLEANER {
        match side_ref {
            SideReference::SideOne => {
                let (one, two) = screen_cleaner_exec(
                    attacking.side_conditions,
                    defending.side_conditions,
                    instructions,
                );
                attacking.side_conditions = one;
                defending.side_conditions = two;
            },
            SideReference::SideTwo => {
                let (one, two) = screen_cleaner_exec(
                    defending.side_conditions,
                    attacking.side_conditions,
                    instructions,
                );
                defending.side_conditions = one;
                attacking.side_conditions = two;
            },
        }
    } else {
        let (nw, nt) = field_exec(
            ability,
            facts.field_should_be_set,
            *weather,
            *terrain,
            instructions,
        );
        *weather = nw;
        *terrain = nt;
    }
    proof {
        assert(attacking.pokemon@ =~= att.pokemon@.update(
            att.active_index.spec_position(),
            attacking.active(),
        ));
        assert(defending.pokemon@ =~= def.pokemon@.update(
            def.active_index.spec_position(),
            defending.active(),
        ));
    }
}

/// The instructions a pokemon's start records: trace's, then the acting
/// ability's.
pub open spec fn start_records(
    att: Side,
    def: Side,
    weather: StateWeather,
    terrain: StateTerrain,
    side_ref: SideReference,
    facts: StartFacts,
    boosts: Seq<Instruction>,
    orb: Seq<Instruction>,
    forme_stat_changes: Seq<Instruction>,
) -> Seq<Instruction> {
    let tr = traced(att.active(), def.active(), side_ref, facts);
    let ability = start_ability(tr.0, facts);
    tr.1 + start_body(
        att,
        def,
        tr.0,
        weather,
        terrain,
        side_ref,
        ability,
        facts,
        boosts,
        orb,
        forme_stat_changes,
    ).5
}

/// What a pokemon's start asks of the state and the facts: a highest stat to
/// name for protosynthesis and quark drive, a slow start count whose restart
/// fits, and recorded speed changes that leave each side's speed boost within
/// its type.
pub open spec fn start_ready(
    att: Side,
    def: Side,
    weather: StateWeather,
    terrain: StateTerrain,
    side_ref: SideReference,
    facts: StartFacts,
    boosts: Seq<Instruction>,
    orb: Seq<Instruction>,
    forme_stat_changes: Seq<Instruction>,
) -> bool {
    let ability = start_ability(traced(att.active(), def.active(), side_ref, facts).0, facts);
    let records = start_records(
        att,
        def,
        weather,
        terrain,
        side_ref,
        facts,
        boosts,
        orb,
        forme_stat_changes,
    );
    &&& ability == Abilities::PROTOSYNTHESIS || ability == Abilities::QUARKDRIVE ==> is_battle_stat(
        facts.highest_stat,
    )
    &&& ability == Abilities::SLOWSTART ==> 6 - facts.slowstart_turns <= i8::MAX
    &&& i8::MIN <= att.speed_boost + speed_change(records, side_ref) <= i8::MAX
    &&& i8::MIN <= def.speed_boost + speed_change(records, side_ref.other()) <= i8::MAX
}

/// What a pokemon's start does, speed boosts aside, as a relation between the
/// sides, the field and the instructions before and after it.
pub open spec fn start_effect(
    att0: Side,
    def0: Side,
    weather0: StateWeather,
    terrain0: StateTerrain,
    instructions0: Seq<Instruction>,
    att1: Side,
    def1: Side,
    weather1: StateWeather,
    terrain1: StateTerrain,
    instructions1: Seq<Instruction>,
    side_ref: SideReference,
    facts: StartFacts,
    boosts: Seq<Instruction>,
    orb: Seq<Instruction>,
    forme_stat_changes: Seq<Instruction>,
) -> bool {
    let tr = traced(att0.active(), def0.active(), side_ref, facts);
    let ability = start_ability(tr.0, facts);
    let b = start_body(
        att0,
        def0,
        tr.0,
        weather0,
        terrain0,
        side_ref,
        ability,
        facts,
        boosts,
        orb,
        forme_stat_changes,
    );
    &&& att1.wf()
    &&& def1.wf()
    &&& att1.pokemon@ == att0.pokemon@.update(att0.active_index.spec_position(), b.0)
    &&& att1.volatiles() == b.1
    &&& def1.pokemon@ == def0.pokemon@.update(def0.active_index.spec_position(), b.2)
    &&& def1.volatile_statuses == def0.volatile_statuses
    &&& weather1 == b.3
    &&& terrain1 == b.4
    &&& instructions1 == instructions0 + tr.1 + b.5
    &&& att1.active_index == att0.active_index
    &&& def1.active_index == def0.active_index
    &&& ability == Abilities::SCREENCLEANER ==> att1.side_conditions == cleaned(
        att0.side_conditions,
    ) && def1.side_conditions == cleaned(def0.side_conditions)
    &&& ability != Abilities::SCREENCLEANER ==> att1.side_conditions == att0.side_conditions
        && def1.side_conditions == def0.side_conditions
}

/// What a pokemon's start does: its effect on everything but the speed boosts,
/// and each side's speed boost moved by the speed boosts it recorded.
pub open spec fn start_outcome(
    att0: Side,
    def0: Side,
    weather0: StateWeather,
    terrain0: StateTerrain,
    instructions0: Seq<Instruction>,
    att1: Side,
    def1: Side,
    weather1: StateWeather,
    terrain1: StateTerrain,
    instructions1: Seq<Instruction>,
    side_ref: SideReference,
    facts: StartFacts,
    boosts: Seq<Instruction>,
    orb: Seq<Instruction>,
    forme_stat_changes: Seq<Instruction>,
) -> bool {
    let recorded = instructions1.subrange(instructions0.len() as int, instructions1.len() as int);
    &&& start_effect(
        att0,
        def0,
        weather0,
        terrain0,
        instructions0,
        crate::after_hit::sans_speed(att1),
        crate::after_hit::sans_speed(def1),
        weather1,
        terrain1,
        instructions1,
        side_ref,
        facts,
        boosts,
        orb,
        forme_stat_changes,
    )
    &&& att1.speed_boost == att0.speed_boost + speed_change(recorded, side_ref)
    &&& def1.speed_boost == def0.speed_boost + speed_change(recorded, side_ref.other())
}

/// The acting ability's part reads of the holder's side only its conditions,
/// slot and volatile statuses.
proof fn lemma_start_body_reads(
    att: Side,
    att2: Side,
    def: Side,
    p1: Pokemon,
    weather: StateWeather,
    terrain: StateTerrain,
    side_ref: SideReference,
    ability: Abilities,
    facts: StartFacts,
    boosts: Seq<Instruction>,
    orb: Seq<Instruction>,
    forme_stat_changes: Seq<Instruction>,
)
    requires
        att2.side_conditions == att.side_conditions,
        att2.active_index == att.active_index,
        att2.volatile_statuses == att.volatile_statuses,
    ensures
        start_body(
            att2,
            def,
            p1,
            weather,
            terrain,
            side_ref,
            ability,
            facts,
            boosts,
            orb,
            forme_stat_changes,
        ) == start_body(
            att,
            def,
            p1,
            weather,
            terrain,
            side_ref,
            ability,
            facts,
            boosts,
            orb,
            forme_stat_changes,
        ),
{
}

/// A pokemon's start on both sides and the field, speed boosts aside.
fn start_core(
    attacking: &mut Side,
    defending: &mut Side,
    weather: &mut StateWeather,
    terrain: &mut StateTerrain,
    side_ref: SideReference,
    facts: StartFacts,
    boosts: Vec<Instruction>,
    orb: Vec<Instruction>,
    forme_stat_changes: Vec<Instruction>,
    instructions: &mut Vec<Instruction>,
)
    requires
        old(attacking).wf(),
        old(defending).wf(),
        ({
            let ability = start_ability(
                traced(old(attacking).active(), old(defending).active(), side_ref, facts).0,
                facts,
            );
            &&& ability == Abilities::PROTOSYNTHESIS || ability == Abilities::QUARKDRIVE
                ==> is_battle_stat(facts.highest_stat)
            &&& ability == Abilities::SLOWSTART ==> 6 - facts.slowstart_turns <= i8::MAX
        }),
    ensures
        final(attacking).speed_boost == old(attacking).speed_boost,
        final(defending).speed_boost == old(defending).speed_boost,
        start_effect(
            *old(attacking),
            *old(defending),
            *old(weather),
            *old(terrain),
            old(instructions)@,
            crate::after_hit::sans_speed(*final(attacking)),
            crate::after_hit::sans_speed(*final(defending)),
            *final(weather),
            *final(terrain),
            final(instructions)@,
            side_ref,
            facts,
            boosts@,
            orb@,
            forme_stat_changes@,
        ),
{
    let ghost start = instructions@;
    let ghost att0 = *attacking;
    let ghost def0 = *defending;
    let ghost w0 = *weather;
    let ghost t0 = *terrain;
    let ghost b0 = boosts@;
    let ghost o0 = orb@;
    let ghost f0 = forme_stat_changes@;
    let p = *attacking.get_active_immutable();
    let d = *defending.get_active_immutable();
    if !facts.active_ability_is_suppressed && p.ability == Abilities::TRACE && p.ability
        != d.ability && facts.active_ability_can_be_changed && !ability_fails_trace(d.ability) {
        instructions.push(
            Instruction::ChangeAbility(
                ChangeAbilityInstruction {
                    side_ref,
                    ability_change: ability_number(d.ability) - ability_number(p.ability),
                },
            ),
        );
        let mut np = p;
        np.ability = d.ability;
        attacking.set_active(np);
    }
    let ghost att_mid = *attacking;
    let ghost mid = instructions@;
    let p1 = *attacking.get_active_immutable();
    let ability = if facts.active_ability_is_suppressed {
        Abilities::NONE
    } else {
        p1.ability
    };
    start_dispatch(
        attacking,
        defending,
        weather,
        terrain,
        side_ref,
        ability,
        facts,
        boosts,
        orb,
        forme_stat_changes,
        instructions,
    );
    proof {
        let tr = traced(p, d, side_ref, facts);
        assert(mid =~= start + tr.1);
        lemma_start_body_reads(
            att0,
            att_mid,
            def0,
            p1,
            w0,
            t0,
            side_ref,
            ability,
            facts,
            b0,
            o0,
            f0,
        );
        assert(attacking.pokemon@ =~= att0.pokemon@.update(
            att0.active_index.spec_position(),
            attacking.active(),
        ));
        let b = start_body(att0, def0, p1, w0, t0, side_ref, ability, facts, b0, o0, f0);
        assert(instructions@ =~= start + tr.1 + b.5);
    }
}

/// The effect of a pokemon's start records exactly its instructions.
proof fn lemma_start_effect_records(
    att0: Side,
    def0: Side,
    weather0: StateWeather,
    terrain0: StateTerrain,
    instructions0: Seq<Instruction>,
    att1: Side,
    def1: Side,
    weather1: StateWeather,
    terrain1: StateTerrain,
    instructions1: Seq<Instruction>,
    side_ref: SideReference,
    facts: StartFacts,
    boosts: Seq<Instruction>,
    orb: Seq<Instruction>,
    forme_stat_changes: Seq<Instruction>,
)
    requires
        start_effect(
            att0,
            def0,
            weather0,
            terrain0,
            instructions0,
            att1,
            def1,
            weather1,
            terrain1,
            instructions1,
            side_ref,
            facts,
            boosts,
            orb,
            forme_stat_changes,
        ),
    ensures
        instructions1 == instructions0 + start_records(
            att0,
            def0,
            weather0,
            terrain0,
            side_ref,
            facts,
            boosts,
            orb,
            forme_stat_changes,
        ),
{
    assert(instructions1 =~= instructions0 + start_records(
        att0,
        def0,
        weather0,
        terrain0,
        side_ref,
        facts,
        boosts,
        orb,
        forme_stat_changes,
    ));
}

/// A pokemon's start on both sides and the field, with the speed boosts it
/// recorded applied to the sides.
fn start_sides(
    attacking: &mut Side,
    defending: &mut Side,
    weather: &mut StateWeather,
    terrain: &mut StateTerrain,
    side_ref: SideReference,
    facts: StartFacts,
    boosts: Vec<Instruction>,
    orb: Vec<Instruction>,
    forme_stat_changes: Vec<Instruction>,
    instructions: &mut Vec<Instruction>,
)
    requires
        old(attacking).wf(),
        old(defending).wf(),
        start_ready(
            *old(attacking),
            *old(defending),
            *old(weather),
            *old(terrain),
            side_ref,
            facts,
            boosts@,
            orb@,
            forme_stat_changes@,
        ),
    ensures
        start_outcome(
            *old(attacking),
            *old(defending),
            *old(weather),
            *old(terrain),
            old(instructions)@,
            *final(attacking),
            *final(defending),
            *final(weather),
            *final(terrain),
            final(instructions)@,
            side_ref,
            facts,
            boosts@,
            orb@,
            forme_stat_changes@,
        ),
{
    let start_len = instructions.len();
    let ghost ins0 = instructions@;
    let ghost att0 = *attacking;
    let ghost def0 = *defending;
    let ghost w0 = *weather;
    let ghost t0 = *terrain;
    let ghost b0 = boosts@;
    let ghost o0 = orb@;
    let ghost f0 = forme_stat_changes@;
    start_core(
        attacking,
        defending,
        weather,
        terrain,
        side_ref,
        facts,
        boosts,
        orb,
        forme_stat_changes,
        instructions,
    );
    let ghost att_mid = *attacking;
    let ghost def_mid = *defending;
    proof {
        lemma_start_effect_records(
            att0,
            def0,
            w0,
            t0,
            ins0,
            crate::after_hit::sans_speed(att_mid),
            crate::after_hit::sans_speed(def_mid),
            *weather,
            *terrain,
            instructions@,
            side_ref,
            facts,
            b0,
            o0,
            f0,
        );
        let records = start_records(att0, def0, w0, t0, side_ref, facts, b0, o0, f0);
        assert(instructions@.subrange(start_len as int, instructions@.len() as int) =~= records);
    }
    let other = side_ref.get_other_side();
    let attacker_change = recorded_speed_change(instructions, start_len, side_ref);
    let defender_change = recorded_speed_change(instructions, start_len, other);
    attacking.speed_boost = (attacking.speed_boost as i128 + attacker_change) as i8;
    defending.speed_boost = (defending.speed_boost as i128 + defender_change) as i8;
    proof {
        assert(crate::after_hit::sans_speed(*attacking) == crate::after_hit::sans_speed(att_mid));
        assert(crate::after_hit::sans_speed(*defending) == crate::after_hit::sans_speed(def_mid));
    }
}

/// What a side's active pokemon's ability does as it takes the field. Trace
/// first copies the opposing pokemon's ability where it can (and the copy then
/// acts). Then: ice face regains its ice in hail or snow; intrepid sword and
/// dauntless shield boost once per battle and mark it; the aspect abilities and
/// download boost; slow start starts its count of six; protosynthesis in sun
/// and quark drive on electric terrain take the volatile status of the highest
/// stat, or use up a booster energy for it; drought, orichalcum pulse, sand
/// stream, snow warning and drizzle set their weather for five turns,
/// desolate land and primordial sea theirs until replaced, and the surges and
/// hadron engine their terrain for five turns, where it would be set;
/// intimidate lowers the opposing pokemon's attack unless it has own tempo,
/// oblivious, inner focus or scrappy or a substitute, and an active adrenaline
/// orb then boosts its speed and is used up; screen cleaner clears reflect,
/// light screen and aurora veil from both sides. The instructions of the boosts
/// and of the new forme's stat changes are given; the recorded speed boosts move
/// the sides' speed boosts. What the rest of an engine knows is given in
/// `facts`.
pub fn ability_on_start(
    state: &mut State,
    side_ref: &SideReference,
    instructions: &mut Vec<Instruction>,
    facts: StartFacts,
    boost_instructions: Vec<Instruction>,
    orb_boost_instructions: Vec<Instruction>,
    forme_stat_changes: Vec<Instruction>,
)
    requires
        old(state).wf(),
        start_ready(
            old(state).side(*side_ref),
            old(state).side(side_ref.other()),
            old(state).weather,
            old(state).terrain,
            *side_ref,
            facts,
            boost_instructions@,
            orb_boost_instructions@,
            forme_stat_changes@,
        ),
    ensures
        final(state).wf(),
        start_outcome(
            old(state).side(*side_ref),
            old(state).side(side_ref.other()),
            old(state).weather,
            old(state).terrain,
            old(instructions)@,
            final(state).side(*side_ref),
            final(state).side(side_ref.other()),
            final(state).weather,
            final(state).terrain,
            final(instructions)@,
            *side_ref,
            facts,
            boost_instructions@,
            orb_boost_instructions@,
            forme_stat_changes@,
        ),
{
    match side_ref {
        SideReference::SideOne => start_sides(
            &mut state.side_one,
            &mut state.side_two,
            &mut state.weather,
            &mut state.terrain,
            *side_ref,
            facts,
            boost_instructions,
            orb_boost_instructions,
            forme_stat_changes,
            instructions,
        ),
        SideReference::SideTwo => start_sides(
            &mut state.side_two,
            &mut state.side_one,
            &mut state.weather,
            &mut state.terrain,
            *side_ref,
            facts,
            boost_instructions,
            orb_boost_instructions,
            forme_stat_changes,
            instructions,
        ),
    }
}

/// What a side's active pokemon's ability does as it switches in: the same as
/// its start on the field.
pub fn ability_on_switch_in(
    state: &mut State,
    side_ref: &SideReference,
    instructions: &mut Vec<Instruction>,
    facts: StartFacts,
    boost_instructions: Vec<Instruction>,
    orb_boost_instructions: Vec<Instruction>,
    forme_stat_changes: Vec<Instruction>,
)
    requires
        old(state).wf(),
        start_ready(
            old(state).side(*side_ref),
            old(state).side(side_ref.other()),
            old(state).weather,
            old(state).terrain,
            *side_ref,
            facts,
            boost_instructions@,
            orb_boost_instructions@,
            forme_stat_changes@,
        ),
    ensures
        final(state).wf(),
        start_outcome(
            old(state).side(*side_ref),
            old(state).side(side_ref.other()),
            old(state).weather,
            old(state).terrain,
            old(instructions)@,
            final(state).side(*side_ref),
            final(state).side(side_ref.other()),
            final(state).weather,
            final(state).terrain,
            final(instructions)@,
            *side_ref,
            facts,
            boost_instructions@,
            orb_boost_instructions@,
            forme_stat_changes@,
        ),
{
    ability_on_start(
        state,
        side_ref,
        instructions,
        facts,
        boost_instructions,
        orb_boost_instructions,
        forme_stat_changes,
    );
}

/// The weather and terrain setters as a pokemon takes the field: each surge
/// (and hadron engine) sets its own terrain for five turns, drought and
/// orichalcum pulse set sun, sand stream sand, snow warning snow and drizzle
/// rain for five turns, desolate land harsh sun and primordial sea heavy rain
/// until replaced; each records exactly that one change and leaves the other of
/// weather and terrain alone; where the field is not to be set, nothing changes.
pub proof fn law_start_field_setters(
    att0: Side,
    def0: Side,
    weather0: StateWeather,
    terrain0: StateTerrain,
    instructions0: Seq<Instruction>,
    att1: Side,
    def1: Side,
    weather1: StateWeather,
    terrain1: StateTerrain,
    instructions1: Seq<Instruction>,
    side_ref: SideReference,
    facts: StartFacts,
    boosts: Seq<Instruction>,
    orb: Seq<Instruction>,
    forme_stat_changes: Seq<Instruction>,
)
    requires
        start_outcome(
            att0,
            def0,
            weather0,
            terrain0,
            instructions0,
            att1,
            def1,
            weather1,
            terrain1,
            instructions1,
            side_ref,
            facts,
            boosts,
            orb,
            forme_stat_changes,
        ),
        att0.wf(),
        def0.wf(),
        !facts.active_ability_is_suppressed,
        att0.active().ability != Abilities::TRACE,
    ensures
        facts.field_should_be_set && att0.active().ability == Abilities::MISTYSURGE ==> {
            &&& terrain1 == (StateTerrain { terrain_type: Terrain::MISTYTERRAIN, turns_remaining: 5 })
            &&& weather1 == weather0
            &&& instructions1 == instructions0.push(
                Instruction::ChangeTerrain(
                    ChangeTerrain {
                        new_terrain: Terrain::MISTYTERRAIN,
                        new_terrain_turns_remaining: 5,
                        previous_terrain: terrain0.terrain_type,
                        previous_terrain_turns_remaining: terrain0.turns_remaining,
                    },
                ),
            )
        },
        facts.field_should_be_set && att0.active().ability == Abilities::GRASSYSURGE ==> {
            &&& terrain1 == (StateTerrain { terrain_type: Terrain::GRASSYTERRAIN, turns_remaining: 5 })
            &&& weather1 == weather0
            &&& instructions1 == instructions0.push(
                Instruction::ChangeTerrain(
                    ChangeTerrain {
                        new_terrain: Terrain::GRASSYTERRAIN,
                        new_terrain_turns_remaining: 5,
                        previous_terrain: terrain0.terrain_type,
                        previous_terrain_turns_remaining: terrain0.turns_remaining,
                    },
                ),
            )
        },
        facts.field_should_be_set && att0.active().ability == Abilities::ELECTRICSURGE ==> {
            &&& terrain1 == (StateTerrain { terrain_type: Terrain::ELECTRICTERRAIN, turns_remaining: 5 })
            &&& weather1 == weather0
            &&& instructions1 == instructions0.push(
                Instruction::ChangeTerrain(
                    ChangeTerrain {
                        new_terrain: Terrain::ELECTRICTERRAIN,
                        new_terrain_turns_remaining: 5,
                        previous_terrain: terrain0.terrain_type,
                        previous_terrain_turns_remaining: terrain0.turns_remaining,
                    },
                ),
            )
        },
        facts.field_should_be_set && att0.active().ability == Abilities::HADRONENGINE ==> {
            &&& terrain1 == (StateTerrain { terrain_type: Terrain::ELECTRICTERRAIN, turns_remaining: 5 })
            &&& weather1 == weather0
            &&& instructions1 == instructions0.push(
                Instruction::ChangeTerrain(
                    ChangeTerrain {
                        new_terrain: Terrain::ELECTRICTERRAIN,
                        new_terrain_turns_remaining: 5,
                        previous_terrain: terrain0.terrain_type,
                        previous_terrain_turns_remaining: terrain0.turns_remaining,
                    },
                ),
            )
        },
        facts.field_should_be_set && att0.active().ability == Abilities::PSYCHICSURGE ==> {
            &&& terrain1 == (StateTerrain { terrain_type: Terrain::PSYCHICTERRAIN, turns_remaining: 5 })
            &&& weather1 == weather0
            &&& instructions1 == instructions0.push(
                Instruction::ChangeTerrain(
                    ChangeTerrain {
                        new_terrain: Terrain::PSYCHICTERRAIN,
                        new_terrain_turns_remaining: 5,
                        previous_terrain: terrain0.terrain_type,
                        previous_terrain_turns_remaining: terrain0.turns_remaining,
                    },
                ),
            )
        },
        facts.field_should_be_set && att0.active().ability == Abilities::DROUGHT ==> {
            &&& weather1 == (StateWeather { weather_type: Weather::SUN, turns_remaining: 5i8 })
            &&& terrain1 == terrain0
            &&& instructions1 == instructions0.push(
                Instruction::ChangeWeather(
                    ChangeWeather {
                        new_weather: Weather::SUN,
                        new_weather_turns_remaining: 5i8,
                        previous_weather: weather0.weather_type,
                        previous_weather_turns_remaining: weather0.turns_remaining,
                    },
                ),
            )
        },
        facts.field_should_be_set && att0.active().ability == Abilities::ORICHALCUMPULSE ==> {
            &&& weather1 == (StateWeather { weather_type: Weather::SUN, turns_remaining: 5i8 })
            &&& terrain1 == terrain0
            &&& instructions1 == instructions0.push(
                Instruction::ChangeWeather(
                    ChangeWeather {
                        new_weather: Weather::SUN,
                        new_weather_turns_remaining: 5i8,
                        previous_weather: weather0.weather_type,
                        previous_weather_turns_remaining: weather0.turns_remaining,
                    },
                ),
            )
        },
        facts.field_should_be_set && att0.active().ability == Abilities::DESOLATELAND ==> {
            &&& weather1 == (StateWeather { weather_type: Weather::HARSHSUN, turns_remaining: -1i8 })
            &&& terrain1 == terrain0
            &&& instructions1 == instructions0.push(
                Instruction::ChangeWeather(
                    ChangeWeather {
                        new_weather: Weather::HARSHSUN,
                        new_weather_turns_remaining: -1i8,
                        previous_weather: weather0.weather_type,
                        previous_weather_turns_remaining: weather0.turns_remaining,
                    },
                ),
            )
        },
        facts.field_should_be_set && att0.active().ability == Abilities::SANDSTREAM ==> {
            &&& weather1 == (StateWeather { weather_type: Weather::SAND, turns_remaining: 5i8 })
            &&& terrain1 == terrain0
            &&& instructions1 == instructions0.push(
                Instruction::ChangeWeather(
                    ChangeWeather {
                        new_weather: Weather::SAND,
                        new_weather_turns_remaining: 5i8,
                        previous_weather: weather0.weather_type,
                        previous_weather_turns_remaining: weather0.turns_remaining,
                    },
                ),
            )
        },
        facts.field_should_be_set && att0.active().ability == Abilities::SNOWWARNING ==> {
            &&& weather1 == (StateWeather { weather_type: Weather::SNOW, turns_remaining: 5i8 })
            &&& terrain1 == terrain0
            &&& instructions1 == instructions0.push(
                Instruction::ChangeWeather(
                    ChangeWeather {
                        new_weather: Weather::SNOW,
                        new_weather_turns_remaining: 5i8,
                        previous_weather: weather0.weather_type,
                        previous_weather_turns_remaining: weather0.turns_remaining,
                    },
                ),
            )
        },
        facts.field_should_be_set && att0.active().ability == Abilities::PRIMORDIALSEA ==> {
            &&& weather1 == (StateWeather { weather_type: Weather::HEAVYRAIN, turns_remaining: -1i8 })
            &&& terrain1 == terrain0
            &&& instructions1 == instructions0.push(
                Instruction::ChangeWeather(
                    ChangeWeather {
                        new_weather: Weather::HEAVYRAIN,
                        new_weather_turns_remaining: -1i8,
                        previous_weather: weather0.weather_type,
                        previous_weather_turns_remaining: weather0.turns_remaining,
                    },
                ),
            )
        },
        facts.field_should_be_set && att0.active().ability == Abilities::DRIZZLE ==> {
            &&& weather1 == (StateWeather { weather_type: Weather::RAIN, turns_remaining: 5i8 })
            &&& terrain1 == terrain0
            &&& instructions1 == instructions0.push(
                Instruction::ChangeWeather(
                    ChangeWeather {
                        new_weather: Weather::RAIN,
                        new_weather_turns_remaining: 5i8,
                        previous_weather: weather0.weather_type,
                        previous_weather_turns_remaining: weather0.turns_remaining,
                    },
                ),
            )
        },
        !facts.field_should_be_set && (weather_set_by(att0.active().ability) is Some
            || terrain_set_by(att0.active().ability) is Some) ==> {
            &&& weather1 == weather0
            &&& terrain1 == terrain0
            &&& instructions1 == instructions0
        },
{
    reveal(field_part);
    assert(crate::after_hit::sans_speed(att1).pokemon == att1.pokemon);
}

/// A suppressed ability does nothing as its holder takes the field: no trace,
/// and the pokemon, the field and the instructions stay as they were.
pub proof fn law_start_suppressed(
    att0: Side,
    def0: Side,
    weather0: StateWeather,
    terrain0: StateTerrain,
    instructions0: Seq<Instruction>,
    att1: Side,
    def1: Side,
    weather1: StateWeather,
    terrain1: StateTerrain,
    instructions1: Seq<Instruction>,
    side_ref: SideReference,
    facts: StartFacts,
    boosts: Seq<Instruction>,
    orb: Seq<Instruction>,
    forme_stat_changes: Seq<Instruction>,
)
    requires
        start_outcome(
            att0,
            def0,
            weather0,
            terrain0,
            instructions0,
            att1,
            def1,
            weather1,
            terrain1,
            instructions1,
            side_ref,
            facts,
            boosts,
            orb,
            forme_stat_changes,
        ),
        att0.wf(),
        def0.wf(),
        facts.active_ability_is_suppressed,
    ensures
        weather1 == weather0,
        terrain1 == terrain0,
        instructions1 == instructions0,
        att1.active() == att0.active(),
        def1.active() == def0.active(),
        att1.side_conditions == att0.side_conditions,
        def1.side_conditions == def0.side_conditions,
{
    reveal(field_part);
    assert(crate::after_hit::sans_speed(att1).pokemon == att1.pokemon);
    assert(crate::after_hit::sans_speed(def1).pokemon == def1.pokemon);
    assert(instructions1 =~= instructions0);
}

/// Intimidate is shrugged off by own tempo, oblivious, inner focus, scrappy and
/// a substitute: the opposing pokemon stays as it is and nothing is recorded;
/// otherwise its attack drop is recorded first.
pub proof fn law_intimidate(
    att0: Side,
    def0: Side,
    weather0: StateWeather,
    terrain0: StateTerrain,
    instructions0: Seq<Instruction>,
    att1: Side,
    def1: Side,
    weather1: StateWeather,
    terrain1: StateTerrain,
    instructions1: Seq<Instruction>,
    side_ref: SideReference,
    facts: StartFacts,
    boosts: Seq<Instruction>,
    orb: Seq<Instruction>,
    forme_stat_changes: Seq<Instruction>,
)
    requires
        start_outcome(
            att0,
            def0,
            weather0,
            terrain0,
            instructions0,
            att1,
            def1,
            weather1,
            terrain1,
            instructions1,
            side_ref,
            facts,
            boosts,
            orb,
            forme_stat_changes,
        ),
        att0.wf(),
        def0.wf(),
        !facts.active_ability_is_suppressed,
        att0.active().ability == Abilities::INTIMIDATE,
    ensures
        intimidate_blocked(facts, def0.volatiles().contains(PokemonVolatileStatus::SUBSTITUTE))
            ==> def1.active() == def0.active() && instructions1 == instructions0,
        (facts.defender_ability == Abilities::OWNTEMPO || facts.defender_ability
            == Abilities::OBLIVIOUS || facts.defender_ability == Abilities::INNERFOCUS
            || facts.defender_ability == Abilities::SCRAPPY) ==> instructions1 == instructions0,
        !intimidate_blocked(facts, def0.volatiles().contains(PokemonVolatileStatus::SUBSTITUTE))
            ==> instructions1.subrange(
            instructions0.len() as int,
            (instructions0.len() + boosts.len()) as int,
        ) == boosts,
{
    reveal(intimidate_part);
    assert(crate::after_hit::sans_speed(def1).pokemon == def1.pokemon);
    if !intimidate_blocked(facts, def0.volatiles().contains(PokemonVolatileStatus::SUBSTITUTE)) {
        let i = intimidate_part(
            def0.active(),
            def0.volatiles().contains(PokemonVolatileStatus::SUBSTITUTE),
            side_ref,
            facts,
            boosts,
            orb,
        );
        assert(instructions1 == instructions0 + i.1);
        assert(i.1.subrange(0, boosts.len() as int) =~= boosts);
        assert(instructions1.subrange(instructions0.len() as int, (instructions0.len() + boosts.len()) as int)
            =~= i.1.subrange(0, boosts.len() as int));
    } else {
        assert(instructions1 =~= instructions0);
    }
}

/// The holder's own start: intrepid sword and dauntless shield boost only once,
/// marking it; ice face regains its ice only in hail or snow; slow start takes
/// its volatile status and counts from six again; protosynthesis in sun and
/// quark drive on electric terrain take the volatile status of the highest
/// stat; screen cleaner leaves no screen up on either side.
pub proof fn law_start_holder(
    att0: Side,
    def0: Side,
    weather0: StateWeather,
    terrain0: StateTerrain,
    instructions0: Seq<Instruction>,
    att1: Side,
    def1: Side,
    weather1: StateWeather,
    terrain1: StateTerrain,
    instructions1: Seq<Instruction>,
    side_ref: SideReference,
    facts: StartFacts,
    boosts: Seq<Instruction>,
    orb: Seq<Instruction>,
    forme_stat_changes: Seq<Instruction>,
)
    requires
        start_outcome(
            att0,
            def0,
            weather0,
            terrain0,
            instructions0,
            att1,
            def1,
            weather1,
            terrain1,
            instructions1,
            side_ref,
            facts,
            boosts,
            orb,
            forme_stat_changes,
        ),
        att0.wf(),
        def0.wf(),
        !facts.active_ability_is_suppressed,
        att0.active().ability != Abilities::TRACE,
    ensures
        ({
            let p = att0.active();
            let a = p.ability;
            let q = att1.active();
            &&& a == Abilities::INTREPIDSWORD ==> q.sword_boost_used
            &&& a == Abilities::INTREPIDSWORD && p.sword_boost_used ==> q == p && instructions1
                == instructions0
            &&& a == Abilities::INTREPIDSWORD && !p.sword_boost_used ==> instructions1[instructions0.len() as int]
                is ToggleSwordBoostUsed
            &&& a == Abilities::DAUNTLESSSHIELD ==> q.shield_boost_used
            &&& a == Abilities::DAUNTLESSSHIELD && p.shield_boost_used ==> q == p && instructions1
                == instructions0
            &&& a == Abilities::DAUNTLESSSHIELD && !p.shield_boost_used ==> instructions1[instructions0.len() as int]
                is ToggleShieldBoostUsed
            &&& a == Abilities::ICEFACE && p.id == PokemonName::EISCUENOICE
                && !facts.weather_is_suppressed && (weather0.weather_type == Weather::HAIL
                || weather0.weather_type == Weather::SNOW) ==> q.id == PokemonName::EISCUE
            &&& a == Abilities::ICEFACE && (facts.weather_is_suppressed || !(weather0.weather_type
                == Weather::HAIL || weather0.weather_type == Weather::SNOW)) ==> q == p
                && instructions1 == instructions0
            &&& a == Abilities::SLOWSTART ==> att1.volatiles().contains(
                PokemonVolatileStatus::SLOWSTART,
            ) && instructions1 == instructions0 + seq![
                Instruction::ApplyVolatileStatus(
                    crate::instruction::ApplyVolatileStatusInstruction {
                        side_ref: side_ref,
                        volatile_status: PokemonVolatileStatus::SLOWSTART,
                    },
                ),
                Instruction::ChangeVolatileStatusDuration(
                    ChangeVolatileStatusDurationInstruction {
                        side_ref: side_ref,
                        volatile_status: PokemonVolatileStatus::SLOWSTART,
                        amount: (6 - facts.slowstart_turns) as i8,
                    },
                ),
            ]
            &&& a == Abilities::PROTOSYNTHESIS && !facts.weather_is_suppressed
                && weather0.weather_type == Weather::SUN ==> att1.volatiles().contains(
                protosynthesis_volatile(facts.highest_stat),
            )
            &&& a == Abilities::QUARKDRIVE && facts.electric_terrain_is_active
                ==> att1.volatiles().contains(quarkdrive_volatile(facts.highest_stat))
            &&& a == Abilities::SCREENCLEANER ==> att1.side_conditions.reflect <= 0
                && att1.side_conditions.light_screen <= 0 && att1.side_conditions.aurora_veil <= 0
                && def1.side_conditions.reflect <= 0 && def1.side_conditions.light_screen <= 0
                && def1.side_conditions.aurora_veil <= 0 && att1.side_conditions.toxic_spikes
                == att0.side_conditions.toxic_spikes
        }),
{
    reveal(holder_part);
    reveal(paradox_part);
    reveal(field_part);
    reveal(intimidate_part);
    assert(crate::after_hit::sans_speed(att1).pokemon == att1.pokemon);
    assert(crate::after_hit::sans_speed(def1).pokemon == def1.pokemon);
    assert(crate::after_hit::sans_speed(att1).volatile_statuses == att1.volatile_statuses);
}

/// Trace copies the opposing pokemon's ability where it may, records that
/// first, and the holder keeps the copy.
pub proof fn law_trace(
    att0: Side,
    def0: Side,
    weather0: StateWeather,
    terrain0: StateTerrain,
    instructions0: Seq<Instruction>,
    att1: Side,
    def1: Side,
    weather1: StateWeather,
    terrain1: StateTerrain,
    instructions1: Seq<Instruction>,
    side_ref: SideReference,
    facts: StartFacts,
    boosts: Seq<Instruction>,
    orb: Seq<Instruction>,
    forme_stat_changes: Seq<Instruction>,
)
    requires
        start_outcome(
            att0,
            def0,
            weather0,
            terrain0,
            instructions0,
            att1,
            def1,
            weather1,
            terrain1,
            instructions1,
            side_ref,
            facts,
            boosts,
            orb,
            forme_stat_changes,
        ),
        att0.wf(),
        def0.wf(),
        !facts.active_ability_is_suppressed,
        att0.active().ability == Abilities::TRACE,
        def0.active().ability != Abilities::TRACE,
        facts.active_ability_can_be_changed,
        !is_refused_by_trace(def0.active().ability),
    ensures
        att1.active().ability == def0.active().ability,
        instructions1[instructions0.len() as int] == change_ability(
            side_ref,
            Abilities::TRACE,
            def0.active().ability,
        ),
{
    reveal(holder_part);
    reveal(paradox_part);
    reveal(field_part);
    reveal(intimidate_part);
    assert(crate::after_hit::sans_speed(att1).pokemon == att1.pokemon);
    assert(crate::after_hit::sans_speed(def1).pokemon == def1.pokemon);
    assert(crate::after_hit::sans_speed(att1).volatile_statuses == att1.volatile_statuses);
}

/// The items at a pokemon's start: an intimidated pokemon's adrenaline orb is
/// used up only when the attack drop and the orb's speed boost both took effect
/// and its item is active; protosynthesis without sun (or quark drive without
/// electric terrain) uses up an active booster energy; no other start touches an
/// item.
pub proof fn law_start_items(
    att0: Side,
    def0: Side,
    weather0: StateWeather,
    terrain0: StateTerrain,
    instructions0: Seq<Instruction>,
    att1: Side,
    def1: Side,
    weather1: StateWeather,
    terrain1: StateTerrain,
    instructions1: Seq<Instruction>,
    side_ref: SideReference,
    facts: StartFacts,
    boosts: Seq<Instruction>,
    orb: Seq<Instruction>,
    forme_stat_changes: Seq<Instruction>,
)
    requires
        start_outcome(
            att0,
            def0,
            weather0,
            terrain0,
            instructions0,
            att1,
            def1,
            weather1,
            terrain1,
            instructions1,
            side_ref,
            facts,
            boosts,
            orb,
            forme_stat_changes,
        ),
        att0.wf(),
        def0.wf(),
        !facts.active_ability_is_suppressed,
        att0.active().ability != Abilities::TRACE,
    ensures
        ({
            let a = att0.active().ability;
            let p0 = att0.active();
            let d0 = def0.active();
            let sun = !facts.weather_is_suppressed && weather0.weather_type == Weather::SUN;
            &&& a == Abilities::INTIMIDATE && !intimidate_blocked(
                facts,
                def0.volatiles().contains(PokemonVolatileStatus::SUBSTITUTE),
            ) && facts.attack_drop_applied && facts.orb_boost_applied && facts.defender_item_is_active
                && d0.item == Items::ADRENALINEORB ==> def1.active().item == Items::NONE
            &&& a == Abilities::INTIMIDATE && !(facts.attack_drop_applied && facts.orb_boost_applied
                && facts.defender_item_is_active) ==> def1.active().item == d0.item
            &&& a != Abilities::INTIMIDATE ==> def1.active() == d0
            &&& a == Abilities::PROTOSYNTHESIS && !sun && facts.active_item_is_active && p0.item
                == Items::BOOSTERENERGY ==> att1.active().item == Items::NONE
                && att1.volatiles().contains(PokemonVolatileStatus::PROTOSYNTHESISBOOSTER)
            &&& a == Abilities::QUARKDRIVE && !facts.electric_terrain_is_active
                && facts.active_item_is_active && p0.item == Items::BOOSTERENERGY ==> att1.active().item
                == Items::NONE && att1.volatiles().contains(PokemonVolatileStatus::QUARKDRIVEBOOSTER)
            &&& !(a == Abilities::PROTOSYNTHESIS || a == Abilities::QUARKDRIVE) ==> att1.active().item
                == p0.item
        }),
{
    reveal(holder_part);
    reveal(paradox_part);
    reveal(field_part);
    reveal(intimidate_part);
    assert(crate::after_hit::sans_speed(att1).pokemon == att1.pokemon);
    assert(crate::after_hit::sans_speed(def1).pokemon == def1.pokemon);
    assert(crate::after_hit::sans_speed(att1).volatile_statuses == att1.volatile_statuses);
}

} // verus!
