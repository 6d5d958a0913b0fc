//! What abilities do after a move has hit and dealt damage: the attacker's
//! abilities that reward a knockout or steal an item, and the defender's
//! abilities that answer the hit.

use vstd::prelude::*;
use crate::abilities::{
    ability_cannot_be_replaced_by_contact, ability_fails_skill_swap, ability_number,
    ability_number_of, apply_charge_volatile, apply_volatile, charge_applies, forme_change,
    is_kept_on_contact, is_refused_by_skill_swap, Abilities,
};
use crate::before_move::has_type;
use crate::end_of_turn::{ability_damage, min_int, valid_hp};
use crate::instruction::{
    ApplyVolatileStatusInstruction, BoostInstruction, ChangeAbilityInstruction, ChangeItemInstruction,
    ChangeSideConditionInstruction, ChangeStatusInstruction, ChangeTerrain, ChangeType,
    ChangeWeather, DamageWithFaintContextInstruction, FaintContext, FormeChangeInstruction,
    Instruction,
};
use crate::state::{
    Choice, Items, MoveCategory, Pokemon, PokemonBoostableStat, PokemonIndex, PokemonName, PokemonSideCondition,
    PokemonStatus, PokemonType, PokemonVolatileStatus, Side, SideConditions, SideReference, State, StateTerrain,
    StateWeather, Terrain, Weather,
};

verus! {

/// What the rest of an engine knows about a hit that the ability rules read:
/// whether each side's ability is suppressed and its item active, whether the
/// defender's item is permanent, whether sand or grassy terrain would be set,
/// whether the attacker is immune to a burn, and whether the defender blocks
/// berries.
#[derive(Debug, PartialEq, Eq, Clone, Copy, Structural)]
pub struct HitFacts {
    pub active_ability_is_suppressed: bool,
    pub defending_ability_is_suppressed: bool,
    pub active_item_is_active: bool,
    pub defending_item_is_active: bool,
    pub defending_item_is_permanent: bool,
    pub sand_should_be_set: bool,
    pub grassy_terrain_should_be_set: bool,
    pub attacker_immune_to_burn: bool,
    pub berries_blocked: bool,
}

/// The turns a weather or terrain set by an ability lasts.
pub const ABILITY_FIELD_TURNS: i8 = 5;

/// The instruction that changes a side's active pokemon's item.
pub open spec fn change_item(side_ref: SideReference, current: Items, new: Items) -> Instruction {
    Instruction::ChangeItem(
        ChangeItemInstruction { side_ref: side_ref, current_item: current, new_item: new },
    )
}

/// The instruction that changes a side's active pokemon's ability.
pub open spec fn change_ability(side_ref: SideReference, from: Abilities, to: Abilities) -> Instruction {
    Instruction::ChangeAbility(
        ChangeAbilityInstruction {
            side_ref: side_ref,
            ability_change: (ability_number_of(to) - ability_number_of(from)) as i16,
        },
    )
}

/// The abilities that boost the attacker when it knocks the defender out.
pub open spec fn rewards_knockout(ability: Abilities) -> bool {
    ||| ability == Abilities::BATTLEBOND
    ||| ability == Abilities::MOXIE
    ||| ability == Abilities::CHILLINGNEIGH
    ||| ability == Abilities::ASONEGLASTRIER
    ||| ability == Abilities::GRIMNEIGH
    ||| ability == Abilities::ASONESPECTRIER
    ||| ability == Abilities::BEASTBOOST
}

/// The defender's item can be taken: it has no sticky hold and the item is not
/// permanent.
pub open spec fn item_can_be_removed(defending_ability: Abilities, facts: HitFacts) -> bool {
    defending_ability != Abilities::STICKYHOLD && !facts.defending_item_is_permanent
}

/// The attacker's part: after a knockout the boosts its ability calls for (the
/// instructions that record them are given); magician and pickpocket take the
/// defender's item when the attacker holds none.
#[verifier::opaque]
pub open spec fn attacker_part(
    a: Pokemon,
    d: Pokemon,
    side_ref: SideReference,
    active_ability: Abilities,
    defending_ability: Abilities,
    damage_dealt: i16,
    facts: HitFacts,
    attacker_boosts: Seq<Instruction>,
) -> (Pokemon, Pokemon, Seq<Instruction>) {
    if rewards_knockout(active_ability) && damage_dealt > 0 && d.hp == 0 {
        (a, d, attacker_boosts)
    } else if (active_ability == Abilities::MAGICIAN || active_ability == Abilities::PICKPOCKET)
        && damage_dealt > 0 && item_can_be_removed(defending_ability, facts) && a.item
        == Items::NONE {
        (
            Pokemon { item: d.item, ..a },
            Pokemon { item: Items::NONE, ..d },
            seq![
                change_item(side_ref, a.item, d.item),
                change_item(side_ref.other(), d.item, Items::NONE),
            ],
        )
    } else {
        (a, d, Seq::empty())
    }
}

/// The attacker's part changes nothing of the two pokemon but their items.
proof fn lemma_attacker_part_moves_items(
    a: Pokemon,
    d: Pokemon,
    side_ref: SideReference,
    active_ability: Abilities,
    defending_ability: Abilities,
    damage_dealt: i16,
    facts: HitFacts,
    attacker_boosts: Seq<Instruction>,
)
    ensures
        ({
            let e = attacker_part(
                a,
                d,
                side_ref,
                active_ability,
                defending_ability,
                damage_dealt,
                facts,
                attacker_boosts,
            );
            &&& e.0 == (Pokemon { item: e.0.item, ..a })
            &&& e.1 == (Pokemon { item: e.1.item, ..d })
        }),
{
    reveal(attacker_part);
}

/// A pokemon's ability can be replaced: it stands and holds no active ability
/// shield.
pub open spec fn ability_can_be_changed(p: Pokemon, item_is_active: bool) -> bool {
    p.hp != 0 && !(item_is_active && p.item == Items::ABILITYSHIELD)
}

/// The defender's abilities that act on the pokemon alone: the contact ability
/// changes, gulp missile, color change, and the boosts of stamina, cotton down
/// and berserk (whose instructions are given). The attacker and defender
/// afterwards, the instructions, and whether the move gains a sure paralysis of
/// the attacker.
#[verifier::opaque]
pub open spec fn defender_pokemon_part(
    a: Pokemon,
    d: Pokemon,
    side_ref: SideReference,
    defending_index: PokemonIndex,
    defending_ability: Abilities,
    choice: Choice,
    damage_dealt: i16,
    facts: HitFacts,
    defender_boosts: Seq<Instruction>,
) -> (Pokemon, Pokemon, Seq<Instruction>, bool) {
    let none = (a, d, Seq::<Instruction>::empty(), false);
    let a_change = ability_can_be_changed(a, facts.active_item_is_active);
    let d_change = ability_can_be_changed(d, facts.defending_item_is_active);
    if defending_ability == Abilities::MUMMY || defending_ability == Abilities::LINGERINGAROMA {
        if choice.contact && a_change && a.ability != defending_ability && !is_kept_on_contact(
            a.ability,
        ) {
            (
                Pokemon { ability: defending_ability, ..a },
                d,
                seq![change_ability(side_ref, a.ability, defending_ability)],
                false,
            )
        } else {
            none
        }
    } else if defending_ability == Abilities::WANDERINGSPIRIT {
        if choice.contact && a_change && d_change && !is_refused_by_skill_swap(a.ability)
            && !is_refused_by_skill_swap(d.ability) {
            (
                Pokemon { ability: d.ability, ..a },
                Pokemon { ability: a.ability, ..d },
                seq![
                    change_ability(side_ref, a.ability, d.ability),
                    change_ability(side_ref.other(), d.ability, a.ability),
                ],
                false,
            )
        } else {
            none
        }
    } else if defending_ability == Abilities::GULPMISSILE {
        if damage_dealt > 0 && (d.id == PokemonName::CRAMORANTGORGING || d.id
            == PokemonName::CRAMORANTGULPING) {
            let dmg = min_int(a.maxhp / 4, a.hp as int);
            let base = seq![
                forme_change(side_ref.other(), d.id, PokemonName::CRAMORANT),
                ability_damage(side_ref, dmg, side_ref.other(), defending_index, defending_ability),
            ];
            (
                Pokemon { hp: (a.hp - dmg) as i16, ..a },
                Pokemon { id: PokemonName::CRAMORANT, ..d },
                if d.id == PokemonName::CRAMORANTGULPING {
                    base + defender_boosts
                } else {
                    base
                },
                d.id == PokemonName::CRAMORANTGORGING,
            )
        } else {
            none
        }
    } else if defending_ability == Abilities::COLORCHANGE {
        if damage_dealt > 0 && d.hp != 0 && !has_type(d, choice.move_type) {
            (
                a,
                Pokemon { type1: choice.move_type, type2: PokemonType::TYPELESS, ..d },
                seq![
                    Instruction::ChangeType(
                        ChangeType {
                            side_ref: side_ref.other(),
                            new_types: (choice.move_type, PokemonType::TYPELESS),
                            old_types: (d.type1, d.type2),
                        },
                    ),
                ],
                false,
            )
        } else {
            none
        }
    } else if (defending_ability == Abilities::STAMINA && damage_dealt > 0 && d.hp != 0) || (
    defending_ability == Abilities::COTTONDOWN && damage_dealt > 0) || (defending_ability
        == Abilities::BERSERK && damage_dealt > 0 && d.hp < d.maxhp / 2 && d.hp + damage_dealt
        >= d.maxhp / 2) {
        (a, d, defender_boosts, false)
    } else {
        none
    }
}

/// The defender's abilities handled by `defender_pokemon_part`.
pub open spec fn acts_on_pokemon(ability: Abilities) -> bool {
    ||| ability == Abilities::MUMMY
    ||| ability == Abilities::LINGERINGAROMA
    ||| ability == Abilities::WANDERINGSPIRIT
    ||| ability == Abilities::GULPMISSILE
    ||| ability == Abilities::COLORCHANGE
    ||| ability == Abilities::STAMINA
    ||| ability == Abilities::COTTONDOWN
    ||| ability == Abilities::BERSERK
}

/// The defender's abilities that hurt the attacker, burn it, or change the
/// field: sand spit, seed sower, toxic debris, rough skin and iron barbs, spicy
/// spray, aftermath and innards out. The attacker afterwards, the
/// instructions, the weather, the terrain and the attacker's side's layers of
/// toxic spikes. A lum berry that spicy spray's burn makes the attacker eat is
/// recorded by the given berry instructions.
#[verifier::opaque]
pub open spec fn defender_field_part(
    a: Pokemon,
    d: Pokemon,
    side_ref: SideReference,
    attacking_index: PokemonIndex,
    defending_index: PokemonIndex,
    defending_ability: Abilities,
    choice: Choice,
    damage_dealt: i16,
    facts: HitFacts,
    berry_instructions: Seq<Instruction>,
    weather: StateWeather,
    terrain: StateTerrain,
    toxic_spikes: i8,
) -> (Pokemon, Seq<Instruction>, StateWeather, StateTerrain, i8) {
    let none = (a, Seq::<Instruction>::empty(), weather, terrain, toxic_spikes);
    if defending_ability == Abilities::SANDSPIT && damage_dealt > 0 && facts.sand_should_be_set {
        (
            a,
            seq![
                Instruction::ChangeWeather(
                    ChangeWeather {
                        new_weather: Weather::SAND,
                        new_weather_turns_remaining: ABILITY_FIELD_TURNS,
                        previous_weather: weather.weather_type,
                        previous_weather_turns_remaining: weather.turns_remaining,
                    },
                ),
            ],
            StateWeather { weather_type: Weather::SAND, turns_remaining: ABILITY_FIELD_TURNS },
            terrain,
            toxic_spikes,
        )
    } else if defending_ability == Abilities::SEEDSOWER && damage_dealt > 0
        && facts.grassy_terrain_should_be_set {
        (
            a,
            seq![
                Instruction::ChangeTerrain(
                    ChangeTerrain {
                        new_terrain: Terrain::GRASSYTERRAIN,
                        new_terrain_turns_remaining: ABILITY_FIELD_TURNS,
                        previous_terrain: terrain.terrain_type,
                        previous_terrain_turns_remaining: terrain.turns_remaining,
                    },
                ),
            ],
            weather,
            StateTerrain {
                terrain_type: Terrain::GRASSYTERRAIN,
                turns_remaining: ABILITY_FIELD_TURNS,
            },
            toxic_spikes,
        )
    } else if defending_ability == Abilities::TOXICDEBRIS && damage_dealt > 0 && choice.category
        == MoveCategory::Physical && toxic_spikes < 2 {
        (
            a,
            seq![
                Instruction::ChangeSideCondition(
                    ChangeSideConditionInstruction {
                        side_ref: side_ref,
                        side_condition: PokemonSideCondition::ToxicSpikes,
                        amount: 1,
                    },
                ),
            ],
            weather,
            terrain,
            (toxic_spikes + 1) as i8,
        )
    } else if (defending_ability == Abilities::ROUGHSKIN || defending_ability
        == Abilities::IRONBARBS) && damage_dealt > 0 && choice.contact {
        let dmg = min_int(a.maxhp / 8, a.hp as int);
        (
            Pokemon { hp: (a.hp - dmg) as i16, ..a },
            seq![ability_damage(side_ref, dmg, side_ref.other(), defending_index, defending_ability)],
            weather,
            terrain,
            toxic_spikes,
        )
    } else if defending_ability == Abilities::SPICYSPRAY && damage_dealt > 0
        && !facts.attacker_immune_to_burn {
        if a.item == Items::LUMBERRY && facts.active_item_is_active && !facts.berries_blocked {
            (a, berry_instructions, weather, terrain, toxic_spikes)
        } else {
            (
                Pokemon { status: PokemonStatus::BURN, ..a },
                seq![
                    Instruction::ChangeStatus(
                        ChangeStatusInstruction {
                            side_ref: side_ref,
                            pokemon_index: attacking_index,
                            old_status: a.status,
                            new_status: PokemonStatus::BURN,
                        },
                    ),
                ],
                weather,
                terrain,
                toxic_spikes,
            )
        }
    } else if defending_ability == Abilities::AFTERMATH && damage_dealt > 0 && d.hp == 0
        && choice.contact {
        let dmg = min_int(a.maxhp / 4, a.hp as int);
        (
            Pokemon { hp: (a.hp - dmg) as i16, ..a },
            seq![ability_damage(side_ref, dmg, side_ref.other(), defending_index, defending_ability)],
            weather,
            terrain,
            toxic_spikes,
        )
    } else if defending_ability == Abilities::INNARDSOUT && damage_dealt > 0 && d.hp == 0 {
        let dmg = min_int(damage_dealt as int, a.hp as int);
        (
            Pokemon { hp: (a.hp - dmg) as i16, ..a },
            seq![ability_damage(side_ref, dmg, side_ref.other(), defending_index, defending_ability)],
            weather,
            terrain,
            toxic_spikes,
        )
    } else {
        none
    }
}

/// A side is doomed by perish body: its active pokemon stands, does not have
/// soundproof, and has no perish count yet.
pub open spec fn perish_body_applies(side: Side, soundproof: bool) -> bool {
    &&& side.active().hp != 0
    &&& !soundproof
    &&& !side.volatiles().contains(PokemonVolatileStatus::PERISH4)
    &&& !side.volatiles().contains(PokemonVolatileStatus::PERISH3)
    &&& !side.volatiles().contains(PokemonVolatileStatus::PERISH2)
    &&& !side.volatiles().contains(PokemonVolatileStatus::PERISH1)
}

/// The instructions of perish body on one side.
pub open spec fn perish_body_instructions(side: Side, side_ref: SideReference, soundproof: bool) -> Seq<
    Instruction,
> {
    if perish_body_applies(side, soundproof) {
        seq![apply_volatile(side_ref, PokemonVolatileStatus::PERISH4)]
    } else {
        Seq::empty()
    }
}

/// The smaller of two hp amounts.
fn smaller(a: i16, b: i16) -> (r: i16)
    ensures
        r == min_int(a as int, b as int),
{
    if a <= b {
        a
    } else {
        b
    }
}

/// The attacker's part, applied to the two active pokemon.
fn attacker_part_exec(
    a: Pokemon,
    d: Pokemon,
    side_ref: SideReference,
    active_ability: Abilities,
    defending_ability: Abilities,
    damage_dealt: i16,
    facts: HitFacts,
    attacker_boosts: Vec<Instruction>,
    instructions: &mut Vec<Instruction>,
) -> (r: (Pokemon, Pokemon))
    ensures
        ({
            let e = attacker_part(
                a,
                d,
                side_ref,
                active_ability,
                defending_ability,
                damage_dealt,
                facts,
                attacker_boosts@,
            );
            &&& r.0 == e.0
            &&& r.1 == e.1
            &&& final(instructions)@ == old(instructions)@ + e.2
        }),
{
    proof {
        reveal(attacker_part);
    }
    let ghost start = instructions@;
    let ghost boosts = attacker_boosts@;
    let mut attacker_boosts = attacker_boosts;
    let knockout_reward = active_ability == Abilities::BATTLEBOND || active_ability
        == Abilities::MOXIE || active_ability == Abilities::CHILLINGNEIGH || active_ability
        == Abilities::ASONEGLASTRIER || active_ability == Abilities::GRIMNEIGH || active_ability
        == Abilities::ASONESPECTRIER || active_ability == Abilities::BEASTBOOST;
    if knockout_reward && damage_dealt > 0 && d.hp == 0 {
        instructions.append(&mut attacker_boosts);
        assert(instructions@ =~= start + boosts);
        (a, d)
    } else if (active_ability == Abilities::MAGICIAN || active_ability == Abilities::PICKPOCKET)
        && damage_dealt > 0 && defending_ability != Abilities::STICKYHOLD
        && !facts.defending_item_is_permanent && a.item == Items::NONE {
        instructions.push(
            Instruction::ChangeItem(
                ChangeItemInstruction { side_ref, current_item: a.item, new_item: d.item },
            ),
        );
        instructions.push(
            Instruction::ChangeItem(
                ChangeItemInstruction {
                    side_ref: side_ref.get_other_side(),
                    current_item: d.item,
                    new_item: Items::NONE,
                },
            ),
        );
        let mut na = a;
        na.item = d.item;
        let mut nd = d;
        nd.item = Items::NONE;
        assert(instructions@ =~= start + seq![
            change_item(side_ref, a.item, d.item),
            change_item(side_ref.other(), d.item, Items::NONE),
        ]);
        (na, nd)
    } else {
        assert(instructions@ =~= start + Seq::<Instruction>::empty());
        (a, d)
    }
}

/// Records a change of a side's active pokemon's ability.
fn push_change_ability(
    side_ref: SideReference,
    from: Abilities,
    to: Abilities,
    instructions: &mut Vec<Instruction>,
)
    ensures
        final(instructions)@ == old(instructions)@.push(change_ability(side_ref, from, to)),
{
    instructions.push(
        Instruction::ChangeAbility(
            ChangeAbilityInstruction {
                side_ref,
                ability_change: ability_number(to) - ability_number(from),
            },
        ),
    );
}

/// Records damage that a defender's ability deals to the attacker.
fn push_ability_damage(
    target: SideReference,
    amount: i16,
    source_side: SideReference,
    source_index: PokemonIndex,
    ability: Abilities,
    instructions: &mut Vec<Instruction>,
)
    ensures
        final(instructions)@ == old(instructions)@.push(
            ability_damage(target, amount as int, source_side, source_index, ability),
        ),
{
    instructions.push(
        Instruction::DamageWithFaintContext(
            DamageWithFaintContextInstruction {
                side_ref: target,
                damage_amount: amount,
                faint_context: FaintContext::ability_effect(source_side, source_index, ability),
            },
        ),
    );
}

/// The defender's abilities that act on the two pokemon.
#[verifier::rlimit(80)]
fn defender_pokemon_exec(
    a: Pokemon,
    d: Pokemon,
    side_ref: SideReference,
    defending_index: PokemonIndex,
    defending_ability: Abilities,
    choice: Choice,
    damage_dealt: i16,
    facts: HitFacts,
    defender_boosts: Vec<Instruction>,
    instructions: &mut Vec<Instruction>,
) -> (r: (Pokemon, Pokemon, bool))
    requires
        defending_ability == Abilities::GULPMISSILE ==> valid_hp(a),
        defending_ability == Abilities::BERSERK ==> valid_hp(d),
    ensures
        ({
            let e = defender_pokemon_part(
                a,
                d,
                side_ref,
                defending_index,
                defending_ability,
                choice,
                damage_dealt,
                facts,
                defender_boosts@,
            );
            &&& r.0 == e.0
            &&& r.1 == e.1
            &&& r.2 == e.3
            &&& final(instructions)@ == old(instructions)@ + e.2
        }),
{
    proof {
        reveal(defender_pokemon_part);
    }
    let ghost start = instructions@;
    let ghost boosts = defender_boosts@;
    let ghost e = defender_pokemon_part(
        a,
        d,
        side_ref,
        defending_index,
        defending_ability,
        choice,
        damage_dealt,
        facts,
        defender_boosts@,
    );
    let mut defender_boosts = defender_boosts;
    let a_change = a.hp != 0 && !(facts.active_item_is_active && a.item == Items::ABILITYSHIELD);
    let d_change = d.hp != 0 && !(facts.defending_item_is_active && d.item
        == Items::ABILITYSHIELD);
    let other = side_ref.get_other_side();
    if defending_ability == Abilities::MUMMY || defending_ability == Abilities::LINGERINGAROMA {
        if choice.contact && a_change && a.ability != defending_ability
            && !ability_cannot_be_replaced_by_contact(a.ability) {
            push_change_ability(side_ref, a.ability, defending_ability, instructions);
            let mut na = a;
            na.ability = defending_ability;
            assert(instructions@ =~= start + e.2);
            return (na, d, false);
        }
    } else if defending_ability == Abilities::WANDERINGSPIRIT {
        if choice.contact && a_change && d_change && !ability_fails_skill_swap(a.ability)
            && !ability_fails_skill_swap(d.ability) {
            push_change_ability(side_ref, a.ability, d.ability, instructions);
            push_change_ability(other, d.ability, a.ability, instructions);
            let mut na = a;
            na.ability = d.ability;
            let mut nd = d;
            nd.ability = a.ability;
            assert(instructions@ =~= start + e.2);
            return (na, nd, false);
        }
    } else if defending_ability == Abilities::GULPMISSILE {
        if damage_dealt > 0 && (d.id == PokemonName::CRAMORANTGORGING || d.id
            == PokemonName::CRAMORANTGULPING) {
            instructions.push(
                Instruction::FormeChange(
                    FormeChangeInstruction {
                        side_ref: other,
                        name_change: PokemonName::CRAMORANT.number() - d.id.number(),
                    },
                ),
            );
            let dmg = smaller(a.maxhp / 4, a.hp);
            push_ability_damage(side_ref, dmg, other, defending_index, defending_ability, instructions);
            let mut na = a;
            na.hp = a.hp - dmg;
            let mut nd = d;
            nd.id = PokemonName::CRAMORANT;
            if d.id == PokemonName::CRAMORANTGULPING {
                instructions.append(&mut defender_boosts);
            }
            assert(instructions@ =~= start + e.2);
            return (na, nd, d.id == PokemonName::CRAMORANTGORGING);
        }
    } else if defending_ability == Abilities::COLORCHANGE {
        if damage_dealt > 0 && d.hp != 0 && !(d.type1 == choice.move_type || d.type2
            == choice.move_type) {
            instructions.push(
                Instruction::ChangeType(
                    ChangeType {
                        side_ref: other,
                        new_types: (choice.move_type, PokemonType::TYPELESS),
                        old_types: (d.type1, d.type2),
                    },
                ),
            );
            let mut nd = d;
            nd.type1 = choice.move_type;
            nd.type2 = PokemonType::TYPELESS;
            assert(instructions@ =~= start + e.2);
            return (a, nd, false);
        }
    } else if (defending_ability == Abilities::STAMINA && damage_dealt > 0 && d.hp != 0) || (
    defending_ability == Abilities::COTTONDOWN && damage_dealt > 0) || (defending_ability
        == Abilities::BERSERK && damage_dealt > 0 && d.hp < d.maxhp / 2 && (d.hp as i32)
        + (damage_dealt as i32) >= (d.maxhp / 2) as i32) {
        instructions.append(&mut defender_boosts);
        assert(instructions@ =~= start + boosts);
        return (a, d, false);
    }
    assert(instructions@ =~= start + e.2);
    (a, d, false)
}

/// The defender's abilities that hurt or burn the attacker or change the field.
#[verifier::rlimit(80)]
fn defender_field_exec(
    a: Pokemon,
    d: Pokemon,
    side_ref: SideReference,
    attacking_index: PokemonIndex,
    defending_index: PokemonIndex,
    defending_ability: Abilities,
    choice: Choice,
    damage_dealt: i16,
    facts: HitFacts,
    berry_instructions: Vec<Instruction>,
    weather: StateWeather,
    terrain: StateTerrain,
    toxic_spikes: i8,
    instructions: &mut Vec<Instruction>,
) -> (r: (Pokemon, StateWeather, StateTerrain, i8))
    requires
        reads_attacker_hp_range(defending_ability) ==> valid_hp(a),
    ensures
        ({
            let e = defender_field_part(
                a,
                d,
                side_ref,
                attacking_index,
                defending_index,
                defending_ability,
                choice,
                damage_dealt,
                facts,
                berry_instructions@,
                weather,
                terrain,
                toxic_spikes,
            );
            &&& r.0 == e.0
            &&& r.1 == e.2
            &&& r.2 == e.3
            &&& r.3 == e.4
            &&& final(instructions)@ == old(instructions)@ + e.1
        }),
{
    proof {
        reveal(defender_field_part);
    }
    let ghost start = instructions@;
    let ghost e = defender_field_part(
        a,
        d,
        side_ref,
        attacking_index,
        defending_index,
        defending_ability,
        choice,
        damage_dealt,
        facts,
        berry_instructions@,
        weather,
        terrain,
        toxic_spikes,
    );
    let mut berry_instructions = berry_instructions;
    let other = side_ref.get_other_side();
    if defending_ability == Abilities::SANDSPIT && damage_dealt > 0 && facts.sand_should_be_set {
        instructions.push(
            Instruction::ChangeWeather(
                ChangeWeather {
                    new_weather: Weather::SAND,
                    new_weather_turns_remaining: ABILITY_FIELD_TURNS,
                    previous_weather: weather.weather_type,
                    previous_weather_turns_remaining: weather.turns_remaining,
                },
            ),
        );
        assert(instructions@ =~= start + e.1);
        (
            a,
            StateWeather { weather_type: Weather::SAND, turns_remaining: ABILITY_FIELD_TURNS },
            terrain,
            toxic_spikes,
        )
    } else if defending_ability == Abilities::SEEDSOWER && damage_dealt > 0
        && facts.grassy_terrain_should_be_set {
        instructions.push(
            Instruction::ChangeTerrain(
                ChangeTerrain {
                    new_terrain: Terrain::GRASSYTERRAIN,
                    new_terrain_turns_remaining: ABILITY_FIELD_TURNS,
                    previous_terrain: terrain.terrain_type,
                    previous_terrain_turns_remaining: terrain.turns_remaining,
                },
            ),
        );
        assert(instructions@ =~= start + e.1);
        (
            a,
            weather,
            StateTerrain {
                terrain_type: Terrain::GRASSYTERRAIN,
                turns_remaining: ABILITY_FIELD_TURNS,
            },
            toxic_spikes,
        )
    } else if defending_ability == Abilities::TOXICDEBRIS && damage_dealt > 0 && choice.category
        == MoveCategory::Physical && toxic_spikes < 2 {
        instructions.push(
            Instruction::ChangeSideCondition(
                ChangeSideConditionInstruction {
                    side_ref,
                    side_condition: PokemonSideCondition::ToxicSpikes,
                    amount: 1,
                },
            ),
        );
        assert(instructions@ =~= start + e.1);
        (a, weather, terrain, toxic_spikes + 1)
    } else if (defending_ability == Abilities::ROUGHSKIN || defending_ability
        == Abilities::IRONBARBS) && damage_dealt > 0 && choice.contact {
        let dmg = smaller(a.maxhp / 8, a.hp);
        push_ability_damage(side_ref, dmg, other, defending_index, defending_ability, instructions);
        let mut na = a;
        na.hp = a.hp - dmg;
        assert(instructions@ =~= start + e.1);
        (na, weather, terrain, toxic_spikes)
    } else if defending_ability == Abilities::SPICYSPRAY && damage_dealt > 0
        && !facts.attacker_immune_to_burn {
        if a.item == Items::LUMBERRY && facts.active_item_is_active && !facts.berries_blocked {
            instructions.append(&mut berry_instructions);
            assert(instructions@ =~= start + e.1);
            (a, weather, terrain, toxic_spikes)
        } else {
            instructions.push(
                Instruction::ChangeStatus(
                    ChangeStatusInstruction {
                        side_ref,
                        pokemon_index: attacking_index,
                        old_status: a.status,
                        new_status: PokemonStatus::BURN,
                    },
                ),
            );
            let mut na = a;
            na.status = PokemonStatus::BURN;
            assert(instructions@ =~= start + e.1);
            (na, weather, terrain, toxic_spikes)
        }
    } else if defending_ability == Abilities::AFTERMATH && damage_dealt > 0 && d.hp == 0
        && choice.contact {
        let dmg = smaller(a.maxhp / 4, a.hp);
        push_ability_damage(side_ref, dmg, other, defending_index, defending_ability, instructions);
        let mut na = a;
        na.hp = a.hp - dmg;
        assert(instructions@ =~= start + e.1);
        (na, weather, terrain, toxic_spikes)
    } else if defending_ability == Abilities::INNARDSOUT && damage_dealt > 0 && d.hp == 0 {
        let dmg = smaller(damage_dealt, a.hp);
        push_ability_damage(side_ref, dmg, other, defending_index, defending_ability, instructions);
        let mut na = a;
        na.hp = a.hp - dmg;
        assert(instructions@ =~= start + e.1);
        (na, weather, terrain, toxic_spikes)
    } else {
        assert(instructions@ =~= start + e.1);
        (a, weather, terrain, toxic_spikes)
    }
}

/// Perish body on one side: its active pokemon starts a perish count of four,
/// recorded, unless it has fainted, has soundproof or already counts down.
fn perish_body_on(
    side: &mut Side,
    side_ref: SideReference,
    soundproof: bool,
    instructions: &mut Vec<Instruction>,
)
    requires
        old(side).wf(),
    ensures
        final(side).wf(),
        final(side).pokemon == old(side).pokemon,
        final(side).active_index == old(side).active_index,
        final(side).side_conditions == old(side).side_conditions,
        final(side).speed_boost == old(side).speed_boost,
        perish_body_applies(*old(side), soundproof) ==> final(side).volatiles() == old(
            side,
        ).volatiles().insert(PokemonVolatileStatus::PERISH4),
        !perish_body_applies(*old(side), soundproof) ==> final(side).volatile_statuses == old(
            side,
        ).volatile_statuses,
        final(instructions)@ == old(instructions)@ + perish_body_instructions(
            *old(side),
            side_ref,
            soundproof,
        ),
{
    let ghost start = instructions@;
    if side.get_active_immutable().hp != 0 && !soundproof && !(side.has_volatile(
        PokemonVolatileStatus::PERISH4,
    ) || side.has_volatile(PokemonVolatileStatus::PERISH3) || side.has_volatile(
        PokemonVolatileStatus::PERISH2,
    ) || side.has_volatile(PokemonVolatileStatus::PERISH1)) {
        instructions.push(
            Instruction::ApplyVolatileStatus(
                ApplyVolatileStatusInstruction {
                    side_ref,
                    volatile_status: PokemonVolatileStatus::PERISH4,
                },
            ),
        );
        side.add_volatile(PokemonVolatileStatus::PERISH4);
        assert(instructions@ =~= start + seq![
            apply_volatile(side_ref, PokemonVolatileStatus::PERISH4),
        ]);
    } else {
        assert(instructions@ =~= start + Seq::<Instruction>::empty());
    }
}

/// Electromorphosis (or wind power, on a wind move) charges the defender: the
/// move dealt damage and the defender still stands.
pub open spec fn charges_defender(
    defending_ability: Abilities,
    choice: Choice,
    damage_dealt: i16,
    d: Pokemon,
) -> bool {
    &&& (defending_ability == Abilities::ELECTROMORPHOSIS || (defending_ability
        == Abilities::WINDPOWER && choice.wind))
    &&& damage_dealt > 0
    &&& d.hp != 0
}

/// Perish body acts: a contact move dealt damage.
pub open spec fn perish_body_acts(defending_ability: Abilities, choice: Choice, damage_dealt: i16) -> bool {
    defending_ability == Abilities::PERISHBODY && damage_dealt > 0 && choice.contact
}

/// Perish body's instructions on both sides, side one first.
pub open spec fn perish_instructions_both(
    attacking: Side,
    defending: Side,
    side_ref: SideReference,
    attacker_soundproof: bool,
) -> Seq<Instruction> {
    match side_ref {
        SideReference::SideOne => perish_body_instructions(
            attacking,
            SideReference::SideOne,
            attacker_soundproof,
        ) + perish_body_instructions(defending, SideReference::SideTwo, false),
        SideReference::SideTwo => perish_body_instructions(defending, SideReference::SideOne, false)
            + perish_body_instructions(attacking, SideReference::SideTwo, attacker_soundproof),
    }
}

/// The defender's part, after the attacker's: the attacker and defender
/// afterwards, the instructions, the weather, the terrain, the attacker's side's
/// layers of toxic spikes, and whether the move gains a sure paralysis of the
/// attacker.
pub open spec fn defender_part(
    attacking: Side,
    defending: Side,
    side_ref: SideReference,
    a: Pokemon,
    d: Pokemon,
    active_ability: Abilities,
    defending_ability: Abilities,
    choice: Choice,
    damage_dealt: i16,
    facts: HitFacts,
    defender_boosts: Seq<Instruction>,
    berry_instructions: Seq<Instruction>,
    weather: StateWeather,
    terrain: StateTerrain,
) -> (Pokemon, Pokemon, Seq<Instruction>, StateWeather, StateTerrain, i8, bool) {
    let toxic_spikes = attacking.side_conditions.toxic_spikes;
    if defending_ability == Abilities::ELECTROMORPHOSIS || defending_ability
        == Abilities::WINDPOWER {
        (
            a,
            d,
            if charges_defender(defending_ability, choice, damage_dealt, d) && charge_applies(
                defending,
            ) {
                seq![apply_volatile(side_ref.other(), PokemonVolatileStatus::CHARGE)]
            } else {
                Seq::empty()
            },
            weather,
            terrain,
            toxic_spikes,
            false,
        )
    } else if defending_ability == Abilities::PERISHBODY {
        (
            a,
            d,
            if perish_body_acts(defending_ability, choice, damage_dealt) {
                perish_instructions_both(
                    attacking,
                    defending,
                    side_ref,
                    active_ability == Abilities::SOUNDPROOF,
                )
            } else {
                Seq::empty()
            },
            weather,
            terrain,
            toxic_spikes,
            false,
        )
    } else if acts_on_pokemon(defending_ability) {
        let e = defender_pokemon_part(
            a,
            d,
            side_ref,
            defending.active_index,
            defending_ability,
            choice,
            damage_dealt,
            facts,
            defender_boosts,
        );
        (e.0, e.1, e.2, weather, terrain, toxic_spikes, e.3)
    } else {
        let e = defender_field_part(
            a,
            d,
            side_ref,
            attacking.active_index,
            defending.active_index,
            defending_ability,
            choice,
            damage_dealt,
            facts,
            berry_instructions,
            weather,
            terrain,
            toxic_spikes,
        );
        (e.0, d, e.1, e.2, e.3, e.4, false)
    }
}

/// How much a recorded instruction moves a side's speed boost.
pub open spec fn speed_boost_of(i: Instruction, side_ref: SideReference) -> int {
    match i {
        Instruction::Boost(b) => if b.side_ref == side_ref && b.stat
            == PokemonBoostableStat::Speed {
            b.amount as int
        } else {
            0
        },
        _ => 0,
    }
}

/// How much the recorded instructions move a side's speed boost, added up.
pub open spec fn speed_change(ins: Seq<Instruction>, side_ref: SideReference) -> int
    decreases ins.len(),
{
    if ins.len() == 0 {
        0
    } else {
        speed_change(ins.drop_last(), side_ref) + speed_boost_of(ins.last(), side_ref)
    }
}

/// The ability acting for the attacker.
pub open spec fn hit_attacker_ability(att: Side, facts: HitFacts) -> Abilities {
    if facts.active_ability_is_suppressed {
        Abilities::NONE
    } else {
        att.active().ability
    }
}

/// The ability acting for the defender.
pub open spec fn hit_defender_ability(def: Side, facts: HitFacts) -> Abilities {
    if facts.defending_ability_is_suppressed {
        Abilities::NONE
    } else {
        def.active().ability
    }
}

/// The instructions a hit records: the attacker's part, then the defender's.
pub open spec fn after_hit_records(
    att: Side,
    def: Side,
    weather: StateWeather,
    terrain: StateTerrain,
    side_ref: SideReference,
    choice: Choice,
    damage_dealt: i16,
    facts: HitFacts,
    attacker_boosts: Seq<Instruction>,
    defender_boosts: Seq<Instruction>,
    berry_instructions: Seq<Instruction>,
) -> Seq<Instruction> {
    let aab = hit_attacker_ability(att, facts);
    let dab = hit_defender_ability(def, facts);
    let first = attacker_part(
        att.active(),
        def.active(),
        side_ref,
        aab,
        dab,
        damage_dealt,
        facts,
        attacker_boosts,
    );
    let second = defender_part(
        att,
        def,
        side_ref,
        first.0,
        first.1,
        aab,
        dab,
        choice,
        damage_dealt,
        facts,
        defender_boosts,
        berry_instructions,
        weather,
        terrain,
    );
    first.2 + second.2
}

/// The defender's abilities whose arithmetic reads the attacker's hp against
/// its maximum.
pub open spec fn reads_attacker_hp_range(defending_ability: Abilities) -> bool {
    ||| defending_ability == Abilities::GULPMISSILE
    ||| defending_ability == Abilities::ROUGHSKIN
    ||| defending_ability == Abilities::IRONBARBS
    ||| defending_ability == Abilities::AFTERMATH
}

/// What a hit asks of the state before it: the hp that the acting ability's
/// arithmetic reads lies in range, and the recorded speed changes leave each
/// side's speed boost within its type.
pub open spec fn after_hit_ready(
    att: Side,
    def: Side,
    weather: StateWeather,
    terrain: StateTerrain,
    side_ref: SideReference,
    choice: Choice,
    damage_dealt: i16,
    facts: HitFacts,
    attacker_boosts: Seq<Instruction>,
    defender_boosts: Seq<Instruction>,
    berry_instructions: Seq<Instruction>,
) -> bool {
    let dab = hit_defender_ability(def, facts);
    let records = after_hit_records(
        att,
        def,
        weather,
        terrain,
        side_ref,
        choice,
        damage_dealt,
        facts,
        attacker_boosts,
        defender_boosts,
        berry_instructions,
    );
    &&& reads_attacker_hp_range(dab) ==> valid_hp(att.active())
    &&& dab == Abilities::BERSERK ==> valid_hp(def.active())
    &&& i8::MIN <= att.speed_boost + speed_change(records, side_ref) <= i8::MAX
    &&& i8::MIN <= def.speed_boost + speed_change(records, side_ref.other()) <= i8::MAX
}

/// What a hit does, speed boosts aside, as a relation between the sides, the
/// field and the instructions before and after it: the attacker's part, then the
/// defender's, with the side changes that the volatile statuses record.
pub open spec fn after_hit_effect(
    att0: Side,
    def0: Side,
    weather0: StateWeather,
    terrain0: StateTerrain,
    instructions0: Seq<Instruction>,
    att1: Side,
    def1: Side,
    weather1: StateWeather,
    terrain1: StateTerrain,
    instructions1: Seq<Instruction>,
    paralysis: bool,
    side_ref: SideReference,
    choice: Choice,
    damage_dealt: i16,
    facts: HitFacts,
    attacker_boosts: Seq<Instruction>,
    defender_boosts: Seq<Instruction>,
    berry_instructions: Seq<Instruction>,
) -> bool {
    let att = att0;
    let def = def0;
    let aab = if facts.active_ability_is_suppressed {
        Abilities::NONE
    } else {
        att.active().ability
    };
    let dab = if facts.defending_ability_is_suppressed {
        Abilities::NONE
    } else {
        def.active().ability
    };
    let first = attacker_part(
        att.active(),
        def.active(),
        side_ref,
        aab,
        dab,
        damage_dealt,
        facts,
        attacker_boosts,
    );
    let second = defender_part(
        att,
        def,
        side_ref,
        first.0,
        first.1,
        aab,
        dab,
        choice,
        damage_dealt,
        facts,
        defender_boosts,
        berry_instructions,
        weather0,
        terrain0,
    );
    &&& paralysis == second.6
    &&& att1.wf()
    &&& def1.wf()
    &&& att1.pokemon@ == att.pokemon@.update(
        att.active_index.spec_position(),
        second.0,
    )
    &&& def1.pokemon@ == def.pokemon@.update(
        def.active_index.spec_position(),
        second.1,
    )
    &&& instructions1 == instructions0 + first.2 + second.2
    &&& weather1 == second.3
    &&& terrain1 == second.4
    &&& att1.side_conditions == (SideConditions { toxic_spikes: second.5, ..att.side_conditions })
    &&& att1.active_index == att.active_index
    &&& def1.active_index == def.active_index
    &&& def1.side_conditions == def.side_conditions
    &&& (perish_body_acts(dab, choice, damage_dealt) && perish_body_applies(
        att,
        aab == Abilities::SOUNDPROOF,
    )) ==> att1.volatiles() == att.volatiles().insert(
        PokemonVolatileStatus::PERISH4,
    )
    &&& !(perish_body_acts(dab, choice, damage_dealt) && perish_body_applies(
        att,
        aab == Abilities::SOUNDPROOF,
    )) ==> att1.volatile_statuses == att.volatile_statuses
    &&& (perish_body_acts(dab, choice, damage_dealt) && perish_body_applies(def, false))
        ==> def1.volatiles() == def.volatiles().insert(
        PokemonVolatileStatus::PERISH4,
    )
    &&& (charges_defender(dab, choice, damage_dealt, def.active()) && charge_applies(def))
        ==> def1.volatiles() == def.volatiles().insert(
        PokemonVolatileStatus::CHARGE,
    )
    &&& !(perish_body_acts(dab, choice, damage_dealt) && perish_body_applies(def, false))
        && !(charges_defender(dab, choice, damage_dealt, def.active()) && charge_applies(
        def,
    )) ==> def1.volatile_statuses == def.volatile_statuses
}

/// A side with its speed boost set aside.
pub open spec fn sans_speed(side: Side) -> Side {
    Side { speed_boost: 0, ..side }
}

/// What a hit does: its effect on everything but the speed boosts, and each
/// side's speed boost moved by the speed boosts that the hit recorded for it.
pub open spec fn after_hit_outcome(
    att0: Side,
    def0: Side,
    weather0: StateWeather,
    terrain0: StateTerrain,
    instructions0: Seq<Instruction>,
    att1: Side,
    def1: Side,
    weather1: StateWeather,
    terrain1: StateTerrain,
    instructions1: Seq<Instruction>,
    paralysis: bool,
    side_ref: SideReference,
    choice: Choice,
    damage_dealt: i16,
    facts: HitFacts,
    attacker_boosts: Seq<Instruction>,
    defender_boosts: Seq<Instruction>,
    berry_instructions: Seq<Instruction>,
) -> bool {
    let recorded = instructions1.subrange(instructions0.len() as int, instructions1.len() as int);
    &&& after_hit_effect(
        att0,
        def0,
        weather0,
        terrain0,
        instructions0,
        sans_speed(att1),
        sans_speed(def1),
        weather1,
        terrain1,
        instructions1,
        paralysis,
        side_ref,
        choice,
        damage_dealt,
        facts,
        attacker_boosts,
        defender_boosts,
        berry_instructions,
    )
    &&& att1.speed_boost == att0.speed_boost + speed_change(recorded, side_ref)
    &&& def1.speed_boost == def0.speed_boost + speed_change(recorded, side_ref.other())
}

/// The effect of a hit records exactly the hit's instructions.
proof fn lemma_effect_records(
    att0: Side,
    def0: Side,
    weather0: StateWeather,
    terrain0: StateTerrain,
    instructions0: Seq<Instruction>,
    att1: Side,
    def1: Side,
    weather1: StateWeather,
    terrain1: StateTerrain,
    instructions1: Seq<Instruction>,
    paralysis: bool,
    side_ref: SideReference,
    choice: Choice,
    damage_dealt: i16,
    facts: HitFacts,
    attacker_boosts: Seq<Instruction>,
    defender_boosts: Seq<Instruction>,
    berry_instructions: Seq<Instruction>,
)
    requires
        after_hit_effect(
            att0,
            def0,
            weather0,
            terrain0,
            instructions0,
            att1,
            def1,
            weather1,
            terrain1,
            instructions1,
            paralysis,
            side_ref,
            choice,
            damage_dealt,
            facts,
            attacker_boosts,
            defender_boosts,
            berry_instructions,
        ),
    ensures
        instructions1 == instructions0 + after_hit_records(
            att0,
            def0,
            weather0,
            terrain0,
            side_ref,
            choice,
            damage_dealt,
            facts,
            attacker_boosts,
            defender_boosts,
            berry_instructions,
        ),
{
}

/// How much the instructions recorded from position `from` on move a side's
/// speed boost.
pub(crate) fn recorded_speed_change(ins: &Vec<Instruction>, from: usize, side_ref: SideReference) -> (r: i128)
    requires
        from <= ins@.len(),
    ensures
        r == speed_change(ins@.subrange(from as int, ins@.len() as int), side_ref),
{
    let mut acc: i128 = 0;
    let mut i: usize = from;
    assert(ins@.subrange(from as int, from as int) =~= Seq::<Instruction>::empty());
    while i < ins.len()
        invariant
            from <= i <= ins@.len(),
            acc == speed_change(ins@.subrange(from as int, i as int), side_ref),
            -128 * (i - from) <= acc <= 127 * (i - from),
        decreases ins@.len() - i,
    {
        let amount: i8 = match &ins[i] {
            Instruction::Boost(b) => if b.side_ref == side_ref && b.stat
                == PokemonBoostableStat::Speed {
                b.amount
            } else {
                0
            },
            _ => 0,
        };
        proof {
            let next = ins@.subrange(from as int, i + 1);
            assert(next.drop_last() =~= ins@.subrange(from as int, i as int));
            assert(next.last() == ins@[i as int]);
        }
        acc = acc + amount as i128;
        i = i + 1;
    }
    acc
}

/// The defender's part reads of the two sides only their conditions, slots,
/// volatile statuses and active hp.
proof fn lemma_defender_part_reads(
    att: Side,
    def: Side,
    att2: Side,
    def2: Side,
    side_ref: SideReference,
    a: Pokemon,
    d: Pokemon,
    active_ability: Abilities,
    defending_ability: Abilities,
    choice: Choice,
    damage_dealt: i16,
    facts: HitFacts,
    defender_boosts: Seq<Instruction>,
    berry_instructions: Seq<Instruction>,
    weather: StateWeather,
    terrain: StateTerrain,
)
    requires
        att2.side_conditions == att.side_conditions,
        att2.active_index == att.active_index,
        att2.volatile_statuses == att.volatile_statuses,
        att2.active().hp == att.active().hp,
        def2.side_conditions == def.side_conditions,
        def2.active_index == def.active_index,
        def2.volatile_statuses == def.volatile_statuses,
        def2.active().hp == def.active().hp,
    ensures
        defender_part(
            att2,
            def2,
            side_ref,
            a,
            d,
            active_ability,
            defending_ability,
            choice,
            damage_dealt,
            facts,
            defender_boosts,
            berry_instructions,
            weather,
            terrain,
        ) == defender_part(
            att,
            def,
            side_ref,
            a,
            d,
            active_ability,
            defending_ability,
            choice,
            damage_dealt,
            facts,
            defender_boosts,
            berry_instructions,
            weather,
            terrain,
        ),
        perish_body_applies(att2, active_ability == Abilities::SOUNDPROOF) == perish_body_applies(
            att,
            active_ability == Abilities::SOUNDPROOF,
        ),
        perish_body_applies(def2, false) == perish_body_applies(def, false),
        charge_applies(def2) == charge_applies(def),
{
}

/// The defender's part on both sides, after the attacker's part.
#[verifier::rlimit(100)]
#[verifier::spinoff_prover]
fn after_hit_defender(
    attacking: &mut Side,
    defending: &mut Side,
    weather: &mut StateWeather,
    terrain: &mut StateTerrain,
    side_ref: SideReference,
    active_ability: Abilities,
    defending_ability: Abilities,
    choice: Choice,
    damage_dealt: i16,
    facts: HitFacts,
    defender_boosts: Vec<Instruction>,
    berry_instructions: Vec<Instruction>,
    instructions: &mut Vec<Instruction>,
) -> (paralysis: bool)
    requires
        old(attacking).wf(),
        old(defending).wf(),
        reads_attacker_hp_range(defending_ability) ==> valid_hp(old(attacking).active()),
        defending_ability == Abilities::BERSERK ==> valid_hp(old(defending).active()),
    ensures
        ({
            let att = *old(attacking);
            let def = *old(defending);
            let second = defender_part(
                att,
                def,
                side_ref,
                att.active(),
                def.active(),
                active_ability,
                defending_ability,
                choice,
                damage_dealt,
                facts,
                defender_boosts@,
                berry_instructions@,
                *old(weather),
                *old(terrain),
            );
            &&& paralysis == second.6
            &&& final(attacking).wf()
            &&& final(defending).wf()
            &&& final(attacking).pokemon@ == att.pokemon@.update(
                att.active_index.spec_position(),
                second.0,
            )
            &&& final(defending).pokemon@ == def.pokemon@.update(
                def.active_index.spec_position(),
                second.1,
            )
            &&& final(instructions)@ == old(instructions)@ + second.2
            &&& *final(weather) == second.3
            &&& *final(terrain) == second.4
            &&& final(attacking).side_conditions == (SideConditions {
                toxic_spikes: second.5,
                ..att.side_conditions
            })
            &&& final(attacking).active_index == att.active_index
            &&& final(defending).active_index == def.active_index
            &&& final(attacking).speed_boost == att.speed_boost
            &&& final(defending).speed_boost == def.speed_boost
            &&& final(defending).side_conditions == def.side_conditions
            &&& (perish_body_acts(defending_ability, choice, damage_dealt) && perish_body_applies(
                att,
                active_ability == Abilities::SOUNDPROOF,
            )) ==> final(attacking).volatiles() == att.volatiles().insert(
                PokemonVolatileStatus::PERISH4,
            )
            &&& !(perish_body_acts(defending_ability, choice, damage_dealt) && perish_body_applies(
                att,
                active_ability == Abilities::SOUNDPROOF,
            )) ==> final(attacking).volatile_statuses == att.volatile_statuses
            &&& (perish_body_acts(defending_ability, choice, damage_dealt) && perish_body_applies(
                def,
                false,
            )) ==> final(defending).volatiles() == def.volatiles().insert(
                PokemonVolatileStatus::PERISH4,
            )
            &&& (charges_defender(defending_ability, choice, damage_dealt, def.active())
                && charge_applies(def)) ==> final(defending).volatiles() == def.volatiles().insert(
                PokemonVolatileStatus::CHARGE,
            )
            &&& !(perish_body_acts(defending_ability, choice, damage_dealt) && perish_body_applies(
                def,
                false,
            )) && !(charges_defender(defending_ability, choice, damage_dealt, def.active())
                && charge_applies(def)) ==> final(defending).volatile_statuses
                == def.volatile_statuses
        }),
{
    let ghost start = instructions@;
    let ghost att = *attacking;
    let ghost def = *defending;
    let a1 = *attacking.get_active_immutable();
    let d1 = *defending.get_active_immutable();
    let other = side_ref.get_other_side();
    let paralysis = if defending_ability == Abilities::ELECTROMORPHOSIS || defending_ability
        == Abilities::WINDPOWER {
        if damage_dealt > 0 && d1.hp != 0 && (defending_ability == Abilities::ELECTROMORPHOSIS
            || choice.wind) {
            apply_charge_volatile(defending, other, instructions);
        }
        false
    } else if defending_ability == Abilities::PERISHBODY {
        if damage_dealt > 0 && choice.contact {
            let attacker_soundproof = active_ability == Abilities::SOUNDPROOF;
            match side_ref {
                SideReference::SideOne => {
                    perish_body_on(attacking, SideReference::SideOne, attacker_soundproof, instructions);
                    perish_body_on(defending, SideReference::SideTwo, false, instructions);
                },
                SideReference::SideTwo => {
                    perish_body_on(defending, SideReference::SideOne, false, instructions);
                    perish_body_on(attacking, SideReference::SideTwo, attacker_soundproof, instructions);
                },
            }
        }
        false
    } else if defending_ability == Abilities::MUMMY || defending_ability
        == Abilities::LINGERINGAROMA || defending_ability == Abilities::WANDERINGSPIRIT
        || defending_ability == Abilities::GULPMISSILE || defending_ability
        == Abilities::COLORCHANGE || defending_ability == Abilities::STAMINA
        || defending_ability == Abilities::COTTONDOWN || defending_ability == Abilities::BERSERK {
        let (a2, d2, par) = defender_pokemon_exec(
            a1,
            d1,
            side_ref,
            defending.active_index,
            defending_ability,
            choice,
            damage_dealt,
            facts,
            defender_boosts,
            instructions,
        );
        attacking.set_active(a2);
        defending.set_active(d2);
        par
    } else {
        let (a2, w2, t2, tox2) = defender_field_exec(
            a1,
            d1,
            side_ref,
            attacking.active_index,
            defending.active_index,
            defending_ability,
            choice,
            damage_dealt,
            facts,
            berry_instructions,
            *weather,
            *terrain,
            attacking.side_conditions.toxic_spikes,
            instructions,
        );
        attacking.set_active(a2);
        *weather = w2;
        *terrain = t2;
        attacking.side_conditions.toxic_spikes = tox2;
        false
    };
    proof {
        assert(attacking.pokemon@ =~= att.pokemon@.update(
            att.active_index.spec_position(),
            attacking.active(),
        ));
        assert(defending.pokemon@ =~= def.pokemon@.update(
            def.active_index.spec_position(),
            defending.active(),
        ));
    }
    paralysis
}

/// Both sides and the field after a hit, speed boosts aside.
#[verifier::rlimit(100)]
#[verifier::spinoff_prover]
fn after_hit_sides_core(
    attacking: &mut Side,
    defending: &mut Side,
    weather: &mut StateWeather,
    terrain: &mut StateTerrain,
    side_ref: SideReference,
    choice: Choice,
    damage_dealt: i16,
    facts: HitFacts,
    attacker_boosts: Vec<Instruction>,
    defender_boosts: Vec<Instruction>,
    berry_instructions: Vec<Instruction>,
    instructions: &mut Vec<Instruction>,
) -> (paralysis: bool)
    requires
        old(attacking).wf(),
        old(defending).wf(),
        reads_attacker_hp_range(hit_defender_ability(*old(defending), facts)) ==> valid_hp(
            old(attacking).active(),
        ),
        hit_defender_ability(*old(defending), facts) == Abilities::BERSERK ==> valid_hp(
            old(defending).active(),
        ),
    ensures
        final(attacking).speed_boost == old(attacking).speed_boost,
        final(defending).speed_boost == old(defending).speed_boost,
        after_hit_effect(
            *old(attacking),
            *old(defending),
            *old(weather),
            *old(terrain),
            old(instructions)@,
            sans_speed(*final(attacking)),
            sans_speed(*final(defending)),
            *final(weather),
            *final(terrain),
            final(instructions)@,
            paralysis,
            side_ref,
            choice,
            damage_dealt,
            facts,
            attacker_boosts@,
            defender_boosts@,
            berry_instructions@,
        ),
{
    let ghost start = instructions@;
    let ghost att = *attacking;
    let ghost def = *defending;
    let ghost ab0 = attacker_boosts@;
    let ghost db0 = defender_boosts@;
    let ghost bi0 = berry_instructions@;
    let ghost w0 = *weather;
    let ghost t0 = *terrain;
    let a = *attacking.get_active_immutable();
    let d = *defending.get_active_immutable();
    let active_ability = if facts.active_ability_is_suppressed {
        Abilities::NONE
    } else {
        a.ability
    };
    let defending_ability = if facts.defending_ability_is_suppressed {
        Abilities::NONE
    } else {
        d.ability
    };
    let (a1, d1) = attacker_part_exec(
        a,
        d,
        side_ref,
        active_ability,
        defending_ability,
        damage_dealt,
        facts,
        attacker_boosts,
        instructions,
    );
    proof {
        lemma_attacker_part_moves_items(
            a,
            d,
            side_ref,
            active_ability,
            defending_ability,
            damage_dealt,
            facts,
            ab0,
        );
    }
    attacking.set_active(a1);
    defending.set_active(d1);
    let ghost att_mid = *attacking;
    let ghost def_mid = *defending;
    let paralysis = after_hit_defender(
        attacking,
        defending,
        weather,
        terrain,
        side_ref,
        active_ability,
        defending_ability,
        choice,
        damage_dealt,
        facts,
        defender_boosts,
        berry_instructions,
        instructions,
    );
    proof {
        lemma_defender_part_reads(
            att,
            def,
            att_mid,
            def_mid,
            side_ref,
            a1,
            d1,
            active_ability,
            defending_ability,
            choice,
            damage_dealt,
            facts,
            db0,
            bi0,
            w0,
            t0,
        );
        assert(attacking.pokemon@ =~= att.pokemon@.update(
            att.active_index.spec_position(),
            attacking.active(),
        ));
        assert(defending.pokemon@ =~= def.pokemon@.update(
            def.active_index.spec_position(),
            defending.active(),
        ));
        let first = attacker_part(
            a,
            d,
            side_ref,
            active_ability,
            defending_ability,
            damage_dealt,
            facts,
            ab0,
        );
        let second = defender_part(
            att,
            def,
            side_ref,
            first.0,
            first.1,
            active_ability,
            defending_ability,
            choice,
            damage_dealt,
            facts,
            db0,
            bi0,
            w0,
            t0,
        );
        assert(instructions@ =~= start + first.2 + second.2);
    }
    paralysis
}

/// Both sides and the field after a hit, with the speed boosts that the hit
/// recorded applied to the sides.
fn after_hit_sides(
    attacking: &mut Side,
    defending: &mut Side,
    weather: &mut StateWeather,
    terrain: &mut StateTerrain,
    side_ref: SideReference,
    choice: Choice,
    damage_dealt: i16,
    facts: HitFacts,
    attacker_boosts: Vec<Instruction>,
    defender_boosts: Vec<Instruction>,
    berry_instructions: Vec<Instruction>,
    instructions: &mut Vec<Instruction>,
) -> (paralysis: bool)
    requires
        old(attacking).wf(),
        old(defending).wf(),
        after_hit_ready(
            *old(attacking),
            *old(defending),
            *old(weather),
            *old(terrain),
            side_ref,
            choice,
            damage_dealt,
            facts,
            attacker_boosts@,
            defender_boosts@,
            berry_instructions@,
        ),
    ensures
        after_hit_outcome(
            *old(attacking),
            *old(defending),
            *old(weather),
            *old(terrain),
            old(instructions)@,
            *final(attacking),
            *final(defending),
            *final(weather),
            *final(terrain),
            final(instructions)@,
            paralysis,
            side_ref,
            choice,
            damage_dealt,
            facts,
            attacker_boosts@,
            defender_boosts@,
            berry_instructions@,
        ),
{
    let start_len = instructions.len();
    let ghost ins0 = instructions@;
    let ghost att0 = *attacking;
    let ghost def0 = *defending;
    let ghost w0 = *weather;
    let ghost t0 = *terrain;
    let ghost ab0 = attacker_boosts@;
    let ghost db0 = defender_boosts@;
    let ghost bi0 = berry_instructions@;
    let paralysis = after_hit_sides_core(
        attacking,
        defending,
        weather,
        terrain,
        side_ref,
        choice,
        damage_dealt,
        facts,
        attacker_boosts,
        defender_boosts,
        berry_instructions,
        instructions,
    );
    let ghost att_mid = *attacking;
    let ghost def_mid = *defending;
    proof {
        lemma_effect_records(
            att0,
            def0,
            w0,
            t0,
            ins0,
            sans_speed(att_mid),
            sans_speed(def_mid),
            *weather,
            *terrain,
            instructions@,
            paralysis,
            side_ref,
            choice,
            damage_dealt,
            facts,
            ab0,
            db0,
            bi0,
        );
        let records = after_hit_records(
            att0,
            def0,
            w0,
            t0,
            side_ref,
            choice,
            damage_dealt,
            facts,
            ab0,
            db0,
            bi0,
        );
        assert(instructions@.subrange(start_len as int, instructions@.len() as int) =~= records);
    }
    let other = side_ref.get_other_side();
    let attacker_change = recorded_speed_change(instructions, start_len, side_ref);
    let defender_change = recorded_speed_change(instructions, start_len, other);
    attacking.speed_boost = (attacking.speed_boost as i128 + attacker_change) as i8;
    defending.speed_boost = (defending.speed_boost as i128 + defender_change) as i8;
    proof {
        assert(sans_speed(*attacking) == sans_speed(att_mid));
        assert(sans_speed(*defending) == sans_speed(def_mid));
    }
    paralysis
}

/// What abilities do after a side's active pokemon has hit with a move.
/// The attacker's ability acts first: battle bond, moxie, chilling neigh, grim
/// neigh, as one and beast boost boost it after a knockout (the instructions of
/// those boosts are given); magician and pickpocket take the defender's item
/// when the attacker holds none and the item can be taken (no sticky hold, not
/// permanent). Then the defender's: mummy and lingering aroma pass themselves to
/// a contact attacker, wandering spirit swaps abilities (abilities shielded by an
/// active ability shield, or of a fainted pokemon, stay); electromorphosis and
/// wind power charge the defender; gulp missile spits its catch, a quarter of the
/// attacker's maximum hp, lowering its defense (the boost's instructions are
/// given) or paralyzing it, which the result reports; color change takes the
/// move's type; stamina, cotton down and berserk boost (given); sand spit and
/// seed sower set sand and grassy terrain for five turns; toxic debris lays
/// toxic spikes; rough skin and iron barbs take an eighth, aftermath a quarter
/// and innards out the damage dealt from the attacker; spicy spray burns it (or
/// makes it eat its lum berry, whose instructions are given); perish body starts
/// a perish count on both sides. What the rest of an engine knows of the hit is
/// given in `facts`.
pub fn ability_after_damage_hit(
    state: &mut State,
    choice: &Choice,
    side_ref: &SideReference,
    damage_dealt: i16,
    instructions: &mut Vec<Instruction>,
    facts: HitFacts,
    attacker_boosts: Vec<Instruction>,
    defender_boosts: Vec<Instruction>,
    berry_instructions: Vec<Instruction>,
) -> (paralysis: bool)
    requires
        old(state).wf(),
        after_hit_ready(
            old(state).side(*side_ref),
            old(state).side(side_ref.other()),
            old(state).weather,
            old(state).terrain,
            *side_ref,
            *choice,
            damage_dealt,
            facts,
            attacker_boosts@,
            defender_boosts@,
            berry_instructions@,
        ),
    ensures
        final(state).wf(),
        after_hit_outcome(
            old(state).side(*side_ref),
            old(state).side(side_ref.other()),
            old(state).weather,
            old(state).terrain,
            old(instructions)@,
            final(state).side(*side_ref),
            final(state).side(side_ref.other()),
            final(state).weather,
            final(state).terrain,
            final(instructions)@,
            paralysis,
            *side_ref,
            *choice,
            damage_dealt,
            facts,
            attacker_boosts@,
            defender_boosts@,
            berry_instructions@,
        ),
{
    match side_ref {
        SideReference::SideOne => after_hit_sides(
            &mut state.side_one,
            &mut state.side_two,
            &mut state.weather,
            &mut state.terrain,
            *side_ref,
            *choice,
            damage_dealt,
            facts,
            attacker_boosts,
            defender_boosts,
            berry_instructions,
            instructions,
        ),
        SideReference::SideTwo => after_hit_sides(
            &mut state.side_two,
            &mut state.side_one,
            &mut state.weather,
            &mut state.terrain,
            *side_ref,
            *choice,
            damage_dealt,
            facts,
            attacker_boosts,
            defender_boosts,
            berry_instructions,
            instructions,
        ),
    }
}

/// What a hit does to the attacker's hp. Only gulp missile, rough skin, iron
/// barbs, aftermath and innards out take it, and only when the move dealt
/// damage; rough skin, iron barbs and aftermath need contact; aftermath and
/// innards out need the defender knocked out, and while it stands aftermath
/// records no damage at all. Aftermath takes a quarter of the attacker's
/// maximum hp, no more than it has.
pub proof fn law_attacker_hp_after_hit(
    att0: Side,
    def0: Side,
    weather0: StateWeather,
    terrain0: StateTerrain,
    instructions0: Seq<Instruction>,
    att1: Side,
    def1: Side,
    weather1: StateWeather,
    terrain1: StateTerrain,
    instructions1: Seq<Instruction>,
    paralysis: bool,
    side_ref: SideReference,
    choice: Choice,
    damage_dealt: i16,
    facts: HitFacts,
    attacker_boosts: Seq<Instruction>,
    defender_boosts: Seq<Instruction>,
    berry_instructions: Seq<Instruction>,
)
    requires
        after_hit_outcome(
            att0,
            def0,
            weather0,
            terrain0,
            instructions0,
            att1,
            def1,
            weather1,
            terrain1,
            instructions1,
            paralysis,
            side_ref,
            choice,
            damage_dealt,
            facts,
            attacker_boosts,
            defender_boosts,
            berry_instructions,
        ),
        att0.wf(),
        def0.wf(),
        !facts.defending_ability_is_suppressed,
    ensures
        ({
            let dab = def0.active().ability;
            let a0 = att0.active();
            let a1 = att1.active();
            &&& !(dab == Abilities::GULPMISSILE || dab == Abilities::ROUGHSKIN || dab
                == Abilities::IRONBARBS || dab == Abilities::AFTERMATH || dab
                == Abilities::INNARDSOUT) ==> a1.hp == a0.hp
            &&& damage_dealt <= 0 ==> a1.hp == a0.hp
            &&& (dab == Abilities::ROUGHSKIN || dab == Abilities::IRONBARBS || dab
                == Abilities::AFTERMATH) && !choice.contact ==> a1.hp == a0.hp
            &&& (dab == Abilities::AFTERMATH || dab == Abilities::INNARDSOUT) && def0.active().hp
                != 0 ==> a1.hp == a0.hp
            &&& dab == Abilities::AFTERMATH && def0.active().hp != 0 ==> forall|k: int|
                instructions0.len() <= k < instructions1.len()
                    ==> !(#[trigger] instructions1[k] is DamageWithFaintContext)
            &&& dab == Abilities::AFTERMATH && damage_dealt > 0 && def0.active().hp == 0
                && choice.contact && valid_hp(a0) ==> a1.hp == a0.hp - (if a0.maxhp / 4 <= a0.hp {
                a0.maxhp / 4
            } else {
                a0.hp as int
            })
        }),
{
    reveal(defender_pokemon_part);
    reveal(defender_field_part);
    let aab = hit_attacker_ability(att0, facts);
    let dab = hit_defender_ability(def0, facts);
    lemma_attacker_part_moves_items(
        att0.active(),
        def0.active(),
        side_ref,
        aab,
        dab,
        damage_dealt,
        facts,
        attacker_boosts,
    );
    let first = attacker_part(
        att0.active(),
        def0.active(),
        side_ref,
        aab,
        dab,
        damage_dealt,
        facts,
        attacker_boosts,
    );
    let second = defender_part(
        att0,
        def0,
        side_ref,
        first.0,
        first.1,
        aab,
        dab,
        choice,
        damage_dealt,
        facts,
        defender_boosts,
        berry_instructions,
        weather0,
        terrain0,
    );
    assert(sans_speed(att1).pokemon == att1.pokemon);
    assert(sans_speed(att1).active_index == att1.active_index);
    assert(after_hit_effect(
        att0,
        def0,
        weather0,
        terrain0,
        instructions0,
        sans_speed(att1),
        sans_speed(def1),
        weather1,
        terrain1,
        instructions1,
        paralysis,
        side_ref,
        choice,
        damage_dealt,
        facts,
        attacker_boosts,
        defender_boosts,
        berry_instructions,
    ));
    assert(att1.pokemon@ == att0.pokemon@.update(att0.active_index.spec_position(), second.0));
    assert(att1.active_index == att0.active_index);
    assert(att1.pokemon@.len() == 6);
    assert(att1.active() == second.0);
    if dab == Abilities::AFTERMATH && def0.active().hp != 0 {
        reveal(attacker_part);
        assert(second.2.len() == 0);
        assert forall|k: int| instructions0.len() <= k < instructions1.len() implies !(
        #[trigger] instructions1[k] is DamageWithFaintContext) by {
            assert(instructions1[k] == first.2[k - instructions0.len()]);
        }
    }
}

/// What a hit does to the field: only sand spit changes the weather, to sand for
/// five turns when the move dealt damage and sand would be set; only seed sower
/// changes the terrain, to grassy terrain for five turns likewise.
pub proof fn law_field_after_hit(
    att0: Side,
    def0: Side,
    weather0: StateWeather,
    terrain0: StateTerrain,
    instructions0: Seq<Instruction>,
    att1: Side,
    def1: Side,
    weather1: StateWeather,
    terrain1: StateTerrain,
    instructions1: Seq<Instruction>,
    paralysis: bool,
    side_ref: SideReference,
    choice: Choice,
    damage_dealt: i16,
    facts: HitFacts,
    attacker_boosts: Seq<Instruction>,
    defender_boosts: Seq<Instruction>,
    berry_instructions: Seq<Instruction>,
)
    requires
        after_hit_outcome(
            att0,
            def0,
            weather0,
            terrain0,
            instructions0,
            att1,
            def1,
            weather1,
            terrain1,
            instructions1,
            paralysis,
            side_ref,
            choice,
            damage_dealt,
            facts,
            attacker_boosts,
            defender_boosts,
            berry_instructions,
        ),
        att0.wf(),
        def0.wf(),
        !facts.defending_ability_is_suppressed,
    ensures
        ({
            let dab = def0.active().ability;
            &&& dab != Abilities::SANDSPIT ==> weather1 == weather0
            &&& dab != Abilities::SEEDSOWER ==> terrain1 == terrain0
            &&& dab == Abilities::SANDSPIT && damage_dealt > 0 && facts.sand_should_be_set
                ==> weather1 == (StateWeather { weather_type: Weather::SAND, turns_remaining: 5 })
            &&& dab == Abilities::SANDSPIT && !(damage_dealt > 0 && facts.sand_should_be_set)
                ==> weather1 == weather0
            &&& dab == Abilities::SEEDSOWER && damage_dealt > 0
                && facts.grassy_terrain_should_be_set ==> terrain1 == (StateTerrain {
                terrain_type: Terrain::GRASSYTERRAIN,
                turns_remaining: 5,
            })
            &&& dab == Abilities::SEEDSOWER && !(damage_dealt > 0
                && facts.grassy_terrain_should_be_set) ==> terrain1 == terrain0
        }),
{
    reveal(attacker_part);
    reveal(defender_pokemon_part);
    reveal(defender_field_part);
}

/// What a hit does to the two pokemon. The move gains a sure paralysis exactly
/// when a gorging cramorant's gulp missile is hit by a damaging move. The
/// attacker's ability changes only through mummy, lingering aroma and wandering
/// spirit, and never without contact: mummy and lingering aroma pass themselves
/// on to a standing contact attacker without an ability shield whose ability
/// may be replaced, and wandering spirit swaps the two abilities. The
/// attacker's status changes only through spicy spray, which burns it unless it
/// is immune or eats a lum berry. Only gulp missile changes the defender's
/// species. The attacker's side gains toxic spikes only through toxic debris,
/// one layer on a physical damaging hit below two layers.
pub proof fn law_pokemon_after_hit(
    att0: Side,
    def0: Side,
    weather0: StateWeather,
    terrain0: StateTerrain,
    instructions0: Seq<Instruction>,
    att1: Side,
    def1: Side,
    weather1: StateWeather,
    terrain1: StateTerrain,
    instructions1: Seq<Instruction>,
    paralysis: bool,
    side_ref: SideReference,
    choice: Choice,
    damage_dealt: i16,
    facts: HitFacts,
    attacker_boosts: Seq<Instruction>,
    defender_boosts: Seq<Instruction>,
    berry_instructions: Seq<Instruction>,
)
    requires
        after_hit_outcome(
            att0,
            def0,
            weather0,
            terrain0,
            instructions0,
            att1,
            def1,
            weather1,
            terrain1,
            instructions1,
            paralysis,
            side_ref,
            choice,
            damage_dealt,
            facts,
            attacker_boosts,
            defender_boosts,
            berry_instructions,
        ),
        att0.wf(),
        def0.wf(),
        !facts.defending_ability_is_suppressed,
        !facts.active_ability_is_suppressed,
    ensures
        ({
            let dab = def0.active().ability;
            let a0 = att0.active();
            let d0 = def0.active();
            let a1 = att1.active();
            let d1 = def1.active();
            &&& paralysis <==> (dab == Abilities::GULPMISSILE && damage_dealt > 0 && d0.id
                == PokemonName::CRAMORANTGORGING)
            &&& a1.ability != a0.ability ==> (dab == Abilities::MUMMY || dab
                == Abilities::LINGERINGAROMA || dab == Abilities::WANDERINGSPIRIT) && choice.contact
            &&& (dab == Abilities::MUMMY || dab == Abilities::LINGERINGAROMA) && choice.contact
                && a0.hp != 0 && a0.item != Items::NONE && a0.item != Items::ABILITYSHIELD
                && a0.ability != dab && !is_kept_on_contact(a0.ability) ==> a1.ability == dab
            &&& dab == Abilities::WANDERINGSPIRIT && choice.contact && a0.hp != 0 && d0.hp != 0
                && a0.item != Items::NONE && a0.item != Items::ABILITYSHIELD && d0.item
                != Items::ABILITYSHIELD && !is_refused_by_skill_swap(a0.ability)
                && !is_refused_by_skill_swap(d0.ability) ==> a1.ability == d0.ability
                && d1.ability == a0.ability
            &&& a1.status != a0.status ==> dab == Abilities::SPICYSPRAY && a1.status
                == PokemonStatus::BURN
            &&& dab == Abilities::SPICYSPRAY && damage_dealt > 0 && !facts.attacker_immune_to_burn
                && a0.item != Items::LUMBERRY && a0.item != Items::NONE ==> a1.status
                == PokemonStatus::BURN
            &&& d1.id != d0.id ==> dab == Abilities::GULPMISSILE && d1.id == PokemonName::CRAMORANT
            &&& att1.side_conditions.toxic_spikes != att0.side_conditions.toxic_spikes ==> dab
                == Abilities::TOXICDEBRIS && att1.side_conditions.toxic_spikes
                == att0.side_conditions.toxic_spikes + 1
            &&& dab == Abilities::TOXICDEBRIS && damage_dealt > 0 && choice.category
                == MoveCategory::Physical && att0.side_conditions.toxic_spikes < 2
                ==> att1.side_conditions.toxic_spikes == att0.side_conditions.toxic_spikes + 1
        }),
{
    reveal(defender_pokemon_part);
    reveal(defender_field_part);
    let aab = hit_attacker_ability(att0, facts);
    let dab = hit_defender_ability(def0, facts);
    lemma_attacker_part_moves_items(
        att0.active(),
        def0.active(),
        side_ref,
        aab,
        dab,
        damage_dealt,
        facts,
        attacker_boosts,
    );
    let first = attacker_part(
        att0.active(),
        def0.active(),
        side_ref,
        aab,
        dab,
        damage_dealt,
        facts,
        attacker_boosts,
    );
    assert(sans_speed(att1).pokemon == att1.pokemon);
    assert(sans_speed(def1).pokemon == def1.pokemon);
    assert(sans_speed(att1).active_index == att1.active_index);
    assert(sans_speed(def1).active_index == def1.active_index);
    reveal(attacker_part);
}

/// What a hit does to the items: only magician and pickpocket move them, and a
/// magician or pickpocket that holds nothing takes the defender's item when the
/// move dealt damage and the item can be taken, leaving the defender with none.
pub proof fn law_items_after_hit(
    att0: Side,
    def0: Side,
    weather0: StateWeather,
    terrain0: StateTerrain,
    instructions0: Seq<Instruction>,
    att1: Side,
    def1: Side,
    weather1: StateWeather,
    terrain1: StateTerrain,
    instructions1: Seq<Instruction>,
    paralysis: bool,
    side_ref: SideReference,
    choice: Choice,
    damage_dealt: i16,
    facts: HitFacts,
    attacker_boosts: Seq<Instruction>,
    defender_boosts: Seq<Instruction>,
    berry_instructions: Seq<Instruction>,
)
    requires
        after_hit_outcome(
            att0,
            def0,
            weather0,
            terrain0,
            instructions0,
            att1,
            def1,
            weather1,
            terrain1,
            instructions1,
            paralysis,
            side_ref,
            choice,
            damage_dealt,
            facts,
            attacker_boosts,
            defender_boosts,
            berry_instructions,
        ),
        att0.wf(),
        def0.wf(),
        !facts.active_ability_is_suppressed,
    ensures
        ({
            let aab = att0.active().ability;
            let a0 = att0.active();
            let d0 = def0.active();
            let a1 = att1.active();
            let d1 = def1.active();
            &&& !(aab == Abilities::MAGICIAN || aab == Abilities::PICKPOCKET) ==> a1.item == a0.item
                && d1.item == d0.item
            &&& (aab == Abilities::MAGICIAN || aab == Abilities::PICKPOCKET) && damage_dealt > 0
                && a0.item == Items::NONE && item_can_be_removed(
                hit_defender_ability(def0, facts),
                facts,
            ) ==> a1.item == d0.item && d1.item == Items::NONE
        }),
{
    reveal(defender_pokemon_part);
    reveal(defender_field_part);
    let aab = hit_attacker_ability(att0, facts);
    let dab = hit_defender_ability(def0, facts);
    lemma_attacker_part_moves_items(
        att0.active(),
        def0.active(),
        side_ref,
        aab,
        dab,
        damage_dealt,
        facts,
        attacker_boosts,
    );
    let first = attacker_part(
        att0.active(),
        def0.active(),
        side_ref,
        aab,
        dab,
        damage_dealt,
        facts,
        attacker_boosts,
    );
    assert(sans_speed(att1).pokemon == att1.pokemon);
    assert(sans_speed(def1).pokemon == def1.pokemon);
    assert(sans_speed(att1).active_index == att1.active_index);
    assert(sans_speed(def1).active_index == def1.active_index);
    reveal(attacker_part);
}

/// How recorded boosts move a side's speed boost: a speed boost of that side by
/// an amount moves it by that amount, any other instruction leaves it, and the
/// moves of two runs of instructions add up.
pub proof fn law_speed_change(
    a: Seq<Instruction>,
    b: Seq<Instruction>,
    side_ref: SideReference,
    stat: PokemonBoostableStat,
    amount: i8,
)
    ensures
        speed_change(a + b, side_ref) == speed_change(a, side_ref) + speed_change(b, side_ref),
        speed_change(
            seq![Instruction::Boost(BoostInstruction { side_ref: side_ref, stat: stat, amount: amount })],
            side_ref,
        ) == if stat == PokemonBoostableStat::Speed {
            amount as int
        } else {
            0
        },
        speed_change(
            seq![Instruction::Boost(BoostInstruction { side_ref: side_ref.other(), stat: stat, amount: amount })],
            side_ref,
        ) == 0,
    decreases b.len(),
{
    let one = seq![Instruction::Boost(BoostInstruction { side_ref: side_ref, stat: stat, amount: amount })];
    assert(one.drop_last() =~= Seq::<Instruction>::empty());
    let two = seq![Instruction::Boost(BoostInstruction { side_ref: side_ref.other(), stat: stat, amount: amount })];
    assert(two.drop_last() =~= Seq::<Instruction>::empty());
    assert(speed_change(Seq::<Instruction>::empty(), side_ref) == 0);
    assert(speed_change(one, side_ref) == speed_change(one.drop_last(), side_ref) + speed_boost_of(
        one.last(),
        side_ref,
    ));
    assert(speed_change(two, side_ref) == speed_change(two.drop_last(), side_ref) + speed_boost_of(
        two.last(),
        side_ref,
    ));
    assert(side_ref.other() != side_ref);
    if b.len() > 0 {
        law_speed_change(a, b.drop_last(), side_ref, stat, amount);
        assert((a + b).drop_last() =~= a + b.drop_last());
        assert((a + b).last() == b.last());
    } else {
        assert(a + b =~= a);
    }
}

/// The boosts and volatile statuses a hit brings, for an attacker without an
/// acting ability: moxie's boosts are recorded only after a knockout; cotton
/// down's only when the move dealt damage; stamina's only while the defender
/// stands; electromorphosis charges a standing defender hit for damage, and
/// wind power only on a wind move; perish body starts a count on a contact hit.
pub proof fn law_boosts_and_statuses_after_hit(
    att0: Side,
    def0: Side,
    weather0: StateWeather,
    terrain0: StateTerrain,
    instructions0: Seq<Instruction>,
    att1: Side,
    def1: Side,
    weather1: StateWeather,
    terrain1: StateTerrain,
    instructions1: Seq<Instruction>,
    paralysis: bool,
    side_ref: SideReference,
    choice: Choice,
    damage_dealt: i16,
    facts: HitFacts,
    attacker_boosts: Seq<Instruction>,
    defender_boosts: Seq<Instruction>,
    berry_instructions: Seq<Instruction>,
)
    requires
        after_hit_outcome(
            att0,
            def0,
            weather0,
            terrain0,
            instructions0,
            att1,
            def1,
            weather1,
            terrain1,
            instructions1,
            paralysis,
            side_ref,
            choice,
            damage_dealt,
            facts,
            attacker_boosts,
            defender_boosts,
            berry_instructions,
        ),
        att0.wf(),
        def0.wf(),
        !facts.defending_ability_is_suppressed,
        !facts.active_ability_is_suppressed,
    ensures
        ({
            let aab = att0.active().ability;
            let dab = def0.active().ability;
            let d0 = def0.active();
            &&& aab == Abilities::MOXIE && dab == Abilities::NONE && damage_dealt > 0 && d0.hp == 0
                ==> instructions1 == instructions0 + attacker_boosts
            &&& aab == Abilities::MOXIE && dab == Abilities::NONE && d0.hp != 0 ==> instructions1
                == instructions0
            &&& aab == Abilities::NONE && dab == Abilities::COTTONDOWN ==> instructions1
                == instructions0 + (if damage_dealt > 0 {
                defender_boosts
            } else {
                Seq::<Instruction>::empty()
            })
            &&& aab == Abilities::NONE && dab == Abilities::STAMINA && d0.hp == 0 ==> instructions1
                == instructions0
            &&& dab == Abilities::ELECTROMORPHOSIS && damage_dealt > 0 && d0.hp != 0
                ==> def1.volatiles().contains(PokemonVolatileStatus::CHARGE)
            &&& dab == Abilities::WINDPOWER && !choice.wind ==> def1.volatile_statuses
                == def0.volatile_statuses
            &&& dab == Abilities::PERISHBODY && damage_dealt > 0 && choice.contact && d0.hp != 0
                ==> def1.volatiles().contains(PokemonVolatileStatus::PERISH4) || def0.volatiles().contains(
                PokemonVolatileStatus::PERISH4,
            ) || def0.volatiles().contains(PokemonVolatileStatus::PERISH3) || def0.volatiles().contains(
                PokemonVolatileStatus::PERISH2,
            ) || def0.volatiles().contains(PokemonVolatileStatus::PERISH1)
            &&& dab != Abilities::PERISHBODY && dab != Abilities::ELECTROMORPHOSIS && dab
                != Abilities::WINDPOWER ==> def1.volatile_statuses == def0.volatile_statuses
                && att1.volatile_statuses == att0.volatile_statuses
        }),
{
    reveal(attacker_part);
    reveal(defender_pokemon_part);
    reveal(defender_field_part);
    assert(instructions0 + Seq::<Instruction>::empty() + Seq::<Instruction>::empty() =~= instructions0);
    assert(instructions0 + attacker_boosts + Seq::<Instruction>::empty() =~= instructions0 + attacker_boosts);
    assert(instructions0 + Seq::<Instruction>::empty() + defender_boosts =~= instructions0 + defender_boosts);
}

} // verus!
