//! What abilities do at the end of a turn: forme changes that follow the hp,
//! the damage and healing that weather and status call for, speed boost, and
//! the status cures of hydration and shed skin.

use vstd::prelude::*;
use crate::abilities::{forme_change, Abilities};
use crate::instruction::{
    BoostInstruction, DamageWithFaintContextInstruction, FaintCause, FaintContext, FaintEffect,
    FormeChangeInstruction, HealInstruction, Instruction,
};
use crate::state::{
    Pokemon, PokemonBoostableStat, PokemonIndex, PokemonName, PokemonStatus, Side,
    SideReference, State, Weather,
};

verus! {

/// A pokemon's hp lies between zero and its maximum hp.
pub open spec fn valid_hp(p: Pokemon) -> bool {
    0 <= p.hp <= p.maxhp
}

/// The end-of-turn abilities whose arithmetic reads the holder's hp against
/// its maximum: they need the hp to lie in range.
pub open spec fn reads_hp_range(ability: Abilities) -> bool {
    ||| ability == Abilities::SHIELDSDOWN
    ||| ability == Abilities::SCHOOLING
    ||| ability == Abilities::SOLARPOWER
    ||| ability == Abilities::ICEBODY
    ||| ability == Abilities::RAINDISH
    ||| ability == Abilities::POISONHEAL
    ||| ability == Abilities::DRYSKIN
}

/// The smaller of two integers.
pub open spec fn min_int(a: int, b: int) -> int {
    if a <= b {
        a
    } else {
        b
    }
}

/// The instruction that heals a side's active pokemon.
pub open spec fn heal(side_ref: SideReference, amount: int) -> Instruction {
    Instruction::Heal(HealInstruction { side_ref: side_ref, heal_amount: amount as i16 })
}

/// The instruction that damages a side's active pokemon through an ability of
/// the pokemon in the given side and slot.
pub open spec fn ability_damage(
    target: SideReference,
    amount: int,
    source_side: SideReference,
    source_index: PokemonIndex,
    ability: Abilities,
) -> Instruction {
    Instruction::DamageWithFaintContext(
        DamageWithFaintContextInstruction {
            side_ref: target,
            damage_amount: amount as i16,
            faint_context: FaintContext {
                source_side: Some(source_side),
                source_index: Some(source_index),
                cause: FaintCause::Ability,
                effect: FaintEffect::Ability(ability),
            },
        },
    )
}

/// The weather counts: it is one of the two given kinds, and no ability on the
/// field suppresses it.
pub open spec fn weather_counts(
    state: State,
    weather_is_suppressed: bool,
    first: Weather,
    second: Weather,
) -> bool {
    !weather_is_suppressed && (state.weather.weather_type == first
        || state.weather.weather_type == second)
}

/// The ability that acts: none where it is suppressed.
pub open spec fn acting_ability(p: Pokemon, suppressed: bool) -> Abilities {
    if suppressed {
        Abilities::NONE
    } else {
        p.ability
    }
}

/// A side's active pokemon changes forme (a forme change, then the stat
/// changes the new forme calls for).
pub open spec fn forme_step(
    p: Pokemon,
    side_ref: SideReference,
    to: PokemonName,
    stat_changes: Seq<Instruction>,
) -> (Pokemon, Seq<Instruction>) {
    (Pokemon { id: to, ..p }, seq![forme_change(side_ref, p.id, to)] + stat_changes)
}

/// What the acting ability of a side's active pokemon does to that pokemon at
/// the end of the turn: the pokemon afterwards, the side's speed boost
/// afterwards, and the instructions recording it. Bad dreams acts on the
/// opposing pokemon and is described by `bad_dreams_damage`.
pub open spec fn end_of_turn_self_effect(
    p: Pokemon,
    speed_boost: i8,
    side_ref: SideReference,
    active_index: PokemonIndex,
    ability: Abilities,
    sun: bool,
    rain: bool,
    hail_or_snow: bool,
    forme_stat_changes: Seq<Instruction>,
    status_removal: Seq<Instruction>,
) -> (Pokemon, i8, Seq<Instruction>) {
    let unchanged = (p, speed_boost, Seq::<Instruction>::empty());
    if ability == Abilities::HUNGERSWITCH {
        if p.id == PokemonName::MORPEKO && !p.terastallized {
            (
                Pokemon { id: PokemonName::MORPEKOHANGRY, ..p },
                speed_boost,
                seq![forme_change(side_ref, p.id, PokemonName::MORPEKOHANGRY)],
            )
        } else if p.id == PokemonName::MORPEKOHANGRY && !p.terastallized {
            (
                Pokemon { id: PokemonName::MORPEKO, ..p },
                speed_boost,
                seq![forme_change(side_ref, p.id, PokemonName::MORPEKO)],
            )
        } else {
            unchanged
        }
    } else if ability == Abilities::SHIELDSDOWN {
        if p.hp <= p.maxhp / 2 && p.id == PokemonName::MINIORMETEOR {
            let s = forme_step(p, side_ref, PokemonName::MINIOR, forme_stat_changes);
            (s.0, speed_boost, s.1)
        } else if p.hp > p.maxhp / 2 && p.id != PokemonName::MINIORMETEOR {
            let s = forme_step(p, side_ref, PokemonName::MINIORMETEOR, forme_stat_changes);
            (s.0, speed_boost, s.1)
        } else {
            unchanged
        }
    } else if ability == Abilities::SCHOOLING {
        if p.hp <= p.maxhp / 4 && p.id == PokemonName::WISHIWASHISCHOOL {
            let s = forme_step(p, side_ref, PokemonName::WISHIWASHI, forme_stat_changes);
            (s.0, speed_boost, s.1)
        } else if p.hp > p.maxhp / 4 && p.id == PokemonName::WISHIWASHI {
            let s = forme_step(p, side_ref, PokemonName::WISHIWASHISCHOOL, forme_stat_changes);
            (s.0, speed_boost, s.1)
        } else {
            unchanged
        }
    } else if ability == Abilities::SOLARPOWER {
        let dmg = min_int(p.maxhp / 8, p.maxhp - p.hp);
        if sun && dmg > 0 {
            (
                Pokemon { hp: (p.hp - dmg) as i16, ..p },
                speed_boost,
                seq![ability_damage(side_ref, dmg, side_ref, active_index, ability)],
            )
        } else {
            unchanged
        }
    } else if ability == Abilities::ICEBODY || ability == Abilities::RAINDISH {
        let recovered = min_int(p.maxhp / 16, p.maxhp - p.hp);
        let weather = if ability == Abilities::ICEBODY {
            hail_or_snow
        } else {
            rain
        };
        if weather && recovered > 0 {
            (
                Pokemon { hp: (p.hp + recovered) as i16, ..p },
                speed_boost,
                seq![heal(side_ref, recovered)],
            )
        } else {
            unchanged
        }
    } else if ability == Abilities::POISONHEAL {
        if p.hp < p.maxhp && (p.status == PokemonStatus::POISON || p.status
            == PokemonStatus::TOXIC) {
            let amount = min_int(p.maxhp / 8, p.maxhp - p.hp);
            (Pokemon { hp: (p.hp + amount) as i16, ..p }, speed_boost, seq![heal(side_ref, amount)])
        } else {
            unchanged
        }
    } else if ability == Abilities::SPEEDBOOST {
        if speed_boost < 6 {
            (
                p,
                (speed_boost + 1) as i8,
                seq![
                    Instruction::Boost(
                        BoostInstruction {
                            side_ref: side_ref,
                            stat: PokemonBoostableStat::Speed,
                            amount: 1,
                        },
                    ),
                ],
            )
        } else {
            unchanged
        }
    } else if ability == Abilities::DRYSKIN {
        if rain {
            if p.hp < p.maxhp {
                let amount = min_int(p.maxhp / 8, p.maxhp - p.hp);
                (
                    Pokemon { hp: (p.hp + amount) as i16, ..p },
                    speed_boost,
                    seq![heal(side_ref, amount)],
                )
            } else {
                unchanged
            }
        } else if sun {
            let dmg = min_int(p.maxhp / 8, p.hp as int);
            if dmg > 0 {
                (
                    Pokemon { hp: (p.hp - dmg) as i16, ..p },
                    speed_boost,
                    seq![ability_damage(side_ref, dmg, side_ref, active_index, ability)],
                )
            } else {
                unchanged
            }
        } else {
            unchanged
        }
    } else if ((ability == Abilities::HYDRATION && rain) || ability == Abilities::SHEDSKIN)
        && p.status != PokemonStatus::NONE {
        (Pokemon { status: PokemonStatus::NONE, ..p }, speed_boost, status_removal)
    } else {
        unchanged
    }
}

/// How much bad dreams takes from a sleeping opposing pokemon: an eighth of its
/// maximum hp, no more than it has.
pub open spec fn bad_dreams_damage(d: Pokemon) -> int {
    min_int(d.maxhp / 8, d.hp as int)
}

/// Bad dreams acts: it is the acting ability and the opposing pokemon sleeps.
pub open spec fn bad_dreams_acts(ability: Abilities, d: Pokemon) -> bool {
    ability == Abilities::BADDREAMS && d.status == PokemonStatus::SLEEP
}

/// The smaller of two hp amounts.
fn min_hp(a: i16, b: i16) -> (r: i16)
    ensures
        r == min_int(a as int, b as int),
{
    if a <= b {
        a
    } else {
        b
    }
}

/// Records a forme change of the active pokemon and the stat changes that follow.
fn push_forme_step(
    p: Pokemon,
    side_ref: SideReference,
    to: PokemonName,
    stat_changes: Vec<Instruction>,
    instructions: &mut Vec<Instruction>,
) -> (r: Pokemon)
    ensures
        r == forme_step(p, side_ref, to, stat_changes@).0,
        final(instructions)@ == old(instructions)@ + forme_step(p, side_ref, to, stat_changes@).1,
{
    let ghost sc = stat_changes@;
    let mut stat_changes = stat_changes;
    let ghost start = instructions@;
    instructions.push(
        Instruction::FormeChange(
            FormeChangeInstruction { side_ref, name_change: to.number() - p.id.number() },
        ),
    );
    instructions.append(&mut stat_changes);
    proof {
        assert(instructions@ =~= start + forme_step(p, side_ref, to, sc).1);
    }
    let mut np = p;
    np.id = to;
    np
}

/// The end-of-turn effect of an ability on its own holder, applied to the
/// holder and the side's speed boost, with its instructions recorded.
#[verifier::rlimit(100)]
#[verifier::spinoff_prover]
fn end_of_turn_on_holder(
    p: Pokemon,
    speed_boost: i8,
    side_ref: SideReference,
    active_index: PokemonIndex,
    ability: Abilities,
    sun: bool,
    rain: bool,
    hail_or_snow: bool,
    forme_stat_changes: Vec<Instruction>,
    status_removal: Vec<Instruction>,
    instructions: &mut Vec<Instruction>,
) -> (r: (Pokemon, i8))
    requires
        reads_hp_range(ability) ==> valid_hp(p),
    ensures
        r.0 == end_of_turn_self_effect(
            p, speed_boost, side_ref, active_index, ability, sun, rain, hail_or_snow,
            forme_stat_changes@, status_removal@,
        ).0,
        r.1 == end_of_turn_self_effect(
            p, speed_boost, side_ref, active_index, ability, sun, rain, hail_or_snow,
            forme_stat_changes@, status_removal@,
        ).1,
        final(instructions)@ == old(instructions)@ + end_of_turn_self_effect(
            p, speed_boost, side_ref, active_index, ability, sun, rain, hail_or_snow,
            forme_stat_changes@, status_removal@,
        ).2,
{
    let ghost start = instructions@;
    let ghost eff = end_of_turn_self_effect(
        p, speed_boost, side_ref, active_index, ability, sun, rain, hail_or_snow,
        forme_stat_changes@, status_removal@,
    );
    let mut status_removal = status_removal;
    if ability == Abilities::HUNGERSWITCH {
        if p.id == PokemonName::MORPEKO && !p.terastallized {
            let np = push_forme_step(p, side_ref, PokemonName::MORPEKOHANGRY, Vec::new(), instructions);
            assert(instructions@ =~= start + eff.2);
            (np, speed_boost)
        } else if p.id == PokemonName::MORPEKOHANGRY && !p.terastallized {
            let np = push_forme_step(p, side_ref, PokemonName::MORPEKO, Vec::new(), instructions);
            assert(instructions@ =~= start + eff.2);
            (np, speed_boost)
        } else {
            assert(instructions@ =~= start + eff.2);
            (p, speed_boost)
        }
    } else if ability == Abilities::SHIELDSDOWN {
        if p.hp <= p.maxhp / 2 && p.id == PokemonName::MINIORMETEOR {
            (push_forme_step(p, side_ref, PokemonName::MINIOR, forme_stat_changes, instructions), speed_boost)
        } else if p.hp > p.maxhp / 2 && p.id != PokemonName::MINIORMETEOR {
            (push_forme_step(p, side_ref, PokemonName::MINIORMETEOR, forme_stat_changes, instructions), speed_boost)
        } else {
            assert(instructions@ =~= start + eff.2);
            (p, speed_boost)
        }
    } else if ability == Abilities::SCHOOLING {
        if p.hp <= p.maxhp / 4 && p.id == PokemonName::WISHIWASHISCHOOL {
            (push_forme_step(p, side_ref, PokemonName::WISHIWASHI, forme_stat_changes, instructions), speed_boost)
        } else if p.hp > p.maxhp / 4 && p.id == PokemonName::WISHIWASHI {
            (push_forme_step(p, side_ref, PokemonName::WISHIWASHISCHOOL, forme_stat_changes, instructions), speed_boost)
        } else {
            assert(instructions@ =~= start + eff.2);
            (p, speed_boost)
        }
    } else if ability == Abilities::SOLARPOWER {
        let dmg = min_hp(p.maxhp / 8, p.maxhp - p.hp);
        if sun && dmg > 0 {
            instructions.push(
                Instruction::DamageWithFaintContext(
                    DamageWithFaintContextInstruction {
                        side_ref,
                        damage_amount: dmg,
                        faint_context: FaintContext::ability_effect(side_ref, active_index, ability),
                    },
                ),
            );
            let mut np = p;
            np.hp = p.hp - dmg;
            assert(instructions@ =~= start + eff.2);
            (np, speed_boost)
        } else {
            assert(instructions@ =~= start + eff.2);
            (p, speed_boost)
        }
    } else if ability == Abilities::ICEBODY || ability == Abilities::RAINDISH {
        let recovered = min_hp(p.maxhp / 16, p.maxhp - p.hp);
        let weather = if ability == Abilities::ICEBODY {
            hail_or_snow
        } else {
            rain
        };
        if weather && recovered > 0 {
            instructions.push(Instruction::Heal(HealInstruction { side_ref, heal_amount: recovered }));
            let mut np = p;
            np.hp = p.hp + recovered;
            assert(instructions@ =~= start + eff.2);
            (np, speed_boost)
        } else {
            assert(instructions@ =~= start + eff.2);
            (p, speed_boost)
        }
    } else if ability == Abilities::POISONHEAL {
        if p.hp < p.maxhp && (p.status == PokemonStatus::POISON || p.status == PokemonStatus::TOXIC) {
            let amount = min_hp(p.maxhp / 8, p.maxhp - p.hp);
            instructions.push(Instruction::Heal(HealInstruction { side_ref, heal_amount: amount }));
            let mut np = p;
            np.hp = p.hp + amount;
            assert(instructions@ =~= start + eff.2);
            (np, speed_boost)
        } else {
            assert(instructions@ =~= start + eff.2);
            (p, speed_boost)
        }
    } else if ability == Abilities::SPEEDBOOST {
        if speed_boost < 6 {
            instructions.push(
                Instruction::Boost(
                    BoostInstruction { side_ref, stat: PokemonBoostableStat::Speed, amount: 1 },
                ),
            );
            assert(instructions@ =~= start + eff.2);
            (p, speed_boost + 1)
        } else {
            assert(instructions@ =~= start + eff.2);
            (p, speed_boost)
        }
    } else if ability == Abilities::DRYSKIN {
        if rain {
            if p.hp < p.maxhp {
                let amount = min_hp(p.maxhp / 8, p.maxhp - p.hp);
                instructions.push(Instruction::Heal(HealInstruction { side_ref, heal_amount: amount }));
                let mut np = p;
                np.hp = p.hp + amount;
                assert(instructions@ =~= start + eff.2);
                (np, speed_boost)
            } else {
                assert(instructions@ =~= start + eff.2);
                (p, speed_boost)
            }
        } else if sun {
            let dmg = min_hp(p.maxhp / 8, p.hp);
            if dmg > 0 {
                instructions.push(
                    Instruction::DamageWithFaintContext(
                        DamageWithFaintContextInstruction {
                            side_ref,
                            damage_amount: dmg,
                            faint_context: FaintContext::ability_effect(side_ref, active_index, ability),
                        },
                    ),
                );
                let mut np = p;
                np.hp = p.hp - dmg;
                assert(instructions@ =~= start + eff.2);
                (np, speed_boost)
            } else {
                assert(instructions@ =~= start + eff.2);
                (p, speed_boost)
            }
        } else {
            assert(instructions@ =~= start + eff.2);
            (p, speed_boost)
        }
    } else if ((ability == Abilities::HYDRATION && rain) || ability == Abilities::SHEDSKIN)
        && p.status != PokemonStatus::NONE {
        instructions.append(&mut status_removal);
        let mut np = p;
        np.status = PokemonStatus::NONE;
        assert(instructions@ =~= start + eff.2);
        (np, speed_boost)
    } else {
        assert(instructions@ =~= start + eff.2);
        (p, speed_boost)
    }
}

/// The end-of-turn effect on both sides: the holder's side and the opposing one.
#[verifier::rlimit(40)]
fn end_of_turn_sides(
    side: &mut Side,
    other: &mut Side,
    side_ref: SideReference,
    ability: Abilities,
    sun: bool,
    rain: bool,
    hail_or_snow: bool,
    forme_stat_changes: Vec<Instruction>,
    status_removal: Vec<Instruction>,
    instructions: &mut Vec<Instruction>,
)
    requires
        old(side).wf(),
        old(other).wf(),
        reads_hp_range(ability) ==> valid_hp(old(side).active()),
        bad_dreams_acts(ability, old(other).active()) ==> valid_hp(old(other).active()),
    ensures
        final(side).wf(),
        final(other).wf(),
        final(side).pokemon@ == old(side).pokemon@.update(
            old(side).active_index.spec_position(),
            end_of_turn_self_effect(
                old(side).active(), old(side).speed_boost, side_ref, old(side).active_index,
                ability, sun, rain, hail_or_snow, forme_stat_changes@, status_removal@,
            ).0,
        ),
        final(side).speed_boost == end_of_turn_self_effect(
            old(side).active(), old(side).speed_boost, side_ref, old(side).active_index,
            ability, sun, rain, hail_or_snow, forme_stat_changes@, status_removal@,
        ).1,
        final(side).active_index == old(side).active_index,
        final(side).volatile_statuses == old(side).volatile_statuses,
        final(side).side_conditions == old(side).side_conditions,
        bad_dreams_acts(ability, old(other).active()) ==> final(other).pokemon@
            == old(other).pokemon@.update(
            old(other).active_index.spec_position(),
            Pokemon {
                hp: (old(other).active().hp - bad_dreams_damage(old(other).active())) as i16,
                ..old(other).active()
            },
        ),
        !bad_dreams_acts(ability, old(other).active()) ==> final(other).pokemon == old(other).pokemon,
        final(other).active_index == old(other).active_index,
        final(other).volatile_statuses == old(other).volatile_statuses,
        final(other).side_conditions == old(other).side_conditions,
        final(other).speed_boost == old(other).speed_boost,
        final(instructions)@ == old(instructions)@ + end_of_turn_self_effect(
            old(side).active(), old(side).speed_boost, side_ref, old(side).active_index,
            ability, sun, rain, hail_or_snow, forme_stat_changes@, status_removal@,
        ).2 + (if bad_dreams_acts(ability, old(other).active()) {
            seq![
                ability_damage(
                    side_ref.other(),
                    bad_dreams_damage(old(other).active()),
                    side_ref,
                    old(side).active_index,
                    Abilities::BADDREAMS,
                ),
            ]
        } else {
            Seq::<Instruction>::empty()
        }),
{
    let ghost mid_start = instructions@;
    let p = *side.get_active_immutable();
    let active_index = side.active_index;
    let (np, boost) = end_of_turn_on_holder(
        p,
        side.speed_boost,
        side_ref,
        active_index,
        ability,
        sun,
        rain,
        hail_or_snow,
        forme_stat_changes,
        status_removal,
        instructions,
    );
    side.set_active(np);
    side.speed_boost = boost;
    let ghost mid = instructions@;
    let d = *other.get_active_immutable();
    if ability == Abilities::BADDREAMS && d.status == PokemonStatus::SLEEP {
        let dmg = min_hp(d.maxhp / 8, d.hp);
        instructions.push(
            Instruction::DamageWithFaintContext(
                DamageWithFaintContextInstruction {
                    side_ref: side_ref.get_other_side(),
                    damage_amount: dmg,
                    faint_context: FaintContext::ability_effect(
                        side_ref,
                        active_index,
                        Abilities::BADDREAMS,
                    ),
                },
            ),
        );
        let mut nd = d;
        nd.hp = d.hp - dmg;
        other.set_active(nd);
        assert(instructions@ =~= mid + seq![
            ability_damage(side_ref.other(), bad_dreams_damage(d), side_ref, active_index, Abilities::BADDREAMS),
        ]);
    } else {
        assert(instructions@ =~= mid + Seq::<Instruction>::empty());
    }
}

/// What the end of a turn does for one side, as a relation between the battle
/// and the instructions before and after it.
pub open spec fn end_of_turn_outcome(
    s0: State,
    s1: State,
    ins0: Seq<Instruction>,
    ins1: Seq<Instruction>,
    side_ref: SideReference,
    active_ability_is_suppressed: bool,
    weather_is_suppressed: bool,
    forme_stat_changes: Seq<Instruction>,
    status_removal: Seq<Instruction>,
) -> bool {
    let side = s0.side(side_ref);
    let other = s0.side(side_ref.other());
    let ability = acting_ability(side.active(), active_ability_is_suppressed);
    let eff = end_of_turn_self_effect(
        side.active(),
        side.speed_boost,
        side_ref,
        side.active_index,
        ability,
        weather_counts(s0, weather_is_suppressed, Weather::HARSHSUN, Weather::SUN),
        weather_counts(s0, weather_is_suppressed, Weather::HEAVYRAIN, Weather::RAIN),
        weather_counts(s0, weather_is_suppressed, Weather::HAIL, Weather::SNOW),
        forme_stat_changes,
        status_removal,
    );
    let dreams = bad_dreams_acts(ability, other.active());
    &&& s1.wf()
    &&& s1.side(side_ref).pokemon@ =~= side.pokemon@.update(
        side.active_index.spec_position(),
        eff.0,
    )
    &&& s1.side(side_ref).speed_boost == eff.1
    &&& s1.side(side_ref).active_index == side.active_index
    &&& s1.side(side_ref).volatile_statuses == side.volatile_statuses
    &&& s1.side(side_ref).side_conditions == side.side_conditions
    &&& dreams ==> s1.side(side_ref.other()).pokemon@ =~= other.pokemon@.update(
        other.active_index.spec_position(),
        Pokemon { hp: (other.active().hp - bad_dreams_damage(other.active())) as i16, ..other.active() },
    )
    &&& !dreams ==> s1.side(side_ref.other()).pokemon == other.pokemon
    &&& s1.side(side_ref.other()).active_index == other.active_index
    &&& s1.side(side_ref.other()).volatile_statuses == other.volatile_statuses
    &&& s1.side(side_ref.other()).side_conditions == other.side_conditions
    &&& s1.side(side_ref.other()).speed_boost == other.speed_boost
    &&& s1.weather == s0.weather
    &&& s1.terrain == s0.terrain
    &&& ins1 =~= ins0 + eff.2 + (if dreams {
        seq![
            ability_damage(
                side_ref.other(),
                bad_dreams_damage(other.active()),
                side_ref,
                side.active_index,
                Abilities::BADDREAMS,
            ),
        ]
    } else {
        Seq::<Instruction>::empty()
    })
}

/// What the active pokemon's ability of a side does at the end of the turn.
/// Hunger switch flips morpeko between its formes (unless it has
/// terastallized); shields down and schooling change forme across half and a
/// quarter of the maximum hp, followed by the stat changes of the new forme
/// (which are given); bad dreams takes an eighth of a sleeping opposing
/// pokemon's maximum hp (no more than it has); solar power in sun takes an
/// eighth of the maximum hp, bounded by the hp already missing rather than
/// the hp left (so it can take the holder below zero); ice body in
/// hail or snow and rain dish in rain heal a sixteenth, no more than is missing;
/// poison heal heals an eighth of a poisoned pokemon that is not at full hp;
/// speed boost raises speed by one stage below six; dry skin heals an eighth in
/// rain and takes an eighth in sun; hydration in rain and shed skin cure the
/// status (the instructions that record the cure are given). A suppressed
/// ability does nothing. Whether the ability is suppressed, and whether an
/// ability on the field suppresses the weather, are given. The abilities whose
/// arithmetic reads the holder's hp need it between zero and the maximum.
pub fn ability_end_of_turn(
    state: &mut State,
    side_ref: &SideReference,
    instructions: &mut Vec<Instruction>,
    active_ability_is_suppressed: bool,
    weather_is_suppressed: bool,
    forme_stat_changes: Vec<Instruction>,
    status_removal: Vec<Instruction>,
)
    requires
        old(state).wf(),
        reads_hp_range(
            acting_ability(old(state).side(*side_ref).active(), active_ability_is_suppressed),
        ) ==> valid_hp(old(state).side(*side_ref).active()),
        bad_dreams_acts(
            acting_ability(old(state).side(*side_ref).active(), active_ability_is_suppressed),
            old(state).side(side_ref.other()).active(),
        ) ==> valid_hp(old(state).side(side_ref.other()).active()),
    ensures
        end_of_turn_outcome(
            *old(state),
            *final(state),
            old(instructions)@,
            final(instructions)@,
            *side_ref,
            active_ability_is_suppressed,
            weather_is_suppressed,
            forme_stat_changes@,
            status_removal@,
        ),
{
    let w = state.weather.weather_type;
    let sun = !weather_is_suppressed && (w == Weather::HARSHSUN || w == Weather::SUN);
    let rain = !weather_is_suppressed && (w == Weather::HEAVYRAIN || w == Weather::RAIN);
    let hail_or_snow = !weather_is_suppressed && (w == Weather::HAIL || w == Weather::SNOW);
    match side_ref {
        SideReference::SideOne => {
            let ability = if active_ability_is_suppressed {
                Abilities::NONE
            } else {
                state.side_one.get_active_immutable().ability
            };
            end_of_turn_sides(
                &mut state.side_one,
                &mut state.side_two,
                *side_ref,
                ability,
                sun,
                rain,
                hail_or_snow,
                forme_stat_changes,
                status_removal,
                instructions,
            );
        },
        SideReference::SideTwo => {
            let ability = if active_ability_is_suppressed {
                Abilities::NONE
            } else {
                state.side_two.get_active_immutable().ability
            };
            end_of_turn_sides(
                &mut state.side_two,
                &mut state.side_one,
                *side_ref,
                ability,
                sun,
                rain,
                hail_or_snow,
                forme_stat_changes,
                status_removal,
                instructions,
            );
        },
    }
}

/// How much a recorded forme change moves the species number (zero for any
/// other instruction).
pub open spec fn name_change_of(i: Instruction) -> int {
    match i {
        Instruction::FormeChange(f) => f.name_change as int,
        _ => 0,
    }
}

/// Hunger switch over two ends of turn in a row: the first flips morpeko into
/// its other forme, the second flips it back, each records one forme change, and
/// the two changes cancel; nothing else about the pokemon or the speed boost
/// moves.
pub proof fn lemma_hunger_switch_round_trip(
    p: Pokemon,
    speed_boost: i8,
    side_ref: SideReference,
    active_index: PokemonIndex,
    sun: bool,
    rain: bool,
    hail_or_snow: bool,
    forme_stat_changes: Seq<Instruction>,
    status_removal: Seq<Instruction>,
)
    requires
        p.id == PokemonName::MORPEKO || p.id == PokemonName::MORPEKOHANGRY,
        !p.terastallized,
    ensures
        ({
            let first = end_of_turn_self_effect(
                p, speed_boost, side_ref, active_index, Abilities::HUNGERSWITCH, sun, rain,
                hail_or_snow, forme_stat_changes, status_removal,
            );
            let second = end_of_turn_self_effect(
                first.0, first.1, side_ref, active_index, Abilities::HUNGERSWITCH, sun, rain,
                hail_or_snow, forme_stat_changes, status_removal,
            );
            &&& first.0.id != p.id
            &&& (first.0.id == PokemonName::MORPEKO || first.0.id == PokemonName::MORPEKOHANGRY)
            &&& second.0 == p
            &&& second.1 == speed_boost
            &&& first.2.len() == 1
            &&& second.2.len() == 1
            &&& first.2[0] is FormeChange
            &&& second.2[0] is FormeChange
            &&& name_change_of(first.2[0]) + name_change_of(second.2[0]) == 0
        }),
{
}

/// The status cures at the end of a turn: hydration cures a status only in
/// rain (recording the given cure), shed skin cures one whatever the weather,
/// and with no status, or without rain for hydration, nothing changes.
pub proof fn law_status_cures(
    p: Pokemon,
    speed_boost: i8,
    side_ref: SideReference,
    active_index: PokemonIndex,
    sun: bool,
    rain: bool,
    hail_or_snow: bool,
    forme_stat_changes: Seq<Instruction>,
    status_removal: Seq<Instruction>,
)
    ensures
        ({
            let hydration = end_of_turn_self_effect(
                p, speed_boost, side_ref, active_index, Abilities::HYDRATION, sun, rain,
                hail_or_snow, forme_stat_changes, status_removal,
            );
            let shed_skin = end_of_turn_self_effect(
                p, speed_boost, side_ref, active_index, Abilities::SHEDSKIN, sun, rain,
                hail_or_snow, forme_stat_changes, status_removal,
            );
            let cured = (Pokemon { status: PokemonStatus::NONE, ..p }, speed_boost, status_removal);
            let unchanged = (p, speed_boost, Seq::<Instruction>::empty());
            &&& rain && p.status != PokemonStatus::NONE ==> hydration == cured
            &&& !rain || p.status == PokemonStatus::NONE ==> hydration == unchanged
            &&& p.status != PokemonStatus::NONE ==> shed_skin == cured
            &&& p.status == PokemonStatus::NONE ==> shed_skin == unchanged
        }),
{
}

/// The weather abilities need their weather at the end of a turn: without sun
/// solar power does nothing, without hail or snow ice body does nothing,
/// without rain rain dish does nothing, and without rain or sun dry skin does
/// nothing; for hp in range, in sun (and no rain) dry skin only takes hp, in
/// rain it only gives.
pub proof fn law_weather_abilities_need_their_weather(
    p: Pokemon,
    speed_boost: i8,
    side_ref: SideReference,
    active_index: PokemonIndex,
    sun: bool,
    rain: bool,
    hail_or_snow: bool,
    forme_stat_changes: Seq<Instruction>,
    status_removal: Seq<Instruction>,
)
    ensures
        ({
            let unchanged = (p, speed_boost, Seq::<Instruction>::empty());
            &&& !sun ==> end_of_turn_self_effect(
                p, speed_boost, side_ref, active_index, Abilities::SOLARPOWER, sun, rain,
                hail_or_snow, forme_stat_changes, status_removal,
            ) == unchanged
            &&& !hail_or_snow ==> end_of_turn_self_effect(
                p, speed_boost, side_ref, active_index, Abilities::ICEBODY, sun, rain,
                hail_or_snow, forme_stat_changes, status_removal,
            ) == unchanged
            &&& !rain ==> end_of_turn_self_effect(
                p, speed_boost, side_ref, active_index, Abilities::RAINDISH, sun, rain,
                hail_or_snow, forme_stat_changes, status_removal,
            ) == unchanged
            &&& !rain && !sun ==> end_of_turn_self_effect(
                p, speed_boost, side_ref, active_index, Abilities::DRYSKIN, sun, rain,
                hail_or_snow, forme_stat_changes, status_removal,
            ) == unchanged
            &&& sun && !rain && valid_hp(p) ==> end_of_turn_self_effect(
                p, speed_boost, side_ref, active_index, Abilities::DRYSKIN, sun, rain,
                hail_or_snow, forme_stat_changes, status_removal,
            ).0.hp <= p.hp
            &&& rain && valid_hp(p) ==> end_of_turn_self_effect(
                p, speed_boost, side_ref, active_index, Abilities::DRYSKIN, sun, rain,
                hail_or_snow, forme_stat_changes, status_removal,
            ).0.hp >= p.hp
        }),
{
}

/// A pokemon whose ability does not act (none, or suppressed) changes nothing
/// at the end of a turn, and speed boost only ever raises the speed boost by
/// one, below six.
pub proof fn law_end_of_turn_inactive_and_speed_boost(
    p: Pokemon,
    speed_boost: i8,
    side_ref: SideReference,
    active_index: PokemonIndex,
    sun: bool,
    rain: bool,
    hail_or_snow: bool,
    forme_stat_changes: Seq<Instruction>,
    status_removal: Seq<Instruction>,
)
    ensures
        end_of_turn_self_effect(
            p, speed_boost, side_ref, active_index, Abilities::NONE, sun, rain, hail_or_snow,
            forme_stat_changes, status_removal,
        ) == (p, speed_boost, Seq::<Instruction>::empty()),
        ({
            let e = end_of_turn_self_effect(
                p, speed_boost, side_ref, active_index, Abilities::SPEEDBOOST, sun, rain,
                hail_or_snow, forme_stat_changes, status_removal,
            );
            &&& e.0 == p
            &&& speed_boost < 6 ==> e.1 == speed_boost + 1 && e.2.len() == 1
            &&& speed_boost >= 6 ==> e.1 == speed_boost && e.2.len() == 0
        }),
{
}

/// The healing abilities never heal past the maximum hp nor take hp away:
/// ice body, rain dish, poison heal and dry skin (in rain) leave an in-range hp
/// between what it was and the maximum; poison heal heals only a poisoned
/// pokemon; and no end-of-turn ability other than the forme changers, poison
/// heal, hydration and shed skin changes the species or the status.
pub proof fn law_end_of_turn_healing(
    p: Pokemon,
    speed_boost: i8,
    side_ref: SideReference,
    active_index: PokemonIndex,
    ability: Abilities,
    sun: bool,
    rain: bool,
    hail_or_snow: bool,
    forme_stat_changes: Seq<Instruction>,
    status_removal: Seq<Instruction>,
)
    requires
        valid_hp(p),
    ensures
        ({
            let e = end_of_turn_self_effect(
                p, speed_boost, side_ref, active_index, ability, sun, rain, hail_or_snow,
                forme_stat_changes, status_removal,
            );
            &&& (ability == Abilities::ICEBODY || ability == Abilities::RAINDISH || ability
                == Abilities::POISONHEAL || (ability == Abilities::DRYSKIN && rain)) ==> p.hp
                <= e.0.hp <= p.maxhp
            &&& ability == Abilities::POISONHEAL && p.status != PokemonStatus::POISON && p.status
                != PokemonStatus::TOXIC ==> e == (p, speed_boost, Seq::<Instruction>::empty())
            &&& ability == Abilities::POISONHEAL && (p.status == PokemonStatus::POISON
                || p.status == PokemonStatus::TOXIC) && p.hp < p.maxhp ==> e.0.hp == p.hp + (
            if p.maxhp / 8 <= p.maxhp - p.hp {
                p.maxhp / 8
            } else {
                p.maxhp - p.hp
            })
            &&& (ability == Abilities::SOLARPOWER || (ability == Abilities::DRYSKIN && !rain))
                ==> e.0.hp <= p.hp
            &&& e.0.maxhp == p.maxhp
            &&& e.0.ability == p.ability
            &&& e.0.item == p.item
            &&& !(ability == Abilities::HUNGERSWITCH || ability == Abilities::SHIELDSDOWN
                || ability == Abilities::SCHOOLING) ==> e.0.id == p.id
            &&& !(ability == Abilities::HYDRATION || ability == Abilities::SHEDSKIN) ==> e.0.status
                == p.status
        }),
{
}

/// The hp-driven formes at the end of a turn: shields down turns minior into
/// its core at half hp or below and into its meteor form above half; schooling
/// breaks the school at a quarter hp or below and forms it above a quarter.
pub proof fn law_hp_formes(
    p: Pokemon,
    speed_boost: i8,
    side_ref: SideReference,
    active_index: PokemonIndex,
    sun: bool,
    rain: bool,
    hail_or_snow: bool,
    forme_stat_changes: Seq<Instruction>,
    status_removal: Seq<Instruction>,
)
    requires
        valid_hp(p),
    ensures
        ({
            let shields = end_of_turn_self_effect(
                p, speed_boost, side_ref, active_index, Abilities::SHIELDSDOWN, sun, rain,
                hail_or_snow, forme_stat_changes, status_removal,
            );
            let school = end_of_turn_self_effect(
                p, speed_boost, side_ref, active_index, Abilities::SCHOOLING, sun, rain,
                hail_or_snow, forme_stat_changes, status_removal,
            );
            &&& p.id == PokemonName::MINIORMETEOR && 2 * p.hp <= p.maxhp ==> shields.0.id
                == PokemonName::MINIOR
            &&& 2 * p.hp > p.maxhp + 1 ==> shields.0.id == PokemonName::MINIORMETEOR
            &&& p.id == PokemonName::WISHIWASHISCHOOL && 4 * p.hp <= p.maxhp ==> school.0.id
                == PokemonName::WISHIWASHI
            &&& p.id == PokemonName::WISHIWASHI && 4 * p.hp > p.maxhp + 3 ==> school.0.id
                == PokemonName::WISHIWASHISCHOOL
            &&& shields.0.hp == p.hp && school.0.hp == p.hp
        }),
{
}

/// Bad dreams acts exactly on a sleeping opposing pokemon, and takes an eighth
/// of its maximum hp, no more than it has, so an in-range hp stays in range.
pub proof fn law_bad_dreams(d: Pokemon, ability: Abilities)
    ensures
        bad_dreams_acts(ability, d) <==> (ability == Abilities::BADDREAMS && d.status
            == PokemonStatus::SLEEP),
        valid_hp(d) ==> 0 <= bad_dreams_damage(d) <= d.hp,
        valid_hp(d) ==> bad_dreams_damage(d) == (if d.maxhp / 8 <= d.hp {
            d.maxhp / 8
        } else {
            d.hp as int
        }),
{
}

/// The end of a turn as a whole: a suppressed ability changes nothing on either
/// side and records nothing; rain dish heals in rain or heavy rain, ice body in
/// hail or snow, and solar power hurts in sun or harsh sun, each only where no
/// ability suppresses the weather, and in any other weather they do nothing;
/// bad dreams hurts a sleeping opposing pokemon and no other end-of-turn
/// ability touches the opposing side; the weather and terrain stay.
pub proof fn law_end_of_turn_outcome(
    s0: State,
    s1: State,
    ins0: Seq<Instruction>,
    ins1: Seq<Instruction>,
    side_ref: SideReference,
    active_ability_is_suppressed: bool,
    weather_is_suppressed: bool,
    forme_stat_changes: Seq<Instruction>,
    status_removal: Seq<Instruction>,
)
    requires
        end_of_turn_outcome(
            s0,
            s1,
            ins0,
            ins1,
            side_ref,
            active_ability_is_suppressed,
            weather_is_suppressed,
            forme_stat_changes,
            status_removal,
        ),
        s0.wf(),
    ensures
        ({
            let p0 = s0.side(side_ref).active();
            let p1 = s1.side(side_ref).active();
            let d0 = s0.side(side_ref.other()).active();
            let d1 = s1.side(side_ref.other()).active();
            let w = s0.weather.weather_type;
            let rain = !weather_is_suppressed && (w == Weather::RAIN || w == Weather::HEAVYRAIN);
            let sun = !weather_is_suppressed && (w == Weather::SUN || w == Weather::HARSHSUN);
            let hail = !weather_is_suppressed && (w == Weather::HAIL || w == Weather::SNOW);
            let a = p0.ability;
            &&& s1.weather == s0.weather
            &&& s1.terrain == s0.terrain
            &&& active_ability_is_suppressed ==> p1 == p0 && d1 == d0 && ins1 == ins0
                && s1.side(side_ref).speed_boost == s0.side(side_ref).speed_boost
            &&& !active_ability_is_suppressed && a == Abilities::RAINDISH && rain && valid_hp(p0)
                && p0.hp < p0.maxhp && p0.maxhp >= 16 ==> p1.hp > p0.hp
            &&& !active_ability_is_suppressed && a == Abilities::RAINDISH && !rain ==> p1 == p0
                && ins1 == ins0
            &&& !active_ability_is_suppressed && a == Abilities::ICEBODY && hail && valid_hp(p0)
                && p0.hp < p0.maxhp && p0.maxhp >= 16 ==> p1.hp > p0.hp
            &&& !active_ability_is_suppressed && a == Abilities::ICEBODY && !hail ==> p1 == p0
                && ins1 == ins0
            &&& !active_ability_is_suppressed && a == Abilities::SOLARPOWER && sun && valid_hp(p0)
                && p0.hp < p0.maxhp && p0.maxhp >= 8 ==> p1.hp < p0.hp
            &&& !active_ability_is_suppressed && a == Abilities::SOLARPOWER && !sun ==> p1 == p0
                && ins1 == ins0
            &&& !active_ability_is_suppressed && a == Abilities::BADDREAMS && d0.status
                == PokemonStatus::SLEEP && valid_hp(d0) && d0.hp > 0 && d0.maxhp >= 8 ==> d1.hp
                < d0.hp && p1 == p0
            &&& (active_ability_is_suppressed || a != Abilities::BADDREAMS || d0.status
                != PokemonStatus::SLEEP) ==> d1 == d0
        }),
{
    assert(s1.side(side_ref).pokemon@.len() == 6);
    assert(s1.side(side_ref.other()).pokemon@.len() == 6);
    assert(ins0 + Seq::<Instruction>::empty() + Seq::<Instruction>::empty() =~= ins0);
}

} // verus!
