//! What abilities do as a move is about to be used: the defender's ice face and
//! disguise, and the attacker's gulp missile, protean and libero, and gorilla
//! tactics.

use vstd::prelude::*;
use crate::abilities::{apply_volatile, forme_change, Abilities};
use crate::end_of_turn::{ability_damage, acting_ability, min_int, valid_hp};
use crate::instruction::{
    ApplyVolatileStatusInstruction, ChangeType, DamageWithFaintContextInstruction, FaintContext,
    FormeChangeInstruction, Instruction,
};
use crate::state::{
    Choice, Choices, MoveCategory, Pokemon, PokemonIndex, PokemonName, PokemonType,
    PokemonVolatileStatus, Side, SideReference, State,
};

verus! {

/// The pokemon has the given type.
pub open spec fn has_type(p: Pokemon, t: PokemonType) -> bool {
    p.type1 == t || p.type2 == t
}

/// Ice face blocks the move: the defender is an eiscue with ice face, the move
/// is physical, and it does not hit a substitute instead (a substitute takes
/// the hit unless the move is sound based or the attacker has infiltrator).
pub open spec fn ice_face_blocks(
    defending_ability: Abilities,
    active_ability: Abilities,
    choice: Choice,
    d: Pokemon,
    defender_has_substitute: bool,
) -> bool {
    &&& defending_ability == Abilities::ICEFACE
    &&& d.id == PokemonName::EISCUE
    &&& choice.category == MoveCategory::Physical
    &&& !(defender_has_substitute && !choice.sound && active_ability != Abilities::INFILTRATOR)
}

/// Disguise breaks: the defender is a mimikyu (or its totem) with disguise, and
/// the move is physical or special.
pub open spec fn disguise_breaks(defending_ability: Abilities, choice: Choice, d: Pokemon) -> bool {
    &&& defending_ability == Abilities::DISGUISE
    &&& (choice.category == MoveCategory::Physical || choice.category == MoveCategory::Special)
    &&& (d.id == PokemonName::MIMIKYU || d.id == PokemonName::MIMIKYUTOTEM)
}

/// What breaking the disguise costs: an eighth of the maximum hp, no more than
/// the pokemon has.
pub open spec fn disguise_damage(d: Pokemon) -> int {
    min_int(d.hp as int, d.maxhp / 8)
}

/// Half of an integer, rounded toward zero, as integer division does.
pub open spec fn half_toward_zero(x: int) -> int {
    if x >= 0 {
        x / 2
    } else {
        -((-x) / 2)
    }
}

/// The forme gulp missile takes: gulping above half hp, gorging otherwise.
pub open spec fn gulp_missile_forme(p: Pokemon) -> PokemonName {
    if p.hp > half_toward_zero(p.maxhp as int) {
        PokemonName::CRAMORANTGULPING
    } else {
        PokemonName::CRAMORANTGORGING
    }
}

/// Gulp missile acts: a cramorant with it uses surf or dive.
pub open spec fn gulp_missile_acts(active_ability: Abilities, p: Pokemon, choice: Choice) -> bool {
    &&& active_ability == Abilities::GULPMISSILE
    &&& p.id == PokemonName::CRAMORANT
    &&& (choice.move_id == Choices::SURF || choice.move_id == Choices::DIVE)
}

/// Protean or libero acts: the side has not changed type yet, and the attacker,
/// which has not terastallized, lacks the move's type.
pub open spec fn protean_acts(active_ability: Abilities, side: Side, choice: Choice) -> bool {
    &&& (active_ability == Abilities::PROTEAN || active_ability == Abilities::LIBERO)
    &&& !side.volatiles().contains(PokemonVolatileStatus::TYPECHANGE)
    &&& !has_type(side.active(), choice.move_type)
    &&& !side.active().terastallized
}

/// The instructions of protean or libero: the type change to the move's type
/// alone, then the type-change volatile status.
pub open spec fn protean_instructions(side_ref: SideReference, p: Pokemon, t: PokemonType) -> Seq<
    Instruction,
> {
    seq![
        Instruction::ChangeType(
            ChangeType {
                side_ref: side_ref,
                new_types: (t, PokemonType::TYPELESS),
                old_types: (p.type1, p.type2),
            },
        ),
        apply_volatile(side_ref, PokemonVolatileStatus::TYPECHANGE),
    ]
}

/// The attacker's part: its active pokemon afterwards and the instructions
/// recording it. Gorilla tactics records the given choice-lock instructions.
pub open spec fn attacker_effect(
    side: Side,
    side_ref: SideReference,
    active_ability: Abilities,
    choice: Choice,
    choice_lock: Seq<Instruction>,
) -> (Pokemon, Seq<Instruction>) {
    let p = side.active();
    if gulp_missile_acts(active_ability, p, choice) {
        (
            Pokemon { id: gulp_missile_forme(p), ..p },
            seq![forme_change(side_ref, p.id, gulp_missile_forme(p))],
        )
    } else if protean_acts(active_ability, side, choice) {
        (
            Pokemon { type1: choice.move_type, type2: PokemonType::TYPELESS, ..p },
            protean_instructions(side_ref, p, choice.move_type),
        )
    } else if active_ability == Abilities::GORILLATACTICS {
        (p, choice_lock)
    } else {
        (p, Seq::empty())
    }
}

/// The defender's part when its disguise breaks: the busted forme, and the
/// damage.
pub open spec fn disguise_instructions(
    side_ref: SideReference,
    defending_index: PokemonIndex,
    d: Pokemon,
) -> Seq<Instruction> {
    seq![
        forme_change(side_ref.other(), d.id, PokemonName::MIMIKYUBUSTED),
        ability_damage(
            side_ref.other(),
            disguise_damage(d),
            side_ref.other(),
            defending_index,
            Abilities::DISGUISE,
        ),
    ]
}

/// The defender's ability as the attacker meets it: none where it is
/// suppressed or the attacker ignores it.
pub open spec fn met_ability(d: Pokemon, suppressed: bool, ignored: bool) -> Abilities {
    if suppressed || ignored {
        Abilities::NONE
    } else {
        d.ability
    }
}

/// Both sides as a move is about to be used.
#[verifier::rlimit(60)]
fn before_move_sides(
    attacking: &mut Side,
    defending: &mut Side,
    choice: &mut Choice,
    side_ref: SideReference,
    active_ability: Abilities,
    defending_ability: Abilities,
    choice_lock: Vec<Instruction>,
    instructions: &mut Vec<Instruction>,
) -> (zeroed: bool)
    requires
        old(attacking).wf(),
        old(defending).wf(),
        disguise_breaks(defending_ability, *old(choice), old(defending).active()) ==> valid_hp(
            old(defending).active(),
        ),
    ensures
        zeroed == disguise_breaks(defending_ability, *old(choice), old(defending).active()),
        *final(choice) == (Choice {
            damage_blocked: old(choice).damage_blocked || ice_face_blocks(
                defending_ability,
                active_ability,
                *old(choice),
                old(defending).active(),
                old(defending).volatiles().contains(PokemonVolatileStatus::SUBSTITUTE),
            ),
            ..*old(choice)
        }),
        final(attacking).wf(),
        final(defending).wf(),
        final(attacking).pokemon@ == old(attacking).pokemon@.update(
            old(attacking).active_index.spec_position(),
            attacker_effect(*old(attacking), side_ref, active_ability, *old(choice), choice_lock@).0,
        ),
        protean_acts(active_ability, *old(attacking), *old(choice)) ==> final(attacking).volatiles()
            == old(attacking).volatiles().insert(PokemonVolatileStatus::TYPECHANGE),
        !protean_acts(active_ability, *old(attacking), *old(choice))
            ==> final(attacking).volatile_statuses == old(attacking).volatile_statuses,
        final(attacking).active_index == old(attacking).active_index,
        final(attacking).side_conditions == old(attacking).side_conditions,
        final(attacking).speed_boost == old(attacking).speed_boost,
        zeroed ==> final(defending).pokemon@ == old(defending).pokemon@.update(
            old(defending).active_index.spec_position(),
            Pokemon {
                id: PokemonName::MIMIKYUBUSTED,
                hp: (old(defending).active().hp - disguise_damage(old(defending).active())) as i16,
                ..old(defending).active()
            },
        ),
        !zeroed ==> final(defending).pokemon == old(defending).pokemon,
        final(defending).active_index == old(defending).active_index,
        final(defending).volatile_statuses == old(defending).volatile_statuses,
        final(defending).side_conditions == old(defending).side_conditions,
        final(defending).speed_boost == old(defending).speed_boost,
        final(instructions)@ == old(instructions)@ + (if zeroed {
            disguise_instructions(side_ref, old(defending).active_index, old(defending).active())
        } else {
            Seq::<Instruction>::empty()
        }) + attacker_effect(*old(attacking), side_ref, active_ability, *old(choice), choice_lock@).1,
{
    let ghost start = instructions@;
    let ghost c0 = *choice;
    let ghost a0 = *attacking;
    let ghost cl = choice_lock@;
    let mut choice_lock = choice_lock;
    let has_substitute = defending.has_volatile(PokemonVolatileStatus::SUBSTITUTE);
    let d = *defending.get_active_immutable();
    let defending_index = defending.active_index;
    let mut zeroed = false;
    if defending_ability == Abilities::ICEFACE {
        let hit_substitute = has_substitute && !choice.sound && active_ability
            != Abilities::INFILTRATOR;
        if d.id == PokemonName::EISCUE && choice.category == MoveCategory::Physical
            && !hit_substitute {
            choice.damage_blocked = true;
        }
    } else if defending_ability == Abilities::DISGUISE && (choice.category
        == MoveCategory::Physical || choice.category == MoveCategory::Special) && (d.id
        == PokemonName::MIMIKYU || d.id == PokemonName::MIMIKYUTOTEM) {
        zeroed = true;
        let other_ref = side_ref.get_other_side();
        instructions.push(
            Instruction::FormeChange(
                FormeChangeInstruction {
                    side_ref: other_ref,
                    name_change: PokemonName::MIMIKYUBUSTED.number() - d.id.number(),
                },
            ),
        );
        let dmg = if d.hp <= d.maxhp / 8 {
            d.hp
        } else {
            d.maxhp / 8
        };
        instructions.push(
            Instruction::DamageWithFaintContext(
                DamageWithFaintContextInstruction {
                    side_ref: other_ref,
                    damage_amount: dmg,
                    faint_context: FaintContext::ability_effect(
                        other_ref,
                        defending_index,
                        Abilities::DISGUISE,
                    ),
                },
            ),
        );
        let mut nd = d;
        nd.id = PokemonName::MIMIKYUBUSTED;
        nd.hp = d.hp - dmg;
        defending.set_active(nd);
    }
    proof {
        if zeroed {
            assert(instructions@ =~= start + disguise_instructions(side_ref, defending_index, d));
        } else {
            assert(instructions@ =~= start + Seq::<Instruction>::empty());
        }
    }
    let ghost mid = instructions@;
    let p = *attacking.get_active_immutable();
    if active_ability == Abilities::GULPMISSILE {
        if p.id == PokemonName::CRAMORANT && (choice.move_id == Choices::SURF || choice.move_id
            == Choices::DIVE) {
            let new_forme = if p.hp > p.maxhp / 2 {
                PokemonName::CRAMORANTGULPING
            } else {
                PokemonName::CRAMORANTGORGING
            };
            instructions.push(
                Instruction::FormeChange(
                    FormeChangeInstruction {
                        side_ref,
                        name_change: new_forme.number() - p.id.number(),
                    },
                ),
            );
            let mut np = p;
            np.id = new_forme;
            attacking.set_active(np);
        }
    } else if active_ability == Abilities::PROTEAN || active_ability == Abilities::LIBERO {
        if !attacking.has_volatile(PokemonVolatileStatus::TYPECHANGE) {
            if !(p.type1 == choice.move_type || p.type2 == choice.move_type) && !p.terastallized {
                instructions.push(
                    Instruction::ChangeType(
                        ChangeType {
                            side_ref,
                            new_types: (choice.move_type, PokemonType::TYPELESS),
                            old_types: (p.type1, p.type2),
                        },
                    ),
                );
                let mut np = p;
                np.type1 = choice.move_type;
                np.type2 = PokemonType::TYPELESS;
                attacking.set_active(np);
                instructions.push(
                    Instruction::ApplyVolatileStatus(
                        ApplyVolatileStatusInstruction {
                            side_ref,
                            volatile_status: PokemonVolatileStatus::TYPECHANGE,
                        },
                    ),
                );
                attacking.add_volatile(PokemonVolatileStatus::TYPECHANGE);
            }
        }
    } else if active_ability == Abilities::GORILLATACTICS {
        instructions.append(&mut choice_lock);
    }
    proof {
        assert(instructions@ =~= mid + attacker_effect(a0, side_ref, active_ability, c0, cl).1);
    }
    zeroed
}

/// What happens as a move is about to be used, as a relation between the
/// battle, the move and the instructions before and after, and whether the
/// move's base power drops to zero.
pub open spec fn before_move_outcome(
    s0: State,
    s1: State,
    c0: Choice,
    c1: Choice,
    ins0: Seq<Instruction>,
    ins1: Seq<Instruction>,
    base_power_zeroed: bool,
    side_ref: SideReference,
    active_ability_is_suppressed: bool,
    defending_ability_is_suppressed: bool,
    target_ability_ignored: bool,
    choice_lock: Seq<Instruction>,
) -> bool {
    let attacking = s0.side(side_ref);
    let defending = s0.side(side_ref.other());
    let active_ability = acting_ability(attacking.active(), active_ability_is_suppressed);
    let defending_ability = met_ability(
        defending.active(),
        defending_ability_is_suppressed,
        target_ability_ignored,
    );
    let attacker = attacker_effect(
        attacking,
        side_ref,
        active_ability,
        c0,
        choice_lock,
    );
    let d = defending.active();
    &&& base_power_zeroed == disguise_breaks(defending_ability, c0, d)
    &&& c1 == (Choice {
        damage_blocked: c0.damage_blocked || ice_face_blocks(
            defending_ability,
            active_ability,
            c0,
            d,
            defending.volatiles().contains(PokemonVolatileStatus::SUBSTITUTE),
        ),
        ..c0
    })
    &&& s1.wf()
    &&& s1.side(side_ref).pokemon@ =~= attacking.pokemon@.update(
        attacking.active_index.spec_position(),
        attacker.0,
    )
    &&& protean_acts(active_ability, attacking, c0) ==> s1.side(
        side_ref,
    ).volatiles() == attacking.volatiles().insert(PokemonVolatileStatus::TYPECHANGE)
    &&& !protean_acts(active_ability, attacking, c0) ==> s1.side(
        side_ref,
    ).volatile_statuses == attacking.volatile_statuses
    &&& s1.side(side_ref).active_index == attacking.active_index
    &&& s1.side(side_ref).side_conditions == attacking.side_conditions
    &&& s1.side(side_ref).speed_boost == attacking.speed_boost
    &&& base_power_zeroed ==> s1.side(side_ref.other()).pokemon@
        =~= defending.pokemon@.update(
        defending.active_index.spec_position(),
        Pokemon {
            id: PokemonName::MIMIKYUBUSTED,
            hp: (d.hp - disguise_damage(d)) as i16,
            ..d
        },
    )
    &&& !base_power_zeroed ==> s1.side(side_ref.other()).pokemon
        == defending.pokemon
    &&& s1.side(side_ref.other()).active_index == defending.active_index
    &&& s1.side(side_ref.other()).volatile_statuses == defending.volatile_statuses
    &&& s1.side(side_ref.other()).side_conditions == defending.side_conditions
    &&& s1.side(side_ref.other()).speed_boost == defending.speed_boost
    &&& s1.weather == s0.weather
    &&& s1.terrain == s0.terrain
    &&& ins1 =~= ins0 + (if base_power_zeroed {
        disguise_instructions(side_ref, defending.active_index, d)
    } else {
        Seq::<Instruction>::empty()
    }) + attacker.1
}

/// What abilities do as a side's active pokemon is about to use a move. On the
/// defending side, ice face blocks the damage of a physical move that does not
/// hit a substitute, and disguise breaks on a physical or special move: the
/// mimikyu turns busted and loses an eighth of its maximum hp (no more than it
/// has), and the move's base power drops to zero, which the result reports. On
/// the attacking side, gulp missile turns a cramorant using surf or dive into
/// its gulping forme above half hp and its gorging forme otherwise; protean and
/// libero give the attacker the move's type alone, once, unless it has it or has
/// terastallized; gorilla tactics records the given choice-lock instructions.
/// Whether each side's ability is suppressed, and whether the attacker ignores
/// the defender's ability, are given.
pub fn ability_before_move(
    state: &mut State,
    choice: &mut Choice,
    side_ref: &SideReference,
    instructions: &mut Vec<Instruction>,
    active_ability_is_suppressed: bool,
    defending_ability_is_suppressed: bool,
    target_ability_ignored: bool,
    choice_lock_instructions: Vec<Instruction>,
) -> (base_power_zeroed: bool)
    requires
        old(state).wf(),
        disguise_breaks(
            met_ability(
                old(state).side(side_ref.other()).active(),
                defending_ability_is_suppressed,
                target_ability_ignored,
            ),
            *old(choice),
            old(state).side(side_ref.other()).active(),
        ) ==> valid_hp(old(state).side(side_ref.other()).active()),
    ensures
        before_move_outcome(
            *old(state),
            *final(state),
            *old(choice),
            *final(choice),
            old(instructions)@,
            final(instructions)@,
            base_power_zeroed,
            *side_ref,
            active_ability_is_suppressed,
            defending_ability_is_suppressed,
            target_ability_ignored,
            choice_lock_instructions@,
        ),
{
    match side_ref {
        SideReference::SideOne => {
            let active_ability = if active_ability_is_suppressed {
                Abilities::NONE
            } else {
                state.side_one.get_active_immutable().ability
            };
            let defending_ability = if defending_ability_is_suppressed || target_ability_ignored {
                Abilities::NONE
            } else {
                state.side_two.get_active_immutable().ability
            };
            before_move_sides(
                &mut state.side_one,
                &mut state.side_two,
                choice,
                *side_ref,
                active_ability,
                defending_ability,
                choice_lock_instructions,
                instructions,
            )
        },
        SideReference::SideTwo => {
            let active_ability = if active_ability_is_suppressed {
                Abilities::NONE
            } else {
                state.side_two.get_active_immutable().ability
            };
            let defending_ability = if defending_ability_is_suppressed || target_ability_ignored {
                Abilities::NONE
            } else {
                state.side_one.get_active_immutable().ability
            };
            before_move_sides(
                &mut state.side_two,
                &mut state.side_one,
                choice,
                *side_ref,
                active_ability,
                defending_ability,
                choice_lock_instructions,
                instructions,
            )
        },
    }
}

/// Protean and libero act alike before a move: an attacker that has not
/// changed type yet, lacks the move's type and has not terastallized takes the
/// move's type alone, recorded by a type change and then the type-change
/// volatile status; any other attacker stays as it is and nothing is recorded.
pub proof fn law_protean_and_libero(
    side: Side,
    side_ref: SideReference,
    choice: Choice,
    choice_lock: Seq<Instruction>,
    ability: Abilities,
)
    requires
        ability == Abilities::PROTEAN || ability == Abilities::LIBERO,
    ensures
        ({
            let p = side.active();
            let fresh = !side.volatiles().contains(PokemonVolatileStatus::TYPECHANGE) && p.type1
                != choice.move_type && p.type2 != choice.move_type && !p.terastallized;
            let e = attacker_effect(side, side_ref, ability, choice, choice_lock);
            &&& protean_acts(ability, side, choice) == fresh
            &&& fresh ==> e == (
                Pokemon { type1: choice.move_type, type2: PokemonType::TYPELESS, ..p },
                seq![
                    Instruction::ChangeType(
                        ChangeType {
                            side_ref: side_ref,
                            new_types: (choice.move_type, PokemonType::TYPELESS),
                            old_types: (p.type1, p.type2),
                        },
                    ),
                    Instruction::ApplyVolatileStatus(
                        ApplyVolatileStatusInstruction {
                            side_ref: side_ref,
                            volatile_status: PokemonVolatileStatus::TYPECHANGE,
                        },
                    ),
                ],
            )
            &&& !fresh ==> e == (p, Seq::<Instruction>::empty())
        }),
{
}

/// Gulp missile before a move: a cramorant using surf or dive catches a prey,
/// gulping above half its maximum hp and gorging at half or below, recorded by
/// one forme change; any other move, or any other pokemon, changes nothing.
pub proof fn law_gulp_missile_catches(
    side: Side,
    side_ref: SideReference,
    choice: Choice,
    choice_lock: Seq<Instruction>,
)
    ensures
        ({
            let p = side.active();
            let e = attacker_effect(side, side_ref, Abilities::GULPMISSILE, choice, choice_lock);
            let catches = p.id == PokemonName::CRAMORANT && (choice.move_id == Choices::SURF
                || choice.move_id == Choices::DIVE);
            &&& catches && valid_hp(p) && 2 * p.hp > p.maxhp ==> e.0 == (Pokemon {
                id: PokemonName::CRAMORANTGULPING,
                ..p
            })
            &&& catches && valid_hp(p) && 2 * p.hp <= p.maxhp ==> e.0 == (Pokemon {
                id: PokemonName::CRAMORANTGORGING,
                ..p
            })
            &&& catches ==> e.1.len() == 1 && e.1[0] is FormeChange
            &&& !catches ==> e == (p, Seq::<Instruction>::empty())
        }),
{
}

/// Ice face blocks only physical moves of an eiscue that has its ice face, and
/// disguise breaks only on damaging moves against mimikyu in its disguised
/// formes.
pub proof fn law_defensive_formes(
    defending_ability: Abilities,
    active_ability: Abilities,
    choice: Choice,
    d: Pokemon,
    defender_has_substitute: bool,
)
    ensures
        ice_face_blocks(defending_ability, active_ability, choice, d, defender_has_substitute)
            ==> defending_ability == Abilities::ICEFACE && d.id == PokemonName::EISCUE
            && choice.category == MoveCategory::Physical,
        defending_ability == Abilities::ICEFACE && d.id == PokemonName::EISCUE && choice.category
            == MoveCategory::Physical && !defender_has_substitute ==> ice_face_blocks(
            defending_ability,
            active_ability,
            choice,
            d,
            defender_has_substitute,
        ),
        disguise_breaks(defending_ability, choice, d) <==> (defending_ability
            == Abilities::DISGUISE && (choice.category == MoveCategory::Physical
            || choice.category == MoveCategory::Special) && (d.id
            == PokemonName::MIMIKYU || d.id == PokemonName::MIMIKYUTOTEM)),
{
}

/// Before a move, gorilla tactics records the choice lock and changes nothing
/// else, and an attacker with none of gulp missile, protean, libero and gorilla
/// tactics changes nothing; breaking a disguise costs an eighth of the maximum
/// hp, no more than the pokemon has.
pub proof fn law_other_attackers_and_disguise(
    side: Side,
    side_ref: SideReference,
    ability: Abilities,
    choice: Choice,
    choice_lock: Seq<Instruction>,
    d: Pokemon,
)
    ensures
        attacker_effect(side, side_ref, Abilities::GORILLATACTICS, choice, choice_lock) == (
            side.active(),
            choice_lock,
        ),
        !(ability == Abilities::GULPMISSILE || ability == Abilities::PROTEAN || ability
            == Abilities::LIBERO || ability == Abilities::GORILLATACTICS) ==> attacker_effect(
            side,
            side_ref,
            ability,
            choice,
            choice_lock,
        ) == (side.active(), Seq::<Instruction>::empty()),
        valid_hp(d) ==> 0 <= disguise_damage(d) <= d.hp,
        valid_hp(d) ==> disguise_damage(d) == (if d.hp <= d.maxhp / 8 {
            d.hp as int
        } else {
            d.maxhp / 8
        }),
{
}

/// Before a move, as a whole: a defender whose ability is suppressed or ignored
/// neither blocks nor breaks, so the move, the defender and the base power stay;
/// a suppressed attacker's ability changes nothing of the attacker; ice face
/// blocks a physical move against an eiscue without a substitute when its
/// ability counts, and never a special one; libero and protean give a fresh
/// attacker the move's type alone.
pub proof fn law_before_move_outcome(
    s0: State,
    s1: State,
    c0: Choice,
    c1: Choice,
    ins0: Seq<Instruction>,
    ins1: Seq<Instruction>,
    base_power_zeroed: bool,
    side_ref: SideReference,
    active_ability_is_suppressed: bool,
    defending_ability_is_suppressed: bool,
    target_ability_ignored: bool,
    choice_lock: Seq<Instruction>,
)
    requires
        before_move_outcome(
            s0,
            s1,
            c0,
            c1,
            ins0,
            ins1,
            base_power_zeroed,
            side_ref,
            active_ability_is_suppressed,
            defending_ability_is_suppressed,
            target_ability_ignored,
            choice_lock,
        ),
        s0.wf(),
    ensures
        ({
            let p0 = s0.side(side_ref).active();
            let p1 = s1.side(side_ref).active();
            let d0 = s0.side(side_ref.other()).active();
            let d1 = s1.side(side_ref.other()).active();
            let counts = !defending_ability_is_suppressed && !target_ability_ignored;
            &&& !counts ==> c1 == c0 && !base_power_zeroed && d1 == d0
            &&& active_ability_is_suppressed ==> p1 == p0 && s1.side(side_ref).volatile_statuses
                == s0.side(side_ref).volatile_statuses
            &&& c0.category == MoveCategory::Special ==> c1 == c0
            &&& counts && d0.ability == Abilities::ICEFACE && d0.id == PokemonName::EISCUE
                && c0.category == MoveCategory::Physical && !s0.side(side_ref.other()).volatiles().contains(
                PokemonVolatileStatus::SUBSTITUTE,
            ) ==> c1.damage_blocked
            &&& c1.move_id == c0.move_id && c1.category == c0.category && c1.move_type
                == c0.move_type
            &&& !active_ability_is_suppressed && (p0.ability == Abilities::LIBERO || p0.ability
                == Abilities::PROTEAN) && !s0.side(side_ref).volatiles().contains(
                PokemonVolatileStatus::TYPECHANGE,
            ) && p0.type1 != c0.move_type && p0.type2 != c0.move_type && !p0.terastallized
                ==> p1.type1 == c0.move_type && p1.type2 == PokemonType::TYPELESS && s1.side(
                side_ref,
            ).volatiles().contains(PokemonVolatileStatus::TYPECHANGE)
            &&& s1.weather == s0.weather && s1.terrain == s0.terrain
        }),
{
    assert(s1.side(side_ref).pokemon@.len() == 6);
    assert(s1.side(side_ref.other()).pokemon@.len() == 6);
}

} // verus!
