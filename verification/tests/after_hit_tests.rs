use poke_engine::abilities::{ability_number, Abilities};
use poke_engine::after_hit::{ability_after_damage_hit, HitFacts};
use poke_engine::instruction::{
    ApplyVolatileStatusInstruction, BoostInstruction, ChangeAbilityInstruction,
    ChangeItemInstruction, ChangeSideConditionInstruction, ChangeStatusInstruction, ChangeType,
    ChangeWeather, DamageWithFaintContextInstruction, FaintContext, FormeChangeInstruction,
    Instruction,
};
use poke_engine::state::{
    Choice, Choices, Items, MoveCategory, Pokemon, PokemonBoostableStat, PokemonIndex,
    PokemonName, PokemonSideCondition, PokemonStatus, PokemonType, PokemonVolatileStatus, Side,
    SideConditions, SideReference, State, StateTerrain, StateWeather, Terrain, Weather,
};

fn pkmn(id: PokemonName, ability: Abilities, hp: i16) -> Pokemon {
    Pokemon {
        id,
        hp,
        maxhp: 100,
        ability,
        base_ability: ability,
        item: Items::NONE,
        status: PokemonStatus::NONE,
        terastallized: false,
        type1: PokemonType::NORMAL,
        type2: PokemonType::TYPELESS,
        sword_boost_used: false,
        shield_boost_used: false,
    }
}

fn side(active: Pokemon) -> Side {
    let mut pokemon = vec![pkmn(PokemonName::PIKACHU, Abilities::NONE, 100); 6];
    pokemon[0] = active;
    Side {
        active_index: PokemonIndex::P0,
        pokemon,
        volatile_statuses: vec![],
        side_conditions: SideConditions { toxic_spikes: 0, reflect: 0, light_screen: 0, aurora_veil: 0 },
        speed_boost: 0,
    }
}

fn battle(attacker: Pokemon, defender: Pokemon) -> State {
    State {
        side_one: side(attacker),
        side_two: side(defender),
        weather: StateWeather { weather_type: Weather::RAIN, turns_remaining: 2 },
        terrain: StateTerrain { terrain_type: Terrain::NONE, turns_remaining: 0 },
    }
}

fn facts() -> HitFacts {
    HitFacts {
        active_ability_is_suppressed: false,
        defending_ability_is_suppressed: false,
        active_item_is_active: true,
        defending_item_is_active: true,
        defending_item_is_permanent: false,
        sand_should_be_set: true,
        grassy_terrain_should_be_set: true,
        attacker_immune_to_burn: false,
        berries_blocked: false,
    }
}

fn contact_move() -> Choice {
    Choice {
        move_id: Choices::TACKLE,
        category: MoveCategory::Physical,
        move_type: PokemonType::NORMAL,
        sound: false,
        contact: true,
        wind: false,
        damage_blocked: false,
    }
}

fn plain() -> Pokemon {
    pkmn(PokemonName::PIKACHU, Abilities::NONE, 100)
}

fn boost(side_ref: SideReference, stat: PokemonBoostableStat, amount: i8) -> Instruction {
    Instruction::Boost(BoostInstruction { side_ref, stat, amount })
}

fn hit(state: &mut State, choice: &Choice, damage: i16, f: HitFacts, attacker_boosts: Vec<Instruction>, defender_boosts: Vec<Instruction>) -> (Vec<Instruction>, bool) {
    let mut ins = vec![];
    let paralysis = ability_after_damage_hit(state, choice, &SideReference::SideOne, damage, &mut ins, f, attacker_boosts, defender_boosts, vec![]);
    (ins, paralysis)
}

#[test]
fn moxie_boosts_after_a_knockout_only() {
    let atk = boost(SideReference::SideOne, PokemonBoostableStat::Attack, 1);
    let mut knocked_out = plain();
    knocked_out.hp = 0;
    let mut state = battle(pkmn(PokemonName::PIKACHU, Abilities::MOXIE, 100), knocked_out);
    let (ins, _) = hit(&mut state, &contact_move(), 30, facts(), vec![atk.clone()], vec![]);
    assert_eq!(ins, vec![atk.clone()]);

    let mut standing = battle(pkmn(PokemonName::PIKACHU, Abilities::MOXIE, 100), plain());
    let (ins, _) = hit(&mut standing, &contact_move(), 30, facts(), vec![atk], vec![]);
    assert!(ins.is_empty());
}

#[test]
fn magician_takes_the_defenders_item() {
    let mut holder = plain();
    holder.item = Items::LUMBERRY;
    let mut state = battle(pkmn(PokemonName::PIKACHU, Abilities::MAGICIAN, 100), holder);
    let (ins, _) = hit(&mut state, &contact_move(), 30, facts(), vec![], vec![]);
    assert_eq!(
        ins,
        vec![
            Instruction::ChangeItem(ChangeItemInstruction { side_ref: SideReference::SideOne, current_item: Items::NONE, new_item: Items::LUMBERRY }),
            Instruction::ChangeItem(ChangeItemInstruction { side_ref: SideReference::SideTwo, current_item: Items::LUMBERRY, new_item: Items::NONE }),
        ]
    );
    assert_eq!(state.side_one.pokemon[0].item, Items::LUMBERRY);
    assert_eq!(state.side_two.pokemon[0].item, Items::NONE);
}

#[test]
fn mummy_spreads_on_contact_unless_shielded() {
    let mut state = battle(pkmn(PokemonName::PIKACHU, Abilities::INTIMIDATE, 100), pkmn(PokemonName::PIKACHU, Abilities::MUMMY, 100));
    let (ins, _) = hit(&mut state, &contact_move(), 30, facts(), vec![], vec![]);
    assert_eq!(
        ins,
        vec![Instruction::ChangeAbility(ChangeAbilityInstruction {
            side_ref: SideReference::SideOne,
            ability_change: ability_number(Abilities::MUMMY) - ability_number(Abilities::INTIMIDATE),
        })]
    );
    assert_eq!(state.side_one.pokemon[0].ability, Abilities::MUMMY);

    let mut shielded = pkmn(PokemonName::PIKACHU, Abilities::INTIMIDATE, 100);
    shielded.item = Items::ABILITYSHIELD;
    let mut state = battle(shielded, pkmn(PokemonName::PIKACHU, Abilities::MUMMY, 100));
    let (ins, _) = hit(&mut state, &contact_move(), 30, facts(), vec![], vec![]);
    assert!(ins.is_empty());
    assert_eq!(state.side_one.pokemon[0].ability, Abilities::INTIMIDATE);
}

#[test]
fn wandering_spirit_swaps_abilities() {
    let mut state = battle(pkmn(PokemonName::PIKACHU, Abilities::INTIMIDATE, 100), pkmn(PokemonName::PIKACHU, Abilities::WANDERINGSPIRIT, 100));
    let (ins, _) = hit(&mut state, &contact_move(), 30, facts(), vec![], vec![]);
    assert_eq!(ins.len(), 2);
    assert_eq!(state.side_one.pokemon[0].ability, Abilities::WANDERINGSPIRIT);
    assert_eq!(state.side_two.pokemon[0].ability, Abilities::INTIMIDATE);
}

#[test]
fn gulp_missile_spits_and_reports_paralysis() {
    let mut state = battle(plain(), pkmn(PokemonName::CRAMORANTGORGING, Abilities::GULPMISSILE, 100));
    let (ins, paralysis) = hit(&mut state, &contact_move(), 30, facts(), vec![], vec![]);
    assert!(paralysis);
    assert_eq!(
        ins,
        vec![
            Instruction::FormeChange(FormeChangeInstruction { side_ref: SideReference::SideTwo, name_change: -2 }),
            Instruction::DamageWithFaintContext(DamageWithFaintContextInstruction {
                side_ref: SideReference::SideOne,
                damage_amount: 25,
                faint_context: FaintContext::ability_effect(SideReference::SideTwo, PokemonIndex::P0, Abilities::GULPMISSILE),
            }),
        ]
    );
    assert_eq!(state.side_one.pokemon[0].hp, 75);
    assert_eq!(state.side_two.pokemon[0].id, PokemonName::CRAMORANT);

    let def_drop = boost(SideReference::SideOne, PokemonBoostableStat::Defense, -1);
    let mut gulping = battle(plain(), pkmn(PokemonName::CRAMORANTGULPING, Abilities::GULPMISSILE, 100));
    let (ins, paralysis) = hit(&mut gulping, &contact_move(), 30, facts(), vec![], vec![def_drop.clone()]);
    assert!(!paralysis);
    assert_eq!(ins.len(), 3);
    assert_eq!(ins[2], def_drop);
}

#[test]
fn color_change_takes_the_moves_type() {
    let mut state = battle(plain(), pkmn(PokemonName::PIKACHU, Abilities::COLORCHANGE, 100));
    let mut surf = contact_move();
    surf.move_type = PokemonType::WATER;
    let (ins, _) = hit(&mut state, &surf, 30, facts(), vec![], vec![]);
    assert_eq!(
        ins,
        vec![Instruction::ChangeType(ChangeType {
            side_ref: SideReference::SideTwo,
            new_types: (PokemonType::WATER, PokemonType::TYPELESS),
            old_types: (PokemonType::NORMAL, PokemonType::TYPELESS),
        })]
    );
    assert_eq!(state.side_two.pokemon[0].type1, PokemonType::WATER);
}

#[test]
fn rough_skin_hurts_a_contact_attacker() {
    let mut state = battle(plain(), pkmn(PokemonName::PIKACHU, Abilities::ROUGHSKIN, 100));
    let (ins, _) = hit(&mut state, &contact_move(), 30, facts(), vec![], vec![]);
    assert_eq!(
        ins,
        vec![Instruction::DamageWithFaintContext(DamageWithFaintContextInstruction {
            side_ref: SideReference::SideOne,
            damage_amount: 12,
            faint_context: FaintContext::ability_effect(SideReference::SideTwo, PokemonIndex::P0, Abilities::ROUGHSKIN),
        })]
    );
    assert_eq!(state.side_one.pokemon[0].hp, 88);

    let mut no_contact = battle(plain(), pkmn(PokemonName::PIKACHU, Abilities::ROUGHSKIN, 100));
    let mut special = contact_move();
    special.contact = false;
    let (ins, _) = hit(&mut no_contact, &special, 30, facts(), vec![], vec![]);
    assert!(ins.is_empty());
}

#[test]
fn sand_spit_sets_sand_for_five_turns() {
    let mut state = battle(plain(), pkmn(PokemonName::PIKACHU, Abilities::SANDSPIT, 100));
    let (ins, _) = hit(&mut state, &contact_move(), 30, facts(), vec![], vec![]);
    assert_eq!(
        ins,
        vec![Instruction::ChangeWeather(ChangeWeather {
            new_weather: Weather::SAND,
            new_weather_turns_remaining: 5,
            previous_weather: Weather::RAIN,
            previous_weather_turns_remaining: 2,
        })]
    );
    assert_eq!(state.weather.weather_type, Weather::SAND);
    assert_eq!(state.weather.turns_remaining, 5);
}

#[test]
fn toxic_debris_lays_spikes_on_a_physical_hit() {
    let mut state = battle(plain(), pkmn(PokemonName::PIKACHU, Abilities::TOXICDEBRIS, 100));
    let (ins, _) = hit(&mut state, &contact_move(), 30, facts(), vec![], vec![]);
    assert_eq!(
        ins,
        vec![Instruction::ChangeSideCondition(ChangeSideConditionInstruction {
            side_ref: SideReference::SideOne,
            side_condition: PokemonSideCondition::ToxicSpikes,
            amount: 1,
        })]
    );
    assert_eq!(state.side_one.side_conditions.toxic_spikes, 1);
}

#[test]
fn spicy_spray_burns_the_attacker() {
    let mut state = battle(plain(), pkmn(PokemonName::PIKACHU, Abilities::SPICYSPRAY, 100));
    let (ins, _) = hit(&mut state, &contact_move(), 30, facts(), vec![], vec![]);
    assert_eq!(
        ins,
        vec![Instruction::ChangeStatus(ChangeStatusInstruction {
            side_ref: SideReference::SideOne,
            pokemon_index: PokemonIndex::P0,
            old_status: PokemonStatus::NONE,
            new_status: PokemonStatus::BURN,
        })]
    );
    assert_eq!(state.side_one.pokemon[0].status, PokemonStatus::BURN);

    let mut immune = facts();
    immune.attacker_immune_to_burn = true;
    let mut state = battle(plain(), pkmn(PokemonName::PIKACHU, Abilities::SPICYSPRAY, 100));
    let (ins, _) = hit(&mut state, &contact_move(), 30, immune, vec![], vec![]);
    assert!(ins.is_empty());
}

#[test]
fn innards_out_returns_the_damage_dealt() {
    let mut fainted = pkmn(PokemonName::PIKACHU, Abilities::INNARDSOUT, 0);
    fainted.maxhp = 100;
    let mut state = battle(pkmn(PokemonName::PIKACHU, Abilities::NONE, 40), fainted);
    let (ins, _) = hit(&mut state, &contact_move(), 60, facts(), vec![], vec![]);
    assert_eq!(
        ins,
        vec![Instruction::DamageWithFaintContext(DamageWithFaintContextInstruction {
            side_ref: SideReference::SideOne,
            damage_amount: 40,
            faint_context: FaintContext::ability_effect(SideReference::SideTwo, PokemonIndex::P0, Abilities::INNARDSOUT),
        })]
    );
    assert_eq!(state.side_one.pokemon[0].hp, 0);
}

#[test]
fn perish_body_dooms_both_sides() {
    let mut state = battle(plain(), pkmn(PokemonName::PIKACHU, Abilities::PERISHBODY, 100));
    let (ins, _) = hit(&mut state, &contact_move(), 30, facts(), vec![], vec![]);
    assert_eq!(
        ins,
        vec![
            Instruction::ApplyVolatileStatus(ApplyVolatileStatusInstruction { side_ref: SideReference::SideOne, volatile_status: PokemonVolatileStatus::PERISH4 }),
            Instruction::ApplyVolatileStatus(ApplyVolatileStatusInstruction { side_ref: SideReference::SideTwo, volatile_status: PokemonVolatileStatus::PERISH4 }),
        ]
    );
    assert_eq!(state.side_one.volatile_statuses, vec![PokemonVolatileStatus::PERISH4]);
    assert_eq!(state.side_two.volatile_statuses, vec![PokemonVolatileStatus::PERISH4]);
}

#[test]
fn electromorphosis_charges_the_defender() {
    let mut state = battle(plain(), pkmn(PokemonName::PIKACHU, Abilities::ELECTROMORPHOSIS, 100));
    let (ins, _) = hit(&mut state, &contact_move(), 30, facts(), vec![], vec![]);
    assert_eq!(
        ins,
        vec![Instruction::ApplyVolatileStatus(ApplyVolatileStatusInstruction { side_ref: SideReference::SideTwo, volatile_status: PokemonVolatileStatus::CHARGE })]
    );
    assert_eq!(state.side_two.volatile_statuses, vec![PokemonVolatileStatus::CHARGE]);
}

#[test]
fn cotton_down_lowers_the_attackers_speed() {
    let drop = boost(SideReference::SideOne, PokemonBoostableStat::Speed, -1);
    let mut state = battle(plain(), pkmn(PokemonName::PIKACHU, Abilities::COTTONDOWN, 100));
    let (ins, _) = hit(&mut state, &contact_move(), 30, facts(), vec![], vec![drop.clone()]);
    assert_eq!(ins, vec![drop]);
    assert_eq!(state.side_one.speed_boost, -1);
    assert_eq!(state.side_two.speed_boost, 0);
}

#[test]
fn battle_bond_raises_speed_after_a_knockout() {
    let boosts = vec![
        boost(SideReference::SideOne, PokemonBoostableStat::Attack, 1),
        boost(SideReference::SideOne, PokemonBoostableStat::SpecialAttack, 1),
        boost(SideReference::SideOne, PokemonBoostableStat::Speed, 1),
    ];
    let mut knocked_out = plain();
    knocked_out.hp = 0;
    let mut state = battle(pkmn(PokemonName::PIKACHU, Abilities::BATTLEBOND, 100), knocked_out);
    let (ins, _) = hit(&mut state, &contact_move(), 30, facts(), boosts.clone(), vec![]);
    assert_eq!(ins, boosts);
    assert_eq!(state.side_one.speed_boost, 1);
}
