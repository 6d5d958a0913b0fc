use poke_engine::abilities::{ability_before_move, ability_end_of_turn, Abilities};
use poke_engine::instruction::{
    ApplyVolatileStatusInstruction, BoostInstruction, ChangeStatusInstruction, ChangeType,
    DamageWithFaintContextInstruction, DisableMoveInstruction, FaintContext,
    FormeChangeInstruction, HealInstruction, Instruction,
};
use poke_engine::state::{
    Choice, Choices, Items, MoveCategory, Pokemon, PokemonBoostableStat, PokemonIndex,
    PokemonMoveIndex, PokemonName, PokemonStatus, PokemonType, PokemonVolatileStatus, Side,
    SideConditions, SideReference, State, StateTerrain, StateWeather, Terrain, Weather,
};

fn pkmn(id: PokemonName, ability: Abilities, hp: i16, maxhp: i16) -> Pokemon {
    Pokemon {
        id,
        hp,
        maxhp,
        ability,
        base_ability: ability,
        item: Items::NONE,
        status: PokemonStatus::NONE,
        terastallized: false,
        type1: PokemonType::NORMAL,
        type2: PokemonType::TYPELESS,
        sword_boost_used: false,
        shield_boost_used: false,
    }
}

fn side(active: Pokemon) -> Side {
    let mut pokemon = vec![pkmn(PokemonName::PIKACHU, Abilities::NONE, 100, 100); 6];
    pokemon[0] = active;
    Side {
        active_index: PokemonIndex::P0,
        pokemon,
        volatile_statuses: vec![],
        side_conditions: SideConditions { toxic_spikes: 0, reflect: 0, light_screen: 0, aurora_veil: 0 },
        speed_boost: 0,
    }
}

fn battle(one: Pokemon, two: Pokemon, weather: Weather) -> State {
    State {
        side_one: side(one),
        side_two: side(two),
        weather: StateWeather { weather_type: weather, turns_remaining: 3 },
        terrain: StateTerrain { terrain_type: Terrain::NONE, turns_remaining: 0 },
    }
}

fn plain(id: PokemonName) -> Pokemon {
    pkmn(id, Abilities::NONE, 100, 100)
}

fn choice(move_id: Choices, category: MoveCategory, move_type: PokemonType) -> Choice {
    Choice { move_id, category, move_type, sound: false, contact: false, wind: false, damage_blocked: false }
}

#[test]
fn speed_boost_raises_speed_until_six_stages() {
    let mut state = battle(pkmn(PokemonName::PIKACHU, Abilities::SPEEDBOOST, 100, 100), plain(PokemonName::PIKACHU), Weather::NONE);
    let mut ins = vec![];
    ability_end_of_turn(&mut state, &SideReference::SideOne, &mut ins, false, false, vec![], vec![]);
    assert_eq!(
        ins,
        vec![Instruction::Boost(BoostInstruction { side_ref: SideReference::SideOne, stat: PokemonBoostableStat::Speed, amount: 1 })]
    );
    assert_eq!(state.side_one.speed_boost, 1);

    state.side_one.speed_boost = 6;
    let mut ins = vec![];
    ability_end_of_turn(&mut state, &SideReference::SideOne, &mut ins, false, false, vec![], vec![]);
    assert!(ins.is_empty());
    assert_eq!(state.side_one.speed_boost, 6);
}

#[test]
fn suppressed_ability_does_nothing_at_end_of_turn() {
    let mut state = battle(pkmn(PokemonName::PIKACHU, Abilities::SPEEDBOOST, 100, 100), plain(PokemonName::PIKACHU), Weather::NONE);
    let mut ins = vec![];
    ability_end_of_turn(&mut state, &SideReference::SideOne, &mut ins, true, false, vec![], vec![]);
    assert!(ins.is_empty());
    assert_eq!(state.side_one.speed_boost, 0);
}

#[test]
fn ice_body_heals_a_sixteenth_in_snow() {
    let mut state = battle(pkmn(PokemonName::PIKACHU, Abilities::ICEBODY, 100, 160), plain(PokemonName::PIKACHU), Weather::SNOW);
    let mut ins = vec![];
    ability_end_of_turn(&mut state, &SideReference::SideOne, &mut ins, false, false, vec![], vec![]);
    assert_eq!(ins, vec![Instruction::Heal(HealInstruction { side_ref: SideReference::SideOne, heal_amount: 10 })]);
    assert_eq!(state.side_one.pokemon[0].hp, 110);

    let mut suppressed_weather = battle(pkmn(PokemonName::PIKACHU, Abilities::ICEBODY, 100, 160), plain(PokemonName::PIKACHU), Weather::SNOW);
    let mut ins = vec![];
    ability_end_of_turn(&mut suppressed_weather, &SideReference::SideOne, &mut ins, false, true, vec![], vec![]);
    assert!(ins.is_empty());
}

#[test]
fn bad_dreams_damages_a_sleeping_opponent() {
    let mut sleeper = plain(PokemonName::PIKACHU);
    sleeper.hp = 50;
    sleeper.status = PokemonStatus::SLEEP;
    let mut state = battle(pkmn(PokemonName::PIKACHU, Abilities::BADDREAMS, 100, 100), sleeper, Weather::NONE);
    let mut ins = vec![];
    ability_end_of_turn(&mut state, &SideReference::SideOne, &mut ins, false, false, vec![], vec![]);
    assert_eq!(
        ins,
        vec![Instruction::DamageWithFaintContext(DamageWithFaintContextInstruction {
            side_ref: SideReference::SideTwo,
            damage_amount: 12,
            faint_context: FaintContext::ability_effect(SideReference::SideOne, PokemonIndex::P0, Abilities::BADDREAMS),
        })]
    );
    assert_eq!(state.side_two.pokemon[0].hp, 38);
}

#[test]
fn solar_power_damage_is_bounded_by_missing_hp() {
    let mut full = battle(pkmn(PokemonName::PIKACHU, Abilities::SOLARPOWER, 100, 100), plain(PokemonName::PIKACHU), Weather::SUN);
    let mut ins = vec![];
    ability_end_of_turn(&mut full, &SideReference::SideOne, &mut ins, false, false, vec![], vec![]);
    assert!(ins.is_empty());

    let mut hurt = battle(pkmn(PokemonName::PIKACHU, Abilities::SOLARPOWER, 50, 100), plain(PokemonName::PIKACHU), Weather::HARSHSUN);
    let mut ins = vec![];
    ability_end_of_turn(&mut hurt, &SideReference::SideOne, &mut ins, false, false, vec![], vec![]);
    assert_eq!(
        ins,
        vec![Instruction::DamageWithFaintContext(DamageWithFaintContextInstruction {
            side_ref: SideReference::SideOne,
            damage_amount: 12,
            faint_context: FaintContext::ability_effect(SideReference::SideOne, PokemonIndex::P0, Abilities::SOLARPOWER),
        })]
    );
    assert_eq!(hurt.side_one.pokemon[0].hp, 38);
}

#[test]
fn dry_skin_heals_in_rain_and_hurts_in_sun() {
    let mut rain = battle(pkmn(PokemonName::PIKACHU, Abilities::DRYSKIN, 50, 100), plain(PokemonName::PIKACHU), Weather::RAIN);
    let mut ins = vec![];
    ability_end_of_turn(&mut rain, &SideReference::SideOne, &mut ins, false, false, vec![], vec![]);
    assert_eq!(ins, vec![Instruction::Heal(HealInstruction { side_ref: SideReference::SideOne, heal_amount: 12 })]);
    assert_eq!(rain.side_one.pokemon[0].hp, 62);

    let mut sun = battle(pkmn(PokemonName::PIKACHU, Abilities::DRYSKIN, 5, 100), plain(PokemonName::PIKACHU), Weather::SUN);
    let mut ins = vec![];
    ability_end_of_turn(&mut sun, &SideReference::SideOne, &mut ins, false, false, vec![], vec![]);
    assert_eq!(
        ins,
        vec![Instruction::DamageWithFaintContext(DamageWithFaintContextInstruction {
            side_ref: SideReference::SideOne,
            damage_amount: 5,
            faint_context: FaintContext::ability_effect(SideReference::SideOne, PokemonIndex::P0, Abilities::DRYSKIN),
        })]
    );
    assert_eq!(sun.side_one.pokemon[0].hp, 0);
}

#[test]
fn poison_heal_heals_a_poisoned_pokemon() {
    let mut p = pkmn(PokemonName::PIKACHU, Abilities::POISONHEAL, 95, 100);
    p.status = PokemonStatus::TOXIC;
    let mut state = battle(p, plain(PokemonName::PIKACHU), Weather::NONE);
    let mut ins = vec![];
    ability_end_of_turn(&mut state, &SideReference::SideOne, &mut ins, false, false, vec![], vec![]);
    assert_eq!(ins, vec![Instruction::Heal(HealInstruction { side_ref: SideReference::SideOne, heal_amount: 5 })]);
    assert_eq!(state.side_one.pokemon[0].hp, 100);
}

#[test]
fn shields_down_and_hunger_switch_change_forme() {
    let stat_change = Instruction::ChangeStatus(ChangeStatusInstruction {
        side_ref: SideReference::SideTwo,
        pokemon_index: PokemonIndex::P0,
        old_status: PokemonStatus::NONE,
        new_status: PokemonStatus::NONE,
    });
    let mut state = battle(plain(PokemonName::PIKACHU), pkmn(PokemonName::MINIORMETEOR, Abilities::SHIELDSDOWN, 40, 100), Weather::NONE);
    let mut ins = vec![];
    ability_end_of_turn(&mut state, &SideReference::SideTwo, &mut ins, false, false, vec![stat_change.clone()], vec![]);
    assert_eq!(
        ins,
        vec![
            Instruction::FormeChange(FormeChangeInstruction { side_ref: SideReference::SideTwo, name_change: -1 }),
            stat_change,
        ]
    );
    assert_eq!(state.side_two.pokemon[0].id, PokemonName::MINIOR);

    let mut morpeko = battle(pkmn(PokemonName::MORPEKO, Abilities::HUNGERSWITCH, 100, 100), plain(PokemonName::PIKACHU), Weather::NONE);
    let mut ins = vec![];
    ability_end_of_turn(&mut morpeko, &SideReference::SideOne, &mut ins, false, false, vec![], vec![]);
    assert_eq!(ins, vec![Instruction::FormeChange(FormeChangeInstruction { side_ref: SideReference::SideOne, name_change: 1 })]);
    assert_eq!(morpeko.side_one.pokemon[0].id, PokemonName::MORPEKOHANGRY);
}

#[test]
fn shed_skin_cures_the_status() {
    let cure = Instruction::ChangeStatus(ChangeStatusInstruction {
        side_ref: SideReference::SideOne,
        pokemon_index: PokemonIndex::P0,
        old_status: PokemonStatus::BURN,
        new_status: PokemonStatus::NONE,
    });
    let mut p = pkmn(PokemonName::PIKACHU, Abilities::SHEDSKIN, 100, 100);
    p.status = PokemonStatus::BURN;
    let mut state = battle(p, plain(PokemonName::PIKACHU), Weather::NONE);
    let mut ins = vec![];
    ability_end_of_turn(&mut state, &SideReference::SideOne, &mut ins, false, false, vec![], vec![cure.clone()]);
    assert_eq!(ins, vec![cure]);
    assert_eq!(state.side_one.pokemon[0].status, PokemonStatus::NONE);
}

#[test]
fn ice_face_blocks_a_physical_move() {
    let mut state = battle(plain(PokemonName::PIKACHU), pkmn(PokemonName::EISCUE, Abilities::ICEFACE, 100, 100), Weather::NONE);
    let mut c = choice(Choices::TACKLE, MoveCategory::Physical, PokemonType::NORMAL);
    let mut ins = vec![];
    let zeroed = ability_before_move(&mut state, &mut c, &SideReference::SideOne, &mut ins, false, false, false, vec![]);
    assert!(!zeroed);
    assert!(c.damage_blocked);
    assert!(ins.is_empty());

    let mut c = choice(Choices::WATERGUN, MoveCategory::Special, PokemonType::WATER);
    let mut ins = vec![];
    ability_before_move(&mut state, &mut c, &SideReference::SideOne, &mut ins, false, false, false, vec![]);
    assert!(!c.damage_blocked);

    let mut c = choice(Choices::TACKLE, MoveCategory::Physical, PokemonType::NORMAL);
    let mut ins = vec![];
    ability_before_move(&mut state, &mut c, &SideReference::SideOne, &mut ins, false, false, true, vec![]);
    assert!(!c.damage_blocked);
}

#[test]
fn disguise_breaks_and_costs_an_eighth() {
    let mut state = battle(plain(PokemonName::PIKACHU), pkmn(PokemonName::MIMIKYU, Abilities::DISGUISE, 100, 100), Weather::NONE);
    let mut c = choice(Choices::TACKLE, MoveCategory::Physical, PokemonType::NORMAL);
    let mut ins = vec![];
    let zeroed = ability_before_move(&mut state, &mut c, &SideReference::SideOne, &mut ins, false, false, false, vec![]);
    assert!(zeroed);
    assert_eq!(
        ins,
        vec![
            Instruction::FormeChange(FormeChangeInstruction { side_ref: SideReference::SideTwo, name_change: 2 }),
            Instruction::DamageWithFaintContext(DamageWithFaintContextInstruction {
                side_ref: SideReference::SideTwo,
                damage_amount: 12,
                faint_context: FaintContext::ability_effect(SideReference::SideTwo, PokemonIndex::P0, Abilities::DISGUISE),
            }),
        ]
    );
    assert_eq!(state.side_two.pokemon[0].id, PokemonName::MIMIKYUBUSTED);
    assert_eq!(state.side_two.pokemon[0].hp, 88);
}

#[test]
fn gulp_missile_picks_the_forme_by_hp() {
    let mut state = battle(pkmn(PokemonName::CRAMORANT, Abilities::GULPMISSILE, 80, 100), plain(PokemonName::PIKACHU), Weather::NONE);
    let mut c = choice(Choices::SURF, MoveCategory::Special, PokemonType::WATER);
    let mut ins = vec![];
    ability_before_move(&mut state, &mut c, &SideReference::SideOne, &mut ins, false, false, false, vec![]);
    assert_eq!(ins, vec![Instruction::FormeChange(FormeChangeInstruction { side_ref: SideReference::SideOne, name_change: 1 })]);
    assert_eq!(state.side_one.pokemon[0].id, PokemonName::CRAMORANTGULPING);

    let mut low = battle(pkmn(PokemonName::CRAMORANT, Abilities::GULPMISSILE, 50, 100), plain(PokemonName::PIKACHU), Weather::NONE);
    let mut c = choice(Choices::DIVE, MoveCategory::Physical, PokemonType::WATER);
    let mut ins = vec![];
    ability_before_move(&mut low, &mut c, &SideReference::SideOne, &mut ins, false, false, false, vec![]);
    assert_eq!(low.side_one.pokemon[0].id, PokemonName::CRAMORANTGORGING);
}

#[test]
fn protean_changes_type_once() {
    let mut state = battle(pkmn(PokemonName::PIKACHU, Abilities::PROTEAN, 100, 100), plain(PokemonName::PIKACHU), Weather::NONE);
    let mut c = choice(Choices::WATERGUN, MoveCategory::Special, PokemonType::WATER);
    let mut ins = vec![];
    ability_before_move(&mut state, &mut c, &SideReference::SideOne, &mut ins, false, false, false, vec![]);
    assert_eq!(
        ins,
        vec![
            Instruction::ChangeType(ChangeType {
                side_ref: SideReference::SideOne,
                new_types: (PokemonType::WATER, PokemonType::TYPELESS),
                old_types: (PokemonType::NORMAL, PokemonType::TYPELESS),
            }),
            Instruction::ApplyVolatileStatus(ApplyVolatileStatusInstruction {
                side_ref: SideReference::SideOne,
                volatile_status: PokemonVolatileStatus::TYPECHANGE,
            }),
        ]
    );
    assert_eq!(state.side_one.pokemon[0].type1, PokemonType::WATER);
    assert_eq!(state.side_one.volatile_statuses, vec![PokemonVolatileStatus::TYPECHANGE]);

    let mut c = choice(Choices::TACKLE, MoveCategory::Physical, PokemonType::NORMAL);
    let mut ins = vec![];
    ability_before_move(&mut state, &mut c, &SideReference::SideOne, &mut ins, false, false, false, vec![]);
    assert!(ins.is_empty());
}

#[test]
fn gorilla_tactics_records_the_choice_lock() {
    let lock = Instruction::DisableMove(DisableMoveInstruction {
        side_ref: SideReference::SideOne,
        move_index: PokemonMoveIndex::M1,
    });
    let mut state = battle(pkmn(PokemonName::PIKACHU, Abilities::GORILLATACTICS, 100, 100), plain(PokemonName::PIKACHU), Weather::NONE);
    let mut c = choice(Choices::TACKLE, MoveCategory::Physical, PokemonType::NORMAL);
    let mut ins = vec![];
    ability_before_move(&mut state, &mut c, &SideReference::SideOne, &mut ins, false, false, false, vec![lock.clone()]);
    assert_eq!(ins, vec![lock]);
}

#[test]
fn hunger_switch_flips_back_after_two_turns() {
    let mut state = battle(pkmn(PokemonName::MORPEKO, Abilities::HUNGERSWITCH, 1, 100), plain(PokemonName::PIKACHU), Weather::NONE);
    let mut ins = vec![];
    ability_end_of_turn(&mut state, &SideReference::SideOne, &mut ins, false, false, vec![], vec![]);
    assert_eq!(state.side_one.pokemon[0].id, PokemonName::MORPEKOHANGRY);
    ability_end_of_turn(&mut state, &SideReference::SideOne, &mut ins, false, false, vec![], vec![]);
    assert_eq!(state.side_one.pokemon[0].id, PokemonName::MORPEKO);
    assert_eq!(
        ins,
        vec![
            Instruction::FormeChange(FormeChangeInstruction { side_ref: SideReference::SideOne, name_change: 1 }),
            Instruction::FormeChange(FormeChangeInstruction { side_ref: SideReference::SideOne, name_change: -1 }),
        ]
    );
}
