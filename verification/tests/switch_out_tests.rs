use poke_engine::abilities::{ability_number, ability_on_switch_out, Abilities};
use poke_engine::instruction::{
    ChangeAbilityInstruction, ChangeStatInstruction, ChangeStatusInstruction, ChangeWeather,
    FormeChangeInstruction, HealInstruction, Instruction,
};
use poke_engine::state::{
    Items, Pokemon, PokemonIndex, PokemonName, PokemonStatus, PokemonType, Side, SideConditions,
    SideReference, State, StateTerrain, StateWeather, Terrain, Weather,
};

fn pkmn(ability: Abilities, hp: i16) -> Pokemon {
    Pokemon {
        id: PokemonName::PIKACHU,
        hp,
        maxhp: 100,
        ability,
        base_ability: ability,
        item: Items::NONE,
        status: PokemonStatus::NONE,
        terastallized: false,
        type1: PokemonType::ELECTRIC,
        type2: PokemonType::TYPELESS,
        sword_boost_used: false,
        shield_boost_used: false,
    }
}

fn side(active: Pokemon) -> Side {
    let mut pokemon = vec![pkmn(Abilities::NONE, 100); 6];
    pokemon[1] = active;
    Side {
        active_index: PokemonIndex::P1,
        pokemon,
        volatile_statuses: vec![],
        side_conditions: SideConditions { toxic_spikes: 0, reflect: 0, light_screen: 0, aurora_veil: 0 },
        speed_boost: 0,
    }
}

fn battle(one: Pokemon, two: Pokemon, weather: Weather) -> State {
    State {
        side_one: side(one),
        side_two: side(two),
        weather: StateWeather { weather_type: weather, turns_remaining: 3 },
        terrain: StateTerrain { terrain_type: Terrain::NONE, turns_remaining: 0 },
    }
}

#[test]
fn regenerator_heals_a_third_of_max_hp() {
    let mut state = battle(pkmn(Abilities::REGENERATOR, 50), pkmn(Abilities::NONE, 100), Weather::NONE);
    let mut ins = vec![];
    ability_on_switch_out(&mut state, &SideReference::SideOne, &mut ins, false, Abilities::NONE, vec![]);
    assert_eq!(ins, vec![Instruction::Heal(HealInstruction { side_ref: SideReference::SideOne, heal_amount: 33 })]);
    assert_eq!(state.side_one.pokemon[1].hp, 83);
}

#[test]
fn regenerator_heals_no_more_than_missing_and_not_when_fainted() {
    let mut state = battle(pkmn(Abilities::REGENERATOR, 90), pkmn(Abilities::NONE, 100), Weather::NONE);
    let mut ins = vec![];
    ability_on_switch_out(&mut state, &SideReference::SideOne, &mut ins, false, Abilities::NONE, vec![]);
    assert_eq!(ins, vec![Instruction::Heal(HealInstruction { side_ref: SideReference::SideOne, heal_amount: 10 })]);
    assert_eq!(state.side_one.pokemon[1].hp, 100);

    let mut fainted = battle(pkmn(Abilities::REGENERATOR, 0), pkmn(Abilities::NONE, 100), Weather::NONE);
    let mut ins = vec![];
    ability_on_switch_out(&mut fainted, &SideReference::SideOne, &mut ins, false, Abilities::NONE, vec![]);
    assert!(ins.is_empty());
    assert_eq!(fainted.side_one.pokemon[1].hp, 0);
}

#[test]
fn natural_cure_clears_the_status() {
    let mut p = pkmn(Abilities::NATURALCURE, 40);
    p.status = PokemonStatus::TOXIC;
    let mut state = battle(pkmn(Abilities::NONE, 100), p, Weather::NONE);
    let mut ins = vec![];
    ability_on_switch_out(&mut state, &SideReference::SideTwo, &mut ins, false, Abilities::NONE, vec![]);
    assert_eq!(
        ins,
        vec![Instruction::ChangeStatus(ChangeStatusInstruction {
            side_ref: SideReference::SideTwo,
            pokemon_index: PokemonIndex::P1,
            old_status: PokemonStatus::TOXIC,
            new_status: PokemonStatus::NONE,
        })]
    );
    assert_eq!(state.side_two.pokemon[1].status, PokemonStatus::NONE);
}

#[test]
fn primordial_sea_ends_heavy_rain_unless_the_opponent_keeps_it() {
    let end = Instruction::ChangeWeather(ChangeWeather {
        new_weather: Weather::NONE,
        new_weather_turns_remaining: -1,
        previous_weather: Weather::HEAVYRAIN,
        previous_weather_turns_remaining: 3,
    });
    let mut state = battle(pkmn(Abilities::PRIMORDIALSEA, 100), pkmn(Abilities::NONE, 100), Weather::HEAVYRAIN);
    let mut ins = vec![];
    ability_on_switch_out(&mut state, &SideReference::SideOne, &mut ins, false, Abilities::NONE, vec![]);
    assert_eq!(ins, vec![end]);
    assert_eq!(state.weather, StateWeather { weather_type: Weather::NONE, turns_remaining: -1 });

    let mut kept = battle(pkmn(Abilities::PRIMORDIALSEA, 100), pkmn(Abilities::PRIMORDIALSEA, 100), Weather::HEAVYRAIN);
    let mut ins = vec![];
    ability_on_switch_out(&mut kept, &SideReference::SideOne, &mut ins, false, Abilities::PRIMORDIALSEA, vec![]);
    assert!(ins.is_empty());
    assert_eq!(kept.weather.weather_type, Weather::HEAVYRAIN);
}

#[test]
fn desolate_land_ends_harsh_sun_when_the_opponent_has_fainted() {
    let mut state = battle(pkmn(Abilities::NONE, 0), pkmn(Abilities::DESOLATELAND, 100), Weather::HARSHSUN);
    let mut ins = vec![];
    ability_on_switch_out(&mut state, &SideReference::SideTwo, &mut ins, false, Abilities::DESOLATELAND, vec![]);
    assert_eq!(ins.len(), 1);
    assert_eq!(state.weather.weather_type, Weather::NONE);
}

#[test]
fn ability_reverts_to_base_ability() {
    let mut p = pkmn(Abilities::MUMMY, 100);
    p.base_ability = Abilities::INTIMIDATE;
    let mut state = battle(p, pkmn(Abilities::NONE, 100), Weather::NONE);
    let mut ins = vec![];
    ability_on_switch_out(&mut state, &SideReference::SideOne, &mut ins, false, Abilities::NONE, vec![]);
    assert_eq!(
        ins,
        vec![Instruction::ChangeAbility(ChangeAbilityInstruction {
            side_ref: SideReference::SideOne,
            ability_change: ability_number(Abilities::INTIMIDATE) - ability_number(Abilities::MUMMY),
        })]
    );
    assert_eq!(state.side_one.pokemon[1].ability, Abilities::INTIMIDATE);
}

#[test]
fn suppressed_regenerator_does_nothing_but_revert_still_happens() {
    let mut p = pkmn(Abilities::REGENERATOR, 50);
    p.base_ability = Abilities::NATURALCURE;
    let mut state = battle(p, pkmn(Abilities::NONE, 100), Weather::NONE);
    let mut ins = vec![];
    ability_on_switch_out(&mut state, &SideReference::SideOne, &mut ins, true, Abilities::NONE, vec![]);
    assert_eq!(ins.len(), 1);
    assert!(matches!(ins[0], Instruction::ChangeAbility(_)));
    assert_eq!(state.side_one.pokemon[1].hp, 50);
    assert_eq!(state.side_one.pokemon[1].ability, Abilities::NATURALCURE);
}

#[test]
fn zero_to_hero_turns_palafin_into_its_hero_forme() {
    let mut p = pkmn(Abilities::ZEROTOHERO, 100);
    p.id = PokemonName::PALAFIN;
    let mut state = battle(p, pkmn(Abilities::NONE, 100), Weather::NONE);
    let stats = Instruction::ChangeAttack(ChangeStatInstruction { side_ref: SideReference::SideOne, amount: 40 });
    let mut ins = vec![];
    ability_on_switch_out(&mut state, &SideReference::SideOne, &mut ins, false, Abilities::NONE, vec![stats.clone()]);
    assert_eq!(
        ins,
        vec![
            Instruction::FormeChange(FormeChangeInstruction {
                side_ref: SideReference::SideOne,
                name_change: PokemonName::PALAFINHERO.number() - PokemonName::PALAFIN.number(),
            }),
            stats,
        ]
    );
    assert_eq!(state.side_one.pokemon[1].id, PokemonName::PALAFINHERO);
}

#[test]
fn hunger_switch_and_gulp_missile_restore_the_base_forme() {
    let mut m = pkmn(Abilities::HUNGERSWITCH, 100);
    m.id = PokemonName::MORPEKOHANGRY;
    let mut c = pkmn(Abilities::GULPMISSILE, 100);
    c.id = PokemonName::CRAMORANTGORGING;
    let mut state = battle(m, c, Weather::NONE);
    let mut ins = vec![];
    ability_on_switch_out(&mut state, &SideReference::SideOne, &mut ins, false, Abilities::GULPMISSILE, vec![]);
    ability_on_switch_out(&mut state, &SideReference::SideTwo, &mut ins, false, Abilities::HUNGERSWITCH, vec![]);
    assert_eq!(ins.len(), 2);
    assert_eq!(state.side_one.pokemon[1].id, PokemonName::MORPEKO);
    assert_eq!(state.side_two.pokemon[1].id, PokemonName::CRAMORANT);
}
