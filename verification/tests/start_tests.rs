use poke_engine::abilities::{ability_number, ability_on_start, ability_on_switch_in, Abilities, StartFacts};
use poke_engine::instruction::{
    ApplyVolatileStatusInstruction, BoostInstruction, ChangeAbilityInstruction,
    ChangeItemInstruction, ChangeSideConditionInstruction, ChangeTerrain,
    ChangeVolatileStatusDurationInstruction, ChangeWeather, FormeChangeInstruction, Instruction,
    ToggleAbilityOnStartFlagInstruction,
};
use poke_engine::state::{
    Items, Pokemon, PokemonBoostableStat, PokemonIndex, PokemonName, PokemonSideCondition,
    PokemonStatus, PokemonType, PokemonVolatileStatus, Side, SideConditions, SideReference, State,
    StateTerrain, StateWeather, Terrain, Weather,
};

fn pkmn(id: PokemonName, ability: Abilities) -> Pokemon {
    Pokemon {
        id,
        hp: 100,
        maxhp: 100,
        ability,
        base_ability: ability,
        item: Items::NONE,
        status: PokemonStatus::NONE,
        terastallized: false,
        type1: PokemonType::NORMAL,
        type2: PokemonType::TYPELESS,
        sword_boost_used: false,
        shield_boost_used: false,
    }
}

fn side(active: Pokemon) -> Side {
    let mut pokemon = vec![pkmn(PokemonName::PIKACHU, Abilities::NONE); 6];
    pokemon[0] = active;
    Side {
        active_index: PokemonIndex::P0,
        pokemon,
        volatile_statuses: vec![],
        side_conditions: SideConditions { toxic_spikes: 0, reflect: 0, light_screen: 0, aurora_veil: 0 },
        speed_boost: 0,
    }
}

fn battle(holder: Pokemon, other: Pokemon, weather: Weather) -> State {
    State {
        side_one: side(holder),
        side_two: side(other),
        weather: StateWeather { weather_type: weather, turns_remaining: 3 },
        terrain: StateTerrain { terrain_type: Terrain::NONE, turns_remaining: 0 },
    }
}

fn facts() -> StartFacts {
    StartFacts {
        active_ability_is_suppressed: false,
        active_item_is_active: true,
        active_ability_can_be_changed: true,
        defender_ability: Abilities::NONE,
        defender_item_is_active: true,
        weather_is_suppressed: false,
        electric_terrain_is_active: false,
        field_should_be_set: true,
        highest_stat: PokemonBoostableStat::Attack,
        attack_drop_applied: true,
        orb_boost_applied: true,
        slowstart_turns: 0,
    }
}

fn plain() -> Pokemon {
    pkmn(PokemonName::PIKACHU, Abilities::NONE)
}

fn boost(side_ref: SideReference, stat: PokemonBoostableStat, amount: i8) -> Instruction {
    Instruction::Boost(BoostInstruction { side_ref, stat, amount })
}

fn start(state: &mut State, f: StartFacts, boosts: Vec<Instruction>, orb: Vec<Instruction>) -> Vec<Instruction> {
    let mut ins = vec![];
    ability_on_start(state, &SideReference::SideOne, &mut ins, f, boosts, orb, vec![]);
    ins
}

#[test]
fn drizzle_sets_rain_for_five_turns() {
    let mut state = battle(pkmn(PokemonName::PIKACHU, Abilities::DRIZZLE), plain(), Weather::SUN);
    let ins = start(&mut state, facts(), vec![], vec![]);
    assert_eq!(
        ins,
        vec![Instruction::ChangeWeather(ChangeWeather {
            new_weather: Weather::RAIN,
            new_weather_turns_remaining: 5,
            previous_weather: Weather::SUN,
            previous_weather_turns_remaining: 3,
        })]
    );
    assert_eq!(state.weather, StateWeather { weather_type: Weather::RAIN, turns_remaining: 5 });

    let mut blocked = battle(pkmn(PokemonName::PIKACHU, Abilities::DRIZZLE), plain(), Weather::HARSHSUN);
    let mut f = facts();
    f.field_should_be_set = false;
    assert!(start(&mut blocked, f, vec![], vec![]).is_empty());
    assert_eq!(blocked.weather.weather_type, Weather::HARSHSUN);
}

#[test]
fn primordial_sea_rain_lasts_until_replaced_and_surges_set_terrain() {
    let mut state = battle(pkmn(PokemonName::PIKACHU, Abilities::PRIMORDIALSEA), plain(), Weather::NONE);
    start(&mut state, facts(), vec![], vec![]);
    assert_eq!(state.weather, StateWeather { weather_type: Weather::HEAVYRAIN, turns_remaining: -1 });

    let mut surge = battle(pkmn(PokemonName::PIKACHU, Abilities::HADRONENGINE), plain(), Weather::NONE);
    let ins = start(&mut surge, facts(), vec![], vec![]);
    assert_eq!(
        ins,
        vec![Instruction::ChangeTerrain(ChangeTerrain {
            new_terrain: Terrain::ELECTRICTERRAIN,
            new_terrain_turns_remaining: 5,
            previous_terrain: Terrain::NONE,
            previous_terrain_turns_remaining: 0,
        })]
    );
    assert_eq!(surge.terrain.terrain_type, Terrain::ELECTRICTERRAIN);
}

#[test]
fn trace_copies_and_the_copy_acts() {
    let mut state = battle(pkmn(PokemonName::PIKACHU, Abilities::TRACE), pkmn(PokemonName::PIKACHU, Abilities::DROUGHT), Weather::NONE);
    let ins = start(&mut state, facts(), vec![], vec![]);
    assert_eq!(ins.len(), 2);
    assert_eq!(
        ins[0],
        Instruction::ChangeAbility(ChangeAbilityInstruction {
            side_ref: SideReference::SideOne,
            ability_change: ability_number(Abilities::DROUGHT) - ability_number(Abilities::TRACE),
        })
    );
    assert_eq!(state.side_one.pokemon[0].ability, Abilities::DROUGHT);
    assert_eq!(state.weather.weather_type, Weather::SUN);
}

#[test]
fn intimidate_and_adrenaline_orb() {
    let drop = boost(SideReference::SideTwo, PokemonBoostableStat::Attack, -1);
    let orb = boost(SideReference::SideTwo, PokemonBoostableStat::Speed, 1);
    let mut holder = plain();
    holder.item = Items::ADRENALINEORB;
    let mut state = battle(pkmn(PokemonName::PIKACHU, Abilities::INTIMIDATE), holder, Weather::NONE);
    let ins = start(&mut state, facts(), vec![drop.clone()], vec![orb.clone()]);
    assert_eq!(
        ins,
        vec![
            drop.clone(),
            orb,
            Instruction::ChangeItem(ChangeItemInstruction {
                side_ref: SideReference::SideTwo,
                current_item: Items::ADRENALINEORB,
                new_item: Items::NONE,
            }),
        ]
    );
    assert_eq!(state.side_two.pokemon[0].item, Items::NONE);
    assert_eq!(state.side_two.speed_boost, 1);

    let mut f = facts();
    f.defender_ability = Abilities::INNERFOCUS;
    let mut focused = battle(pkmn(PokemonName::PIKACHU, Abilities::INTIMIDATE), plain(), Weather::NONE);
    assert!(start(&mut focused, f, vec![drop], vec![]).is_empty());
}

#[test]
fn intrepid_sword_boosts_once() {
    let atk = boost(SideReference::SideOne, PokemonBoostableStat::Attack, 1);
    let mut state = battle(pkmn(PokemonName::PIKACHU, Abilities::INTREPIDSWORD), plain(), Weather::NONE);
    let ins = start(&mut state, facts(), vec![atk.clone()], vec![]);
    assert_eq!(
        ins,
        vec![
            Instruction::ToggleSwordBoostUsed(ToggleAbilityOnStartFlagInstruction {
                side_ref: SideReference::SideOne,
                pokemon_index: PokemonIndex::P0,
            }),
            atk.clone(),
        ]
    );
    assert!(state.side_one.pokemon[0].sword_boost_used);
    assert!(start(&mut state, facts(), vec![atk], vec![]).is_empty());
}

#[test]
fn embody_aspect_teal_raises_speed() {
    let spe = boost(SideReference::SideOne, PokemonBoostableStat::Speed, 1);
    let mut state = battle(pkmn(PokemonName::PIKACHU, Abilities::EMBODYASPECTTEAL), plain(), Weather::NONE);
    let ins = start(&mut state, facts(), vec![spe.clone()], vec![]);
    assert_eq!(ins, vec![spe]);
    assert_eq!(state.side_one.speed_boost, 1);
}

#[test]
fn slow_start_restarts_its_count() {
    let mut f = facts();
    f.slowstart_turns = 2;
    let mut state = battle(pkmn(PokemonName::PIKACHU, Abilities::SLOWSTART), plain(), Weather::NONE);
    let ins = start(&mut state, f, vec![], vec![]);
    assert_eq!(
        ins,
        vec![
            Instruction::ApplyVolatileStatus(ApplyVolatileStatusInstruction {
                side_ref: SideReference::SideOne,
                volatile_status: PokemonVolatileStatus::SLOWSTART,
            }),
            Instruction::ChangeVolatileStatusDuration(ChangeVolatileStatusDurationInstruction {
                side_ref: SideReference::SideOne,
                volatile_status: PokemonVolatileStatus::SLOWSTART,
                amount: 4,
            }),
        ]
    );
    assert_eq!(state.side_one.volatile_statuses, vec![PokemonVolatileStatus::SLOWSTART]);
}

#[test]
fn screen_cleaner_clears_both_sides() {
    let mut state = battle(pkmn(PokemonName::PIKACHU, Abilities::SCREENCLEANER), plain(), Weather::NONE);
    state.side_one.side_conditions.reflect = 3;
    state.side_two.side_conditions.light_screen = 2;
    let mut ins = vec![];
    ability_on_switch_in(&mut state, &SideReference::SideTwo, &mut ins, facts(), vec![], vec![], vec![]);
    assert!(ins.is_empty());
    let ins = start(&mut state, facts(), vec![], vec![]);
    assert_eq!(
        ins,
        vec![
            Instruction::ChangeSideCondition(ChangeSideConditionInstruction {
                side_ref: SideReference::SideOne,
                side_condition: PokemonSideCondition::Reflect,
                amount: -3,
            }),
            Instruction::ChangeSideCondition(ChangeSideConditionInstruction {
                side_ref: SideReference::SideTwo,
                side_condition: PokemonSideCondition::LightScreen,
                amount: -2,
            }),
        ]
    );
    assert_eq!(state.side_one.side_conditions.reflect, 0);
    assert_eq!(state.side_two.side_conditions.light_screen, 0);
}

#[test]
fn ice_face_regains_its_ice_in_snow() {
    let mut state = battle(pkmn(PokemonName::EISCUENOICE, Abilities::ICEFACE), plain(), Weather::SNOW);
    let ins = start(&mut state, facts(), vec![], vec![]);
    assert_eq!(ins, vec![Instruction::FormeChange(FormeChangeInstruction { side_ref: SideReference::SideOne, name_change: -1 })]);
    assert_eq!(state.side_one.pokemon[0].id, PokemonName::EISCUE);
}

#[test]
fn protosynthesis_uses_booster_energy_without_sun() {
    let mut holder = pkmn(PokemonName::PIKACHU, Abilities::PROTOSYNTHESIS);
    holder.item = Items::BOOSTERENERGY;
    let mut state = battle(holder, plain(), Weather::NONE);
    let ins = start(&mut state, facts(), vec![], vec![]);
    assert_eq!(ins.len(), 3);
    assert_eq!(state.side_one.pokemon[0].item, Items::NONE);
    assert_eq!(
        state.side_one.volatile_statuses,
        vec![PokemonVolatileStatus::PROTOSYNTHESISATK, PokemonVolatileStatus::PROTOSYNTHESISBOOSTER]
    );
}
