use poke_engine::abilities::{
    ability_after_substitute_hit, ability_on_damage_blocked, ability_cannot_be_replaced_by_contact, ability_fails_skill_swap,
    ability_fails_trace, apply_charge_volatile, mold_breaker_ignores,
    protosynthesis_volatile_from_side, protosynthesus_or_quarkdrive_on_switch_in,
    quarkdrive_volatile_from_side, Abilities,
};
use poke_engine::instruction::{
    ApplyVolatileStatusInstruction, ChangeItemInstruction, ChangeStatInstruction, FormeChangeInstruction, ChangeSideConditionInstruction,
    Instruction,
};
use poke_engine::state::{
    Choice, Choices, Items, MoveCategory, Pokemon, PokemonName, PokemonStatus, PokemonBoostableStat, PokemonIndex,
    PokemonSideCondition, PokemonType, PokemonVolatileStatus, Side, SideConditions, SideReference,
};

fn pkmn(hp: i16, item: Items) -> Pokemon {
    Pokemon {
        id: PokemonName::PIKACHU,
        hp,
        maxhp: 100,
        ability: Abilities::NONE,
        base_ability: Abilities::NONE,
        item,
        status: PokemonStatus::NONE,
        terastallized: false,
        type1: PokemonType::ELECTRIC,
        type2: PokemonType::TYPELESS,
        sword_boost_used: false,
        shield_boost_used: false,
    }
}

fn side_with(active_hp: i16, item: Items) -> Side {
    let mut pokemon = vec![pkmn(100, Items::NONE); 6];
    pokemon[2] = pkmn(active_hp, item);
    Side {
        active_index: PokemonIndex::P2,
        pokemon,
        volatile_statuses: vec![],
        side_conditions: SideConditions { toxic_spikes: 0, reflect: 0, light_screen: 0, aurora_veil: 0 },
        speed_boost: 0,
    }
}

fn apply(side_ref: SideReference, status: PokemonVolatileStatus) -> Instruction {
    Instruction::ApplyVolatileStatus(ApplyVolatileStatusInstruction {
        side_ref,
        volatile_status: status,
    })
}

#[test]
fn mold_breaker_ignores_ignorable_abilities_only() {
    assert!(mold_breaker_ignores(&Abilities::LEVITATE));
    assert!(mold_breaker_ignores(&Abilities::STURDY));
    assert!(mold_breaker_ignores(&Abilities::DARKAURA));
    assert!(!mold_breaker_ignores(&Abilities::INTIMIDATE));
    assert!(!mold_breaker_ignores(&Abilities::NONE));
}

#[test]
fn ability_swap_classifications() {
    assert!(ability_cannot_be_replaced_by_contact(Abilities::DISGUISE));
    assert!(!ability_cannot_be_replaced_by_contact(Abilities::LEVITATE));
    assert!(ability_fails_skill_swap(Abilities::WONDERGUARD));
    assert!(!ability_fails_skill_swap(Abilities::INTIMIDATE));
    assert!(ability_fails_trace(Abilities::TRACE));
    assert!(ability_fails_trace(Abilities::NONE));
    assert!(!ability_fails_trace(Abilities::INTIMIDATE));
    // wonder guard cannot be skill-swapped, but it can be traced
    assert!(!ability_fails_trace(Abilities::WONDERGUARD));
}

#[test]
fn protosynthesis_and_quarkdrive_follow_the_highest_stat() {
    assert_eq!(
        protosynthesis_volatile_from_side(PokemonBoostableStat::Attack),
        PokemonVolatileStatus::PROTOSYNTHESISATK
    );
    assert_eq!(
        protosynthesis_volatile_from_side(PokemonBoostableStat::Speed),
        PokemonVolatileStatus::PROTOSYNTHESISSPE
    );
    assert_eq!(
        quarkdrive_volatile_from_side(PokemonBoostableStat::SpecialDefense),
        PokemonVolatileStatus::QUARKDRIVESPD
    );
    assert_eq!(
        quarkdrive_volatile_from_side(PokemonBoostableStat::Defense),
        PokemonVolatileStatus::QUARKDRIVEDEF
    );
}

#[test]
fn charge_is_applied_once() {
    let mut side = side_with(50, Items::NONE);
    let mut ins = vec![];
    apply_charge_volatile(&mut side, SideReference::SideTwo, &mut ins);
    assert_eq!(ins, vec![apply(SideReference::SideTwo, PokemonVolatileStatus::CHARGE)]);
    assert_eq!(side.volatile_statuses, vec![PokemonVolatileStatus::CHARGE]);
    apply_charge_volatile(&mut side, SideReference::SideTwo, &mut ins);
    assert_eq!(ins.len(), 1);
    assert_eq!(side.volatile_statuses, vec![PokemonVolatileStatus::CHARGE]);
}

#[test]
fn fainted_pokemon_is_not_charged() {
    let mut side = side_with(0, Items::NONE);
    let mut ins = vec![];
    apply_charge_volatile(&mut side, SideReference::SideOne, &mut ins);
    assert!(ins.is_empty());
    assert!(side.volatile_statuses.is_empty());
}

#[test]
fn protosynthesis_in_sun_applies_the_stat_volatile() {
    let mut side = side_with(80, Items::BOOSTERENERGY);
    let mut ins = vec![];
    protosynthesus_or_quarkdrive_on_switch_in(
        true,
        true,
        PokemonVolatileStatus::PROTOSYNTHESISATK,
        PokemonVolatileStatus::PROTOSYNTHESISBOOSTER,
        &mut ins,
        &mut side,
        &SideReference::SideOne,
    );
    assert_eq!(ins, vec![apply(SideReference::SideOne, PokemonVolatileStatus::PROTOSYNTHESISATK)]);
    assert_eq!(side.pokemon[2].item, Items::BOOSTERENERGY);
    // already boosted: nothing more happens
    protosynthesus_or_quarkdrive_on_switch_in(
        true,
        true,
        PokemonVolatileStatus::PROTOSYNTHESISATK,
        PokemonVolatileStatus::PROTOSYNTHESISBOOSTER,
        &mut ins,
        &mut side,
        &SideReference::SideOne,
    );
    assert_eq!(ins.len(), 1);
}

#[test]
fn booster_energy_is_used_up_without_weather() {
    let mut side = side_with(80, Items::BOOSTERENERGY);
    let mut ins = vec![];
    protosynthesus_or_quarkdrive_on_switch_in(
        false,
        true,
        PokemonVolatileStatus::QUARKDRIVESPE,
        PokemonVolatileStatus::QUARKDRIVEBOOSTER,
        &mut ins,
        &mut side,
        &SideReference::SideTwo,
    );
    assert_eq!(
        ins,
        vec![
            Instruction::ChangeItem(ChangeItemInstruction {
                side_ref: SideReference::SideTwo,
                current_item: Items::BOOSTERENERGY,
                new_item: Items::NONE,
            }),
            apply(SideReference::SideTwo, PokemonVolatileStatus::QUARKDRIVESPE),
            apply(SideReference::SideTwo, PokemonVolatileStatus::QUARKDRIVEBOOSTER),
        ]
    );
    assert_eq!(side.pokemon[2].item, Items::NONE);
    assert_eq!(
        side.volatile_statuses,
        vec![PokemonVolatileStatus::QUARKDRIVESPE, PokemonVolatileStatus::QUARKDRIVEBOOSTER]
    );
}

#[test]
fn booster_energy_does_nothing_when_items_are_suppressed() {
    let mut side = side_with(80, Items::BOOSTERENERGY);
    let mut ins = vec![];
    protosynthesus_or_quarkdrive_on_switch_in(
        false,
        false,
        PokemonVolatileStatus::QUARKDRIVESPE,
        PokemonVolatileStatus::QUARKDRIVEBOOSTER,
        &mut ins,
        &mut side,
        &SideReference::SideTwo,
    );
    assert!(ins.is_empty());
    assert_eq!(side.pokemon[2].item, Items::BOOSTERENERGY);
}

#[test]
fn toxic_debris_lays_spikes_on_substitute_hit_up_to_two_layers() {
    let mut attacker = side_with(100, Items::NONE);
    let defender = side_with(100, Items::NONE);
    let physical = Choice { move_id: Choices::TACKLE, category: MoveCategory::Physical, move_type: PokemonType::NORMAL, sound: false, contact: false, wind: false, damage_blocked: false };
    let mut ins = vec![];
    for _ in 0..3 {
        ability_after_substitute_hit(
            &mut attacker,
            &defender,
            Abilities::TOXICDEBRIS,
            &physical,
            &SideReference::SideOne,
            10,
            &mut ins,
        );
    }
    let layer = Instruction::ChangeSideCondition(ChangeSideConditionInstruction {
        side_ref: SideReference::SideOne,
        side_condition: PokemonSideCondition::ToxicSpikes,
        amount: 1,
    });
    assert_eq!(ins, vec![layer.clone(), layer]);
    assert_eq!(attacker.side_conditions.toxic_spikes, 2);
}

#[test]
fn toxic_debris_ignores_special_moves_and_no_damage() {
    let mut attacker = side_with(100, Items::NONE);
    let defender = side_with(100, Items::NONE);
    let special = Choice { move_id: Choices::WATERGUN, category: MoveCategory::Special, move_type: PokemonType::NORMAL, sound: false, contact: false, wind: false, damage_blocked: false };
    let physical = Choice { move_id: Choices::TACKLE, category: MoveCategory::Physical, move_type: PokemonType::NORMAL, sound: false, contact: false, wind: false, damage_blocked: false };
    let mut ins = vec![];
    ability_after_substitute_hit(&mut attacker, &defender, Abilities::TOXICDEBRIS, &special, &SideReference::SideTwo, 10, &mut ins);
    ability_after_substitute_hit(&mut attacker, &defender, Abilities::TOXICDEBRIS, &physical, &SideReference::SideTwo, 0, &mut ins);
    ability_after_substitute_hit(&mut attacker, &defender, Abilities::STURDY, &physical, &SideReference::SideTwo, 10, &mut ins);
    assert!(ins.is_empty());
    assert_eq!(attacker.side_conditions.toxic_spikes, 0);
}

#[test]
fn blocked_damage_breaks_ice_face() {
    let mut side = side_with(100, Items::NONE);
    side.pokemon[2].id = PokemonName::EISCUE;
    side.pokemon[2].ability = Abilities::ICEFACE;
    let blocked = Choice { move_id: Choices::TACKLE, category: MoveCategory::Physical, move_type: PokemonType::NORMAL, sound: false, contact: false, wind: false, damage_blocked: true };
    let stats = Instruction::ChangeSpeed(ChangeStatInstruction { side_ref: SideReference::SideTwo, amount: 80 });
    let mut ins = vec![];
    assert!(ability_on_damage_blocked(&mut side, &blocked, &SideReference::SideTwo, &mut ins, vec![stats.clone()]));
    assert_eq!(
        ins,
        vec![
            Instruction::FormeChange(FormeChangeInstruction {
                side_ref: SideReference::SideTwo,
                name_change: PokemonName::EISCUENOICE.number() - PokemonName::EISCUE.number(),
            }),
            stats.clone(),
        ]
    );
    assert_eq!(side.pokemon[2].id, PokemonName::EISCUENOICE);
    // the no-ice forme does not break again
    assert!(!ability_on_damage_blocked(&mut side, &blocked, &SideReference::SideTwo, &mut ins, vec![stats]));
    assert_eq!(ins.len(), 2);
}

#[test]
fn unblocked_damage_leaves_ice_face() {
    let mut side = side_with(100, Items::NONE);
    side.pokemon[2].id = PokemonName::EISCUE;
    side.pokemon[2].ability = Abilities::ICEFACE;
    let hit = Choice { move_id: Choices::TACKLE, category: MoveCategory::Physical, move_type: PokemonType::NORMAL, sound: false, contact: false, wind: false, damage_blocked: false };
    let mut ins = vec![];
    assert!(!ability_on_damage_blocked(&mut side, &hit, &SideReference::SideOne, &mut ins, vec![]));
    assert!(ins.is_empty());
    assert_eq!(side.pokemon[2].id, PokemonName::EISCUE);
}
