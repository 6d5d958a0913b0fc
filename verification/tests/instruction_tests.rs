use poke_engine::abilities::Abilities;
use poke_engine::instruction::{
    ChangeAbilityInstruction, ChangeType, DamageInstruction, DamageWithFaintContextInstruction,
    FaintCause, FaintContext, FaintEffect, Instruction, SwitchInstruction, TeamPreviewInstruction,
    ToggleTrickRoomInstruction,
};
use poke_engine::state::{Choices, Items, PokemonIndex, PokemonType, SideReference};

#[test]
fn test_instruction_size() {
    assert_eq!(size_of::<Instruction>(), 32);
    assert_eq!(align_of::<Instruction>(), 8);
}

#[test]
fn faint_context_unknown_has_no_source() {
    let c = FaintContext::unknown();
    assert_eq!(c.source_side, None);
    assert_eq!(c.source_index, None);
    assert_eq!(c.cause, FaintCause::Unknown);
    assert_eq!(c.effect, FaintEffect::Nothing);
    assert_eq!(FaintContext::default(), c);
}

#[test]
fn faint_context_constructors_record_their_source() {
    let m = FaintContext::move_effect(
        SideReference::SideTwo,
        PokemonIndex::P3,
        FaintCause::Recoil,
        Choices::TACKLE,
    );
    assert_eq!(m.source_side, Some(SideReference::SideTwo));
    assert_eq!(m.source_index, Some(PokemonIndex::P3));
    assert_eq!(m.cause, FaintCause::Recoil);
    assert_eq!(m.effect, FaintEffect::Move(Choices::TACKLE));

    let r = FaintContext::residual(FaintEffect::Item(Items::LUMBERRY));
    assert_eq!(r.source_side, None);
    assert_eq!(r.cause, FaintCause::Residual);
    assert_eq!(r.effect, FaintEffect::Item(Items::LUMBERRY));

    let a = FaintContext::ability_effect(SideReference::SideOne, PokemonIndex::P0, Abilities::ROUGHSKIN);
    assert_eq!(a.cause, FaintCause::Ability);
    assert_eq!(a.effect, FaintEffect::Ability(Abilities::ROUGHSKIN));
    assert_eq!(a.source_index, Some(PokemonIndex::P0));

    let i = FaintContext::item_effect(SideReference::SideOne, PokemonIndex::P5, Items::ADRENALINEORB);
    assert_eq!(i.cause, FaintCause::Item);
    assert_eq!(i.effect, FaintEffect::Item(Items::ADRENALINEORB));
    assert_eq!(i.source_side, Some(SideReference::SideOne));
}

fn damage(side: SideReference, amount: i16) -> Instruction {
    Instruction::Damage(DamageInstruction { side_ref: side, damage_amount: amount })
}

fn damage_with(side: SideReference, amount: i16, context: FaintContext) -> Instruction {
    Instruction::DamageWithFaintContext(DamageWithFaintContextInstruction {
        side_ref: side,
        damage_amount: amount,
        faint_context: context,
    })
}

#[test]
fn damage_equals_damage_with_context_on_same_side_and_amount() {
    let ctx = FaintContext::ability_effect(SideReference::SideTwo, PokemonIndex::P1, Abilities::IRONBARBS);
    assert!(damage(SideReference::SideOne, 12) == damage_with(SideReference::SideOne, 12, ctx));
    assert!(damage_with(SideReference::SideOne, 12, ctx) == damage(SideReference::SideOne, 12));
    assert!(damage(SideReference::SideOne, 12) != damage_with(SideReference::SideOne, 13, ctx));
    assert!(damage(SideReference::SideTwo, 12) != damage_with(SideReference::SideOne, 12, ctx));
}

#[test]
fn instruction_equality_is_not_transitive_across_faint_contexts() {
    let a = damage_with(SideReference::SideOne, 7, FaintContext::unknown());
    let b = damage(SideReference::SideOne, 7);
    let c = damage_with(SideReference::SideOne, 7, FaintContext::residual(FaintEffect::Nothing));
    assert!(a == b);
    assert!(b == c);
    assert!(a != c);
}

#[test]
fn instruction_equality_compares_variants_and_contents() {
    let s1 = Instruction::Switch(SwitchInstruction {
        side_ref: SideReference::SideOne,
        previous_index: PokemonIndex::P0,
        next_index: PokemonIndex::P1,
    });
    let s2 = Instruction::Switch(SwitchInstruction {
        side_ref: SideReference::SideOne,
        previous_index: PokemonIndex::P0,
        next_index: PokemonIndex::P2,
    });
    assert!(s1 == s1.clone());
    assert!(s1 != s2);
    assert!(Instruction::ToggleSideOneForceSwitch == Instruction::ToggleSideOneForceSwitch);
    assert!(Instruction::ToggleSideOneForceSwitch != Instruction::ToggleSideTwoForceSwitch);
    let a = Instruction::ChangeAbility(ChangeAbilityInstruction { side_ref: SideReference::SideOne, ability_change: 3 });
    let b = Instruction::ChangeBaseAbility(ChangeAbilityInstruction { side_ref: SideReference::SideOne, ability_change: 3 });
    assert!(a != b);
}

#[test]
fn team_preview_equality_compares_names() {
    let make = |name: &str| {
        Instruction::TeamPreview(TeamPreviewInstruction {
            side_ref: SideReference::SideTwo,
            previous_active_index: PokemonIndex::P0,
            previous_pokemon: name.to_string(),
            lead_index: PokemonIndex::P2,
            reserve_index_one: PokemonIndex::P1,
            reserve_index_two: PokemonIndex::P3,
        })
    };
    assert!(make("pikachu") == make("pikachu"));
    assert!(make("pikachu") != make("raichu"));
}

#[test]
fn change_type_equality_compares_both_type_pairs() {
    let make = |a: PokemonType| {
        Instruction::ChangeType(ChangeType {
            side_ref: SideReference::SideOne,
            new_types: (a, PokemonType::TYPELESS),
            old_types: (PokemonType::NORMAL, PokemonType::FLYING),
        })
    };
    assert!(make(PokemonType::WATER) == make(PokemonType::WATER));
    assert!(make(PokemonType::WATER) != make(PokemonType::FIRE));
}

#[test]
fn debug_string_of_damage_with_faint_context() {
    let ctx = FaintContext::ability_effect(SideReference::SideTwo, PokemonIndex::P1, Abilities::ROUGHSKIN);
    assert_eq!(
        damage_with(SideReference::SideOne, -12, ctx).debug_string(),
        "Damage SideOne: -12 (FaintContext { source_side: Some(SideTwo), source_index: Some(P1), cause: Ability, effect: Ability(ROUGHSKIN) })"
    );
    assert_eq!(damage(SideReference::SideTwo, 105).debug_string(), "Damage SideTwo: 105");
}

#[test]
fn debug_string_of_unknown_faint_context_prints_none() {
    assert_eq!(
        damage_with(SideReference::SideOne, 0, FaintContext::unknown()).debug_string(),
        "Damage SideOne: 0 (FaintContext { source_side: None, source_index: None, cause: Unknown, effect: None })"
    );
}

#[test]
fn debug_string_of_type_change_and_trick_room() {
    let t = Instruction::ChangeType(ChangeType {
        side_ref: SideReference::SideTwo,
        new_types: (PokemonType::WATER, PokemonType::TYPELESS),
        old_types: (PokemonType::NORMAL, PokemonType::FLYING),
    });
    assert_eq!(t.debug_string(), "ChangeType SideTwo: (NORMAL, FLYING) -> (WATER, TYPELESS)");
    let tr = Instruction::ToggleTrickRoom(ToggleTrickRoomInstruction {
        currently_active: true,
        new_trickroom_turns_remaining: 0,
        previous_trickroom_turns_remaining: 3,
    });
    assert_eq!(tr.debug_string(), "ToggleTrickRoom: true,3 -> false,0");
    assert_eq!(Instruction::DecrementWeatherTurnsRemaining.debug_string(), "DecrementWeatherTurnsRemaining");
    let s = Instruction::Switch(SwitchInstruction {
        side_ref: SideReference::SideOne,
        previous_index: PokemonIndex::P0,
        next_index: PokemonIndex::P4,
    });
    assert_eq!(s.debug_string(), "Switch SideOne: P0 -> P4");
}

#[test]
fn other_side_is_the_opposite() {
    assert_eq!(SideReference::SideOne.get_other_side(), SideReference::SideTwo);
    assert_eq!(SideReference::SideTwo.get_other_side(), SideReference::SideOne);
}

#[test]
fn other_side_twice_is_the_same_side() {
    for s in [SideReference::SideOne, SideReference::SideTwo] {
        assert_eq!(s.get_other_side().get_other_side(), s);
        assert_ne!(s.get_other_side(), s);
    }
}

#[test]
fn instruction_equality_is_reflexive_and_symmetric_on_samples() {
    let ctx = FaintContext::item_effect(SideReference::SideTwo, PokemonIndex::P2, Items::LUMBERRY);
    let samples = vec![
        damage(SideReference::SideOne, 1),
        damage_with(SideReference::SideOne, 1, ctx),
        damage_with(SideReference::SideTwo, 1, ctx),
        Instruction::DecrementWeatherTurnsRemaining,
        Instruction::ToggleSideTwoForceSwitch,
    ];
    for a in samples.iter() {
        assert!(a == a);
        for b in samples.iter() {
            assert_eq!(a == b, b == a);
        }
    }
}

#[test]
fn rocky_helmet_faint_context_names_the_item() {
    assert_eq!(
        FaintContext::item_effect(SideReference::SideOne, PokemonIndex::P0, Items::ROCKYHELMET),
        FaintContext {
            source_side: Some(SideReference::SideOne),
            source_index: Some(PokemonIndex::P0),
            cause: FaintCause::Item,
            effect: FaintEffect::Item(Items::ROCKYHELMET),
        }
    );
}
