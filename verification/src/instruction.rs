//! The instruction set: every change a turn makes to a battle is recorded as
//! one instruction, so that the change can be replayed and undone. Also the
//! record of why a pokemon fainted.

use vstd::prelude::*;
use crate::abilities::Abilities;
use crate::state::{
    Choices, Items, LastUsedMove, MoveCategory, PokemonBoostableStat, PokemonIndex,
    PokemonMoveIndex, PokemonSideCondition, PokemonStatus, PokemonType, PokemonVolatileStatus,
    SideReference, Terrain, Weather,
};

verus! {

/// One recorded change to a battle.
#[derive(Debug, Clone)]
pub enum Instruction {
    Switch(SwitchInstruction),
    ApplyVolatileStatus(ApplyVolatileStatusInstruction),
    RemoveVolatileStatus(RemoveVolatileStatusInstruction),
    ChangeStatus(ChangeStatusInstruction),
    Heal(HealInstruction),
    Damage(DamageInstruction),
    DamageWithFaintContext(DamageWithFaintContextInstruction),
    Boost(BoostInstruction),
    ChangeSideCondition(ChangeSideConditionInstruction),
    ChangeVolatileStatusDuration(ChangeVolatileStatusDurationInstruction),
    ChangeWeather(ChangeWeather),
    DecrementWeatherTurnsRemaining,
    ChangeTerrain(ChangeTerrain),
    DecrementTerrainTurnsRemaining,
    ChangeType(ChangeType),
    ChangeAbility(ChangeAbilityInstruction),
    ChangeBaseAbility(ChangeAbilityInstruction),
    ChangeItem(ChangeItemInstruction),
    ChangeAttack(ChangeStatInstruction),
    ChangeDefense(ChangeStatInstruction),
    ChangeSpecialAttack(ChangeStatInstruction),
    ChangeSpecialDefense(ChangeStatInstruction),
    ChangeSpeed(ChangeStatInstruction),
    DisableMove(DisableMoveInstruction),
    EnableMove(EnableMoveInstruction),
    ChangeWish(ChangeWishInstruction),
    DecrementWish(DecrementWishInstruction),
    SetFutureSight(SetFutureSightInstruction),
    DecrementFutureSight(DecrementFutureSightInstruction),
    DamageSubstitute(DamageInstruction),
    DecrementRestTurns(DecrementRestTurnsInstruction),
    SetRestTurns(SetSleepTurnsInstruction),
    SetSleepTurns(SetSleepTurnsInstruction),
    SetFreezeTurns(SetSleepTurnsInstruction),
    ChangeSubstituteHealth(ChangeSubsituteHealthInstruction),
    FormeChange(FormeChangeInstruction),
    SetSideOneMoveSecondSwitchOutMove(SetSecondMoveSwitchOutMoveInstruction),
    SetSideTwoMoveSecondSwitchOutMove(SetSecondMoveSwitchOutMoveInstruction),
    ToggleBatonPassing(ToggleBatonPassingInstruction),
    ToggleShedTailing(ToggleShedTailingInstruction),
    SetLastUsedMove(SetLastUsedMoveInstruction),
    ChangeDamageDealtDamage(ChangeDamageDealtDamageInstruction),
    ChangeDamageDealtMoveCatagory(ChangeDamageDealtMoveCategoryInstruction),
    ToggleDamageDealtHitSubstitute(ToggleDamageDealtHitSubstituteInstruction),
    DecrementPP(DecrementPPInstruction),
    ToggleTrickRoom(ToggleTrickRoomInstruction),
    DecrementTrickRoomTurnsRemaining,
    ToggleSideOneForceSwitch,
    ToggleSideTwoForceSwitch,
    ToggleTerastallized(ToggleTerastallizedInstruction),
    ToggleMegaEvolved(ToggleMegaEvolvedInstruction),
    ToggleSwordBoostUsed(ToggleAbilityOnStartFlagInstruction),
    ToggleShieldBoostUsed(ToggleAbilityOnStartFlagInstruction),
    TeamPreview(TeamPreviewInstruction),
}

#[derive(Debug, PartialEq, Eq, Clone, Copy, Structural)]
pub struct ChangeDamageDealtDamageInstruction {
    pub side_ref: SideReference,
    pub damage_change: i16,
}

#[derive(Debug, PartialEq, Eq, Clone, Copy, Structural)]
pub struct ChangeDamageDealtMoveCategoryInstruction {
    pub side_ref: SideReference,
    pub move_category: MoveCategory,
    pub previous_move_category: MoveCategory,
}

#[derive(Debug, PartialEq, Eq, Clone, Copy, Structural)]
pub struct ToggleDamageDealtHitSubstituteInstruction {
    pub side_ref: SideReference,
}

#[derive(Debug, PartialEq, Eq, Clone, Copy, Structural)]
pub struct DecrementPPInstruction {
    pub side_ref: SideReference,
    pub move_index: PokemonMoveIndex,
    pub amount: i8,
}

#[derive(Debug, PartialEq, Eq, Clone, Copy, Structural)]
pub struct SetLastUsedMoveInstruction {
    pub side_ref: SideReference,
    pub last_used_move: LastUsedMove,
    pub previous_last_used_move: LastUsedMove,
}

#[derive(Debug, PartialEq, Eq, Clone, Copy, Structural)]
pub struct ToggleBatonPassingInstruction {
    pub side_ref: SideReference,
}

#[derive(Debug, PartialEq, Eq, Clone, Copy, Structural)]
pub struct ToggleShedTailingInstruction {
    pub side_ref: SideReference,
}

#[derive(Debug, PartialEq, Eq, Clone, Copy, Structural)]
pub struct DecrementRestTurnsInstruction {
    pub side_ref: SideReference,
}

#[derive(Debug, PartialEq, Eq, Clone, Copy, Structural)]
pub struct SetSleepTurnsInstruction {
    pub side_ref: SideReference,
    pub pokemon_index: PokemonIndex,
    pub new_turns: i8,
    pub previous_turns: i8,
}

#[derive(Debug, PartialEq, Eq, Clone, Copy, Structural)]
pub struct SetSecondMoveSwitchOutMoveInstruction {
    pub new_choice: Choices,
    pub previous_choice: Choices,
}

#[derive(Debug, PartialEq, Eq, Clone, Copy, Structural)]
pub struct ChangeWishInstruction {
    pub side_ref: SideReference,
    pub wish_amount_change: i16,
}

#[derive(Debug, PartialEq, Eq, Clone, Copy, Structural)]
pub struct DecrementWishInstruction {
    pub side_ref: SideReference,
}

#[derive(Debug, PartialEq, Eq, Clone, Copy, Structural)]
pub struct SetFutureSightInstruction {
    pub side_ref: SideReference,
    pub pokemon_index: PokemonIndex,
    pub previous_pokemon_index: PokemonIndex,
}

#[derive(Debug, PartialEq, Eq, Clone, Copy, Structural)]
pub struct DecrementFutureSightInstruction {
    pub side_ref: SideReference,
}

#[derive(Debug, PartialEq, Eq, Clone, Copy, Structural)]
pub struct EnableMoveInstruction {
    pub side_ref: SideReference,
    pub move_index: PokemonMoveIndex,
}

#[derive(Debug, PartialEq, Eq, Clone, Copy, Structural)]
pub struct DisableMoveInstruction {
    pub side_ref: SideReference,
    pub move_index: PokemonMoveIndex,
}

#[derive(Debug, PartialEq, Eq, Clone, Copy, Structural)]
pub struct ChangeItemInstruction {
    pub side_ref: SideReference,
    pub current_item: Items,
    pub new_item: Items,
}

#[derive(Debug, PartialEq, Eq, Clone, Copy, Structural)]
pub struct ChangeStatInstruction {
    pub side_ref: SideReference,
    pub amount: i16,
}

#[derive(Debug, PartialEq, Eq, Clone, Copy, Structural)]
pub struct HealInstruction {
    pub side_ref: SideReference,
    pub heal_amount: i16,
}

#[derive(Debug, PartialEq, Eq, Clone, Copy, Structural)]
pub struct DamageInstruction {
    pub side_ref: SideReference,
    pub damage_amount: i16,
}

/// Why a pokemon fainted.
#[derive(Debug, PartialEq, Eq, Copy, Clone, Structural)]
pub enum FaintCause {
    Unknown,
    DirectMove,
    DestinyBond,
    Recoil,
    SelfKoMove,
    PerishSong,
    Residual,
    Ability,
    Item,
}

/// What dealt the fainting damage.
#[derive(Debug, PartialEq, Eq, Copy, Clone, Structural)]
pub enum FaintEffect {
    Nothing,
    Move(Choices),
    Ability(Abilities),
    Item(Items),
    Status(PokemonStatus),
    Weather(Weather),
    Volatile(PokemonVolatileStatus),
}

/// Who or what caused damage, kept with the damage in case it makes a pokemon faint.
#[derive(Debug, PartialEq, Eq, Copy, Clone, Structural)]
pub struct FaintContext {
    pub source_side: Option<SideReference>,
    pub source_index: Option<PokemonIndex>,
    pub cause: FaintCause,
    pub effect: FaintEffect,
}

/// Damage together with who or what dealt it.
#[derive(Debug, PartialEq, Eq, Clone, Copy, Structural)]
pub struct DamageWithFaintContextInstruction {
    pub side_ref: SideReference,
    pub damage_amount: i16,
    pub faint_context: FaintContext,
}

/// A record that a pokemon fainted, and why.
#[derive(Debug, PartialEq, Eq, Copy, Clone, Structural)]
pub struct FaintEvent {
    pub target_side: SideReference,
    pub target_index: PokemonIndex,
    pub source_side: Option<SideReference>,
    pub source_index: Option<PokemonIndex>,
    pub cause: FaintCause,
    pub effect: FaintEffect,
}

#[derive(Debug, PartialEq, Eq, Clone, Copy, Structural)]
pub struct ChangeSubsituteHealthInstruction {
    pub side_ref: SideReference,
    pub health_change: i16,
}

#[derive(Debug, PartialEq, Eq, Clone, Copy, Structural)]
pub struct FormeChangeInstruction {
    pub side_ref: SideReference,
    /// A pokemon's name is a number; this is how much that number changes by.
    pub name_change: i16,
}

#[derive(Debug, PartialEq, Eq, Clone, Copy, Structural)]
pub struct SwitchInstruction {
    pub side_ref: SideReference,
    pub previous_index: PokemonIndex,
    pub next_index: PokemonIndex,
}

#[derive(Debug, Clone)]
pub struct TeamPreviewInstruction {
    pub side_ref: SideReference,
    pub previous_active_index: PokemonIndex,
    pub previous_pokemon: String,
    pub lead_index: PokemonIndex,
    pub reserve_index_one: PokemonIndex,
    pub reserve_index_two: PokemonIndex,
}

/// A status change; it names the slot, since a reserve pokemon's status can change too.
#[derive(Debug, PartialEq, Eq, Clone, Copy, Structural)]
pub struct ChangeStatusInstruction {
    pub side_ref: SideReference,
    pub pokemon_index: PokemonIndex,
    pub old_status: PokemonStatus,
    pub new_status: PokemonStatus,
}

#[derive(Debug, PartialEq, Eq, Clone, Copy, Structural)]
pub struct ApplyVolatileStatusInstruction {
    pub side_ref: SideReference,
    pub volatile_status: PokemonVolatileStatus,
}

#[derive(Debug, PartialEq, Eq, Clone, Copy, Structural)]
pub struct RemoveVolatileStatusInstruction {
    pub side_ref: SideReference,
    pub volatile_status: PokemonVolatileStatus,
}

#[derive(Debug, PartialEq, Eq, Clone, Copy, Structural)]
pub struct BoostInstruction {
    pub side_ref: SideReference,
    pub stat: PokemonBoostableStat,
    pub amount: i8,
}

#[derive(Debug, PartialEq, Eq, Clone, Copy, Structural)]
pub struct ChangeSideConditionInstruction {
    pub side_ref: SideReference,
    pub side_condition: PokemonSideCondition,
    pub amount: i8,
}

#[derive(Debug, PartialEq, Eq, Clone, Copy, Structural)]
pub struct ChangeVolatileStatusDurationInstruction {
    pub side_ref: SideReference,
    pub volatile_status: PokemonVolatileStatus,
    pub amount: i8,
}

#[derive(Debug, PartialEq, Eq, Clone, Copy, Structural)]
pub struct ChangeWeather {
    pub new_weather: Weather,
    pub new_weather_turns_remaining: i8,
    pub previous_weather: Weather,
    pub previous_weather_turns_remaining: i8,
}

#[derive(Debug, PartialEq, Eq, Clone, Copy, Structural)]
pub struct ChangeTerrain {
    pub new_terrain: Terrain,
    pub new_terrain_turns_remaining: i8,
    pub previous_terrain: Terrain,
    pub previous_terrain_turns_remaining: i8,
}

#[derive(Debug, PartialEq, Eq, Clone, Copy, Structural)]
pub struct ToggleTrickRoomInstruction {
    pub currently_active: bool,
    pub new_trickroom_turns_remaining: i8,
    pub previous_trickroom_turns_remaining: i8,
}

#[derive(Debug, PartialEq, Eq, Clone, Copy, Structural)]
pub struct ToggleTerastallizedInstruction {
    pub side_ref: SideReference,
}

#[derive(Debug, PartialEq, Eq, Clone, Copy, Structural)]
pub struct ToggleMegaEvolvedInstruction {
    pub side_ref: SideReference,
    pub pokemon_index: PokemonIndex,
}

#[derive(Debug, PartialEq, Eq, Clone, Copy, Structural)]
pub struct ToggleAbilityOnStartFlagInstruction {
    pub side_ref: SideReference,
    pub pokemon_index: PokemonIndex,
}

#[derive(Debug, Clone, Copy)]
pub struct ChangeType {
    pub side_ref: SideReference,
    pub new_types: (PokemonType, PokemonType),
    pub old_types: (PokemonType, PokemonType),
}

#[derive(Debug, PartialEq, Eq, Clone, Copy, Structural)]
pub struct ChangeAbilityInstruction {
    pub side_ref: SideReference,
    /// An ability is a number; this is how much that number changes by.
    pub ability_change: i16,
}

impl PartialEq for ChangeType {
    fn eq(&self, other: &Self) -> (r: bool) {
        self.side_ref == other.side_ref && self.new_types.0 == other.new_types.0
            && self.new_types.1 == other.new_types.1 && self.old_types.0 == other.old_types.0
            && self.old_types.1 == other.old_types.1
    }
}

impl vstd::std_specs::cmp::PartialEqSpecImpl for ChangeType {
    open spec fn obeys_eq_spec() -> bool {
        true
    }

    open spec fn eq_spec(&self, other: &Self) -> bool {
        *self == *other
    }
}

impl Eq for ChangeType {}

impl PartialEq for TeamPreviewInstruction {
    fn eq(&self, other: &Self) -> (r: bool) {
        self.side_ref == other.side_ref && self.previous_active_index
            == other.previous_active_index && self.previous_pokemon == other.previous_pokemon
            && self.lead_index == other.lead_index && self.reserve_index_one
            == other.reserve_index_one && self.reserve_index_two == other.reserve_index_two
    }
}

impl vstd::std_specs::cmp::PartialEqSpecImpl for TeamPreviewInstruction {
    open spec fn obeys_eq_spec() -> bool {
        true
    }

    open spec fn eq_spec(&self, other: &Self) -> bool {
        self.same_as(*other)
    }
}

impl TeamPreviewInstruction {
    /// Two team previews are the same when every field is, the previous pokemon's
    /// name compared as text.
    pub open spec fn same_as(self, other: TeamPreviewInstruction) -> bool {
        &&& self.side_ref == other.side_ref
        &&& self.previous_active_index == other.previous_active_index
        &&& self.previous_pokemon@ == other.previous_pokemon@
        &&& self.lead_index == other.lead_index
        &&& self.reserve_index_one == other.reserve_index_one
        &&& self.reserve_index_two == other.reserve_index_two
    }
}

impl Instruction {
    /// Whether two instructions record the same change. Damage with and without a
    /// faint context count as the same when they hit the same side for the same
    /// amount; otherwise the variants must agree and so must their contents.
    pub open spec fn same_change(self, other: Instruction) -> bool {
        match self {
            Instruction::Switch(a) => match other {
                Instruction::Switch(b) => a == b,
                _ => false,
            },
            Instruction::ApplyVolatileStatus(a) => match other {
                Instruction::ApplyVolatileStatus(b) => a == b,
                _ => false,
            },
            Instruction::RemoveVolatileStatus(a) => match other {
                Instruction::RemoveVolatileStatus(b) => a == b,
                _ => false,
            },
            Instruction::ChangeStatus(a) => match other {
                Instruction::ChangeStatus(b) => a == b,
                _ => false,
            },
            Instruction::Heal(a) => match other {
                Instruction::Heal(b) => a == b,
                _ => false,
            },
            Instruction::Damage(a) => match other {
                Instruction::Damage(b) => a == b,
                Instruction::DamageWithFaintContext(b) => {
                    a.side_ref == b.side_ref && a.damage_amount == b.damage_amount
                },
                _ => false,
            },
            Instruction::DamageWithFaintContext(a) => match other {
                Instruction::DamageWithFaintContext(b) => a == b,
                Instruction::Damage(b) => {
                    a.side_ref == b.side_ref && a.damage_amount == b.damage_amount
                },
                _ => false,
            },
            Instruction::Boost(a) => match other {
                Instruction::Boost(b) => a == b,
                _ => false,
            },
            Instruction::ChangeSideCondition(a) => match other {
                Instruction::ChangeSideCondition(b) => a == b,
                _ => false,
            },
            Instruction::ChangeVolatileStatusDuration(a) => match other {
                Instruction::ChangeVolatileStatusDuration(b) => a == b,
                _ => false,
            },
            Instruction::ChangeWeather(a) => match other {
                Instruction::ChangeWeather(b) => a == b,
                _ => false,
            },
            Instruction::DecrementWeatherTurnsRemaining => other is DecrementWeatherTurnsRemaining,
            Instruction::ChangeTerrain(a) => match other {
                Instruction::ChangeTerrain(b) => a == b,
                _ => false,
            },
            Instruction::DecrementTerrainTurnsRemaining => other is DecrementTerrainTurnsRemaining,
            Instruction::ChangeType(a) => match other {
                Instruction::ChangeType(b) => a == b,
                _ => false,
            },
            Instruction::ChangeAbility(a) => match other {
                Instruction::ChangeAbility(b) => a == b,
                _ => false,
            },
            Instruction::ChangeBaseAbility(a) => match other {
                Instruction::ChangeBaseAbility(b) => a == b,
                _ => false,
            },
            Instruction::ChangeItem(a) => match other {
                Instruction::ChangeItem(b) => a == b,
                _ => false,
            },
            Instruction::ChangeAttack(a) => match other {
                Instruction::ChangeAttack(b) => a == b,
                _ => false,
            },
            Instruction::ChangeDefense(a) => match other {
                Instruction::ChangeDefense(b) => a == b,
                _ => false,
            },
            Instruction::ChangeSpecialAttack(a) => match other {
                Instruction::ChangeSpecialAttack(b) => a == b,
                _ => false,
            },
            Instruction::ChangeSpecialDefense(a) => match other {
                Instruction::ChangeSpecialDefense(b) => a == b,
                _ => false,
            },
            Instruction::ChangeSpeed(a) => match other {
                Instruction::ChangeSpeed(b) => a == b,
                _ => false,
            },
            Instruction::DisableMove(a) => match other {
                Instruction::DisableMove(b) => a == b,
                _ => false,
            },
            Instruction::EnableMove(a) => match other {
                Instruction::EnableMove(b) => a == b,
                _ => false,
            },
            Instruction::ChangeWish(a) => match other {
                Instruction::ChangeWish(b) => a == b,
                _ => false,
            },
            Instruction::DecrementWish(a) => match other {
                Instruction::DecrementWish(b) => a == b,
                _ => false,
            },
            Instruction::SetFutureSight(a) => match other {
                Instruction::SetFutureSight(b) => a == b,
                _ => false,
            },
            Instruction::DecrementFutureSight(a) => match other {
                Instruction::DecrementFutureSight(b) => a == b,
                _ => false,
            },
            Instruction::DamageSubstitute(a) => match other {
                Instruction::DamageSubstitute(b) => a == b,
                _ => false,
            },
            Instruction::DecrementRestTurns(a) => match other {
                Instruction::DecrementRestTurns(b) => a == b,
                _ => false,
            },
            Instruction::SetRestTurns(a) => match other {
                Instruction::SetRestTurns(b) => a == b,
                _ => false,
            },
            Instruction::SetSleepTurns(a) => match other {
                Instruction::SetSleepTurns(b) => a == b,
                _ => false,
            },
            Instruction::SetFreezeTurns(a) => match other {
                Instruction::SetFreezeTurns(b) => a == b,
                _ => false,
            },
            Instruction::ChangeSubstituteHealth(a) => match other {
                Instruction::ChangeSubstituteHealth(b) => a == b,
                _ => false,
            },
            Instruction::FormeChange(a) => match other {
                Instruction::FormeChange(b) => a == b,
                _ => false,
            },
            Instruction::SetSideOneMoveSecondSwitchOutMove(a) => match other {
                Instruction::SetSideOneMoveSecondSwitchOutMove(b) => a == b,
                _ => false,
            },
            Instruction::SetSideTwoMoveSecondSwitchOutMove(a) => match other {
                Instruction::SetSideTwoMoveSecondSwitchOutMove(b) => a == b,
                _ => false,
            },
            Instruction::ToggleBatonPassing(a) => match other {
                Instruction::ToggleBatonPassing(b) => a == b,
                _ => false,
            },
            Instruction::ToggleShedTailing(a) => match other {
                Instruction::ToggleShedTailing(b) => a == b,
                _ => false,
            },
            Instruction::SetLastUsedMove(a) => match other {
                Instruction::SetLastUsedMove(b) => a == b,
                _ => false,
            },
            Instruction::ChangeDamageDealtDamage(a) => match other {
                Instruction::ChangeDamageDealtDamage(b) => a == b,
                _ => false,
            },
            Instruction::ChangeDamageDealtMoveCatagory(a) => match other {
                Instruction::ChangeDamageDealtMoveCatagory(b) => a == b,
                _ => false,
            },
            Instruction::ToggleDamageDealtHitSubstitute(a) => match other {
                Instruction::ToggleDamageDealtHitSubstitute(b) => a == b,
                _ => false,
            },
            Instruction::DecrementPP(a) => match other {
                Instruction::DecrementPP(b) => a == b,
                _ => false,
            },
            Instruction::ToggleTrickRoom(a) => match other {
                Instruction::ToggleTrickRoom(b) => a == b,
                _ => false,
            },
            Instruction::DecrementTrickRoomTurnsRemaining => other is DecrementTrickRoomTurnsRemaining,
            Instruction::ToggleSideOneForceSwitch => other is ToggleSideOneForceSwitch,
            Instruction::ToggleSideTwoForceSwitch => other is ToggleSideTwoForceSwitch,
            Instruction::ToggleTerastallized(a) => match other {
                Instruction::ToggleTerastallized(b) => a == b,
                _ => false,
            },
            Instruction::ToggleMegaEvolved(a) => match other {
                Instruction::ToggleMegaEvolved(b) => a == b,
                _ => false,
            },
            Instruction::ToggleSwordBoostUsed(a) => match other {
                Instruction::ToggleSwordBoostUsed(b) => a == b,
                _ => false,
            },
            Instruction::ToggleShieldBoostUsed(a) => match other {
                Instruction::ToggleShieldBoostUsed(b) => a == b,
                _ => false,
            },
            Instruction::TeamPreview(a) => match other {
                Instruction::TeamPreview(b) => a.same_as(b),
                _ => false,
            },
        }
    }
}

/// Which block of eight variants an instruction belongs to; equality is checked
/// block by block to keep each proof small.
pub open spec fn variant_block(x: Instruction) -> int {
    match x {
        Instruction::Switch(..)
        | Instruction::ApplyVolatileStatus(..)
        | Instruction::RemoveVolatileStatus(..)
        | Instruction::ChangeStatus(..)
        | Instruction::Heal(..)
        | Instruction::Damage(..)
        | Instruction::DamageWithFaintContext(..)
        | Instruction::Boost(..) => 0,
        Instruction::ChangeSideCondition(..)
        | Instruction::ChangeVolatileStatusDuration(..)
        | Instruction::ChangeWeather(..)
        | Instruction::DecrementWeatherTurnsRemaining
        | Instruction::ChangeTerrain(..)
        | Instruction::DecrementTerrainTurnsRemaining
        | Instruction::ChangeType(..)
        | Instruction::ChangeAbility(..) => 1,
        Instruction::ChangeBaseAbility(..)
        | Instruction::ChangeItem(..)
        | Instruction::ChangeAttack(..)
        | Instruction::ChangeDefense(..)
        | Instruction::ChangeSpecialAttack(..)
        | Instruction::ChangeSpecialDefense(..)
        | Instruction::ChangeSpeed(..)
        | Instruction::DisableMove(..) => 2,
        Instruction::EnableMove(..)
        | Instruction::ChangeWish(..)
        | Instruction::DecrementWish(..)
        | Instruction::SetFutureSight(..)
        | Instruction::DecrementFutureSight(..)
        | Instruction::DamageSubstitute(..)
        | Instruction::DecrementRestTurns(..)
        | Instruction::SetRestTurns(..) => 3,
        Instruction::SetSleepTurns(..)
        | Instruction::SetFreezeTurns(..)
        | Instruction::ChangeSubstituteHealth(..)
        | Instruction::FormeChange(..)
        | Instruction::SetSideOneMoveSecondSwitchOutMove(..)
        | Instruction::SetSideTwoMoveSecondSwitchOutMove(..)
        | Instruction::ToggleBatonPassing(..)
        | Instruction::ToggleShedTailing(..) => 4,
        Instruction::SetLastUsedMove(..)
        | Instruction::ChangeDamageDealtDamage(..)
        | Instruction::ChangeDamageDealtMoveCatagory(..)
        | Instruction::ToggleDamageDealtHitSubstitute(..)
        | Instruction::DecrementPP(..)
        | Instruction::ToggleTrickRoom(..)
        | Instruction::DecrementTrickRoomTurnsRemaining
        | Instruction::ToggleSideOneForceSwitch => 5,
        Instruction::ToggleSideTwoForceSwitch
        | Instruction::ToggleTerastallized(..)
        | Instruction::ToggleMegaEvolved(..)
        | Instruction::ToggleSwordBoostUsed(..)
        | Instruction::ToggleShieldBoostUsed(..)
        | Instruction::TeamPreview(..) => 6,
    }
}

fn block_of(x: &Instruction) -> (r: u8)
    ensures
        r == variant_block(*x),
{
    match x {
        Instruction::Switch(..)
        | Instruction::ApplyVolatileStatus(..)
        | Instruction::RemoveVolatileStatus(..)
        | Instruction::ChangeStatus(..)
        | Instruction::Heal(..)
        | Instruction::Damage(..)
        | Instruction::DamageWithFaintContext(..)
        | Instruction::Boost(..) => 0,
        Instruction::ChangeSideCondition(..)
        | Instruction::ChangeVolatileStatusDuration(..)
        | Instruction::ChangeWeather(..)
        | Instruction::DecrementWeatherTurnsRemaining
        | Instruction::ChangeTerrain(..)
        | Instruction::DecrementTerrainTurnsRemaining
        | Instruction::ChangeType(..)
        | Instruction::ChangeAbility(..) => 1,
        Instruction::ChangeBaseAbility(..)
        | Instruction::ChangeItem(..)
        | Instruction::ChangeAttack(..)
        | Instruction::ChangeDefense(..)
        | Instruction::ChangeSpecialAttack(..)
        | Instruction::ChangeSpecialDefense(..)
        | Instruction::ChangeSpeed(..)
        | Instruction::DisableMove(..) => 2,
        Instruction::EnableMove(..)
        | Instruction::ChangeWish(..)
        | Instruction::DecrementWish(..)
        | Instruction::SetFutureSight(..)
        | Instruction::DecrementFutureSight(..)
        | Instruction::DamageSubstitute(..)
        | Instruction::DecrementRestTurns(..)
        | Instruction::SetRestTurns(..) => 3,
        Instruction::SetSleepTurns(..)
        | Instruction::SetFreezeTurns(..)
        | Instruction::ChangeSubstituteHealth(..)
        | Instruction::FormeChange(..)
        | Instruction::SetSideOneMoveSecondSwitchOutMove(..)
        | Instruction::SetSideTwoMoveSecondSwitchOutMove(..)
        | Instruction::ToggleBatonPassing(..)
        | Instruction::ToggleShedTailing(..) => 4,
        Instruction::SetLastUsedMove(..)
        | Instruction::ChangeDamageDealtDamage(..)
        | Instruction::ChangeDamageDealtMoveCatagory(..)
        | Instruction::ToggleDamageDealtHitSubstitute(..)
        | Instruction::DecrementPP(..)
        | Instruction::ToggleTrickRoom(..)
        | Instruction::DecrementTrickRoomTurnsRemaining
        | Instruction::ToggleSideOneForceSwitch => 5,
        Instruction::ToggleSideTwoForceSwitch
        | Instruction::ToggleTerastallized(..)
        | Instruction::ToggleMegaEvolved(..)
        | Instruction::ToggleSwordBoostUsed(..)
        | Instruction::ToggleShieldBoostUsed(..)
        | Instruction::TeamPreview(..) => 6,
    }
}

fn same_change_in_block_0(x: &Instruction, other: &Instruction) -> (r: bool)
    requires
        variant_block(*x) == 0,
    ensures
        r == x.same_change(*other),
{
    match x {
            Instruction::Switch(a) => match other {
                Instruction::Switch(b) => a == b,
                _ => false,
            },
            Instruction::ApplyVolatileStatus(a) => match other {
                Instruction::ApplyVolatileStatus(b) => a == b,
                _ => false,
            },
            Instruction::RemoveVolatileStatus(a) => match other {
                Instruction::RemoveVolatileStatus(b) => a == b,
                _ => false,
            },
            Instruction::ChangeStatus(a) => match other {
                Instruction::ChangeStatus(b) => a == b,
                _ => false,
            },
            Instruction::Heal(a) => match other {
                Instruction::Heal(b) => a == b,
                _ => false,
            },
            Instruction::Damage(a) => match other {
                Instruction::Damage(b) => a == b,
                Instruction::DamageWithFaintContext(b) => {
                    a.side_ref == b.side_ref && a.damage_amount == b.damage_amount
                },
                _ => false,
            },
            Instruction::DamageWithFaintContext(a) => match other {
                Instruction::DamageWithFaintContext(b) => a == b,
                Instruction::Damage(b) => {
                    a.side_ref == b.side_ref && a.damage_amount == b.damage_amount
                },
                _ => false,
            },
            Instruction::Boost(a) => match other {
                Instruction::Boost(b) => a == b,
                _ => false,
            },
        _ => false,
    }
}

fn same_change_in_block_1(x: &Instruction, other: &Instruction) -> (r: bool)
    requires
        variant_block(*x) == 1,
    ensures
        r == x.same_change(*other),
{
    match x {
            Instruction::ChangeSideCondition(a) => match other {
                Instruction::ChangeSideCondition(b) => a == b,
                _ => false,
            },
            Instruction::ChangeVolatileStatusDuration(a) => match other {
                Instruction::ChangeVolatileStatusDuration(b) => a == b,
                _ => false,
            },
            Instruction::ChangeWeather(a) => match other {
                Instruction::ChangeWeather(b) => a == b,
                _ => false,
            },
            Instruction::DecrementWeatherTurnsRemaining => matches!(other, Instruction::DecrementWeatherTurnsRemaining),
            Instruction::ChangeTerrain(a) => match other {
                Instruction::ChangeTerrain(b) => a == b,
                _ => false,
            },
            Instruction::DecrementTerrainTurnsRemaining => matches!(other, Instruction::DecrementTerrainTurnsRemaining),
            Instruction::ChangeType(a) => match other {
                Instruction::ChangeType(b) => a == b,
                _ => false,
            },
            Instruction::ChangeAbility(a) => match other {
                Instruction::ChangeAbility(b) => a == b,
                _ => false,
            },
        _ => false,
    }
}

fn same_change_in_block_2(x: &Instruction, other: &Instruction) -> (r: bool)
    requires
        variant_block(*x) == 2,
    ensures
        r == x.same_change(*other),
{
    match x {
            Instruction::ChangeBaseAbility(a) => match other {
                Instruction::ChangeBaseAbility(b) => a == b,
                _ => false,
            },
            Instruction::ChangeItem(a) => match other {
                Instruction::ChangeItem(b) => a == b,
                _ => false,
            },
            Instruction::ChangeAttack(a) => match other {
                Instruction::ChangeAttack(b) => a == b,
                _ => false,
            },
            Instruction::ChangeDefense(a) => match other {
                Instruction::ChangeDefense(b) => a == b,
                _ => false,
            },
            Instruction::ChangeSpecialAttack(a) => match other {
                Instruction::ChangeSpecialAttack(b) => a == b,
                _ => false,
            },
            Instruction::ChangeSpecialDefense(a) => match other {
                Instruction::ChangeSpecialDefense(b) => a == b,
                _ => false,
            },
            Instruction::ChangeSpeed(a) => match other {
                Instruction::ChangeSpeed(b) => a == b,
                _ => false,
            },
            Instruction::DisableMove(a) => match other {
                Instruction::DisableMove(b) => a == b,
                _ => false,
            },
        _ => false,
    }
}

fn same_change_in_block_3(x: &Instruction, other: &Instruction) -> (r: bool)
    requires
        variant_block(*x) == 3,
    ensures
        r == x.same_change(*other),
{
    match x {
            Instruction::EnableMove(a) => match other {
                Instruction::EnableMove(b) => a == b,
                _ => false,
            },
            Instruction::ChangeWish(a) => match other {
                Instruction::ChangeWish(b) => a == b,
                _ => false,
            },
            Instruction::DecrementWish(a) => match other {
                Instruction::DecrementWish(b) => a == b,
                _ => false,
            },
            Instruction::SetFutureSight(a) => match other {
                Instruction::SetFutureSight(b) => a == b,
                _ => false,
            },
            Instruction::DecrementFutureSight(a) => match other {
                Instruction::DecrementFutureSight(b) => a == b,
                _ => false,
            },
            Instruction::DamageSubstitute(a) => match other {
                Instruction::DamageSubstitute(b) => a == b,
                _ => false,
            },
            Instruction::DecrementRestTurns(a) => match other {
                Instruction::DecrementRestTurns(b) => a == b,
                _ => false,
            },
            Instruction::SetRestTurns(a) => match other {
                Instruction::SetRestTurns(b) => a == b,
                _ => false,
            },
        _ => false,
    }
}

fn same_change_in_block_4(x: &Instruction, other: &Instruction) -> (r: bool)
    requires
        variant_block(*x) == 4,
    ensures
        r == x.same_change(*other),
{
    match x {
            Instruction::SetSleepTurns(a) => match other {
                Instruction::SetSleepTurns(b) => a == b,
                _ => false,
            },
            Instruction::SetFreezeTurns(a) => match other {
                Instruction::SetFreezeTurns(b) => a == b,
                _ => false,
            },
            Instruction::ChangeSubstituteHealth(a) => match other {
                Instruction::ChangeSubstituteHealth(b) => a == b,
                _ => false,
            },
            Instruction::FormeChange(a) => match other {
                Instruction::FormeChange(b) => a == b,
                _ => false,
            },
            Instruction::SetSideOneMoveSecondSwitchOutMove(a) => match other {
                Instruction::SetSideOneMoveSecondSwitchOutMove(b) => a == b,
                _ => false,
            },
            Instruction::SetSideTwoMoveSecondSwitchOutMove(a) => match other {
                Instruction::SetSideTwoMoveSecondSwitchOutMove(b) => a == b,
                _ => false,
            },
            Instruction::ToggleBatonPassing(a) => match other {
                Instruction::ToggleBatonPassing(b) => a == b,
                _ => false,
            },
            Instruction::ToggleShedTailing(a) => match other {
                Instruction::ToggleShedTailing(b) => a == b,
                _ => false,
            },
        _ => false,
    }
}

fn same_change_in_block_5(x: &Instruction, other: &Instruction) -> (r: bool)
    requires
        variant_block(*x) == 5,
    ensures
        r == x.same_change(*other),
{
    match x {
            Instruction::SetLastUsedMove(a) => match other {
                Instruction::SetLastUsedMove(b) => a == b,
                _ => false,
            },
            Instruction::ChangeDamageDealtDamage(a) => match other {
                Instruction::ChangeDamageDealtDamage(b) => a == b,
                _ => false,
            },
            Instruction::ChangeDamageDealtMoveCatagory(a) => match other {
                Instruction::ChangeDamageDealtMoveCatagory(b) => a == b,
                _ => false,
            },
            Instruction::ToggleDamageDealtHitSubstitute(a) => match other {
                Instruction::ToggleDamageDealtHitSubstitute(b) => a == b,
                _ => false,
            },
            Instruction::DecrementPP(a) => match other {
                Instruction::DecrementPP(b) => a == b,
                _ => false,
            },
            Instruction::ToggleTrickRoom(a) => match other {
                Instruction::ToggleTrickRoom(b) => a == b,
                _ => false,
            },
            Instruction::DecrementTrickRoomTurnsRemaining => matches!(other, Instruction::DecrementTrickRoomTurnsRemaining),
            Instruction::ToggleSideOneForceSwitch => matches!(other, Instruction::ToggleSideOneForceSwitch),
        _ => false,
    }
}

fn same_change_in_block_6(x: &Instruction, other: &Instruction) -> (r: bool)
    requires
        variant_block(*x) == 6,
    ensures
        r == x.same_change(*other),
{
    match x {
            Instruction::ToggleSideTwoForceSwitch => matches!(other, Instruction::ToggleSideTwoForceSwitch),
            Instruction::ToggleTerastallized(a) => match other {
                Instruction::ToggleTerastallized(b) => a == b,
                _ => false,
            },
            Instruction::ToggleMegaEvolved(a) => match other {
                Instruction::ToggleMegaEvolved(b) => a == b,
                _ => false,
            },
            Instruction::ToggleSwordBoostUsed(a) => match other {
                Instruction::ToggleSwordBoostUsed(b) => a == b,
                _ => false,
            },
            Instruction::ToggleShieldBoostUsed(a) => match other {
                Instruction::ToggleShieldBoostUsed(b) => a == b,
                _ => false,
            },
            Instruction::TeamPreview(a) => match other {
                Instruction::TeamPreview(b) => a == b,
                _ => false,
            },
        _ => false,
    }
}

impl PartialEq for Instruction {
    fn eq(&self, other: &Self) -> (r: bool) {
        let b = block_of(self);
        if b == 0 {
            same_change_in_block_0(self, other)
        } else if b == 1 {
            same_change_in_block_1(self, other)
        } else if b == 2 {
            same_change_in_block_2(self, other)
        } else if b == 3 {
            same_change_in_block_3(self, other)
        } else if b == 4 {
            same_change_in_block_4(self, other)
        } else if b == 5 {
            same_change_in_block_5(self, other)
        } else {
            same_change_in_block_6(self, other)
        }
    }
}

impl vstd::std_specs::cmp::PartialEqSpecImpl for Instruction {
    open spec fn obeys_eq_spec() -> bool {
        true
    }

    open spec fn eq_spec(&self, other: &Self) -> bool {
        self.same_change(*other)
    }
}


impl FaintContext {
    /// A faint with nothing known of its source.
    pub fn unknown() -> (r: FaintContext)
        ensures
            r == (FaintContext {
                source_side: None,
                source_index: None,
                cause: FaintCause::Unknown,
                effect: FaintEffect::Nothing,
            }),
    {
        FaintContext {
            source_side: None,
            source_index: None,
            cause: FaintCause::Unknown,
            effect: FaintEffect::Nothing,
        }
    }

    /// A faint caused by a move used from the given side and slot.
    pub fn move_effect(
        source_side: SideReference,
        source_index: PokemonIndex,
        cause: FaintCause,
        move_id: Choices,
    ) -> (r: FaintContext)
        ensures
            r == (FaintContext {
                source_side: Some(source_side),
                source_index: Some(source_index),
                cause: cause,
                effect: FaintEffect::Move(move_id),
            }),
    {
        FaintContext {
            source_side: Some(source_side),
            source_index: Some(source_index),
            cause,
            effect: FaintEffect::Move(move_id),
        }
    }

    /// A faint from residual damage (weather, status, a volatile) with no source pokemon.
    pub fn residual(effect: FaintEffect) -> (r: FaintContext)
        ensures
            r == (FaintContext {
                source_side: None,
                source_index: None,
                cause: FaintCause::Residual,
                effect: effect,
            }),
    {
        FaintContext { source_side: None, source_index: None, cause: FaintCause::Residual, effect }
    }

    /// A faint caused by an ability of the pokemon in the given side and slot.
    pub fn ability_effect(
        source_side: SideReference,
        source_index: PokemonIndex,
        ability: Abilities,
    ) -> (r: FaintContext)
        ensures
            r == (FaintContext {
                source_side: Some(source_side),
                source_index: Some(source_index),
                cause: FaintCause::Ability,
                effect: FaintEffect::Ability(ability),
            }),
    {
        FaintContext {
            source_side: Some(source_side),
            source_index: Some(source_index),
            cause: FaintCause::Ability,
            effect: FaintEffect::Ability(ability),
        }
    }

    /// A faint caused by an item held by the pokemon in the given side and slot.
    pub fn item_effect(source_side: SideReference, source_index: PokemonIndex, item: Items) -> (r:
        FaintContext)
        ensures
            r == (FaintContext {
                source_side: Some(source_side),
                source_index: Some(source_index),
                cause: FaintCause::Item,
                effect: FaintEffect::Item(item),
            }),
    {
        FaintContext {
            source_side: Some(source_side),
            source_index: Some(source_index),
            cause: FaintCause::Item,
            effect: FaintEffect::Item(item),
        }
    }
}

impl Default for FaintContext {
    /// The default faint context is the unknown one.
    fn default() -> (r: FaintContext)
        ensures
            r == (FaintContext {
                source_side: None,
                source_index: None,
                cause: FaintCause::Unknown,
                effect: FaintEffect::Nothing,
            }),
    {
        FaintContext::unknown()
    }
}

/// Every instruction records the same change as itself.
pub proof fn lemma_same_change_reflexive(x: Instruction)
    ensures
        x.same_change(x),
{
}

/// Recording the same change is symmetric: the order of the two instructions does not matter.
pub proof fn lemma_same_change_symmetric(x: Instruction, y: Instruction)
    ensures
        x.same_change(y) == y.same_change(x),
{
    match x {
        Instruction::Switch(..) => {},
        Instruction::ApplyVolatileStatus(..) => {},
        Instruction::RemoveVolatileStatus(..) => {},
        Instruction::ChangeStatus(..) => {},
        Instruction::Heal(..) => {},
        Instruction::Damage(..) => {},
        Instruction::DamageWithFaintContext(..) => {},
        Instruction::Boost(..) => {},
        Instruction::ChangeSideCondition(..) => {},
        Instruction::ChangeVolatileStatusDuration(..) => {},
        Instruction::ChangeWeather(..) => {},
        Instruction::DecrementWeatherTurnsRemaining => {},
        Instruction::ChangeTerrain(..) => {},
        Instruction::DecrementTerrainTurnsRemaining => {},
        Instruction::ChangeType(..) => {},
        Instruction::ChangeAbility(..) => {},
        Instruction::ChangeBaseAbility(..) => {},
        Instruction::ChangeItem(..) => {},
        Instruction::ChangeAttack(..) => {},
        Instruction::ChangeDefense(..) => {},
        Instruction::ChangeSpecialAttack(..) => {},
        Instruction::ChangeSpecialDefense(..) => {},
        Instruction::ChangeSpeed(..) => {},
        Instruction::DisableMove(..) => {},
        Instruction::EnableMove(..) => {},
        Instruction::ChangeWish(..) => {},
        Instruction::DecrementWish(..) => {},
        Instruction::SetFutureSight(..) => {},
        Instruction::DecrementFutureSight(..) => {},
        Instruction::DamageSubstitute(..) => {},
        Instruction::DecrementRestTurns(..) => {},
        Instruction::SetRestTurns(..) => {},
        Instruction::SetSleepTurns(..) => {},
        Instruction::SetFreezeTurns(..) => {},
        Instruction::ChangeSubstituteHealth(..) => {},
        Instruction::FormeChange(..) => {},
        Instruction::SetSideOneMoveSecondSwitchOutMove(..) => {},
        Instruction::SetSideTwoMoveSecondSwitchOutMove(..) => {},
        Instruction::ToggleBatonPassing(..) => {},
        Instruction::ToggleShedTailing(..) => {},
        Instruction::SetLastUsedMove(..) => {},
        Instruction::ChangeDamageDealtDamage(..) => {},
        Instruction::ChangeDamageDealtMoveCatagory(..) => {},
        Instruction::ToggleDamageDealtHitSubstitute(..) => {},
        Instruction::DecrementPP(..) => {},
        Instruction::ToggleTrickRoom(..) => {},
        Instruction::DecrementTrickRoomTurnsRemaining => {},
        Instruction::ToggleSideOneForceSwitch => {},
        Instruction::ToggleSideTwoForceSwitch => {},
        Instruction::ToggleTerastallized(..) => {},
        Instruction::ToggleMegaEvolved(..) => {},
        Instruction::ToggleSwordBoostUsed(..) => {},
        Instruction::ToggleShieldBoostUsed(..) => {},
        Instruction::TeamPreview(..) => {},
    }
}

/// A damage instruction and a damage-with-faint-context instruction that hit the same side for
/// the same amount record the same change, whatever the faint context says.
pub proof fn lemma_faint_context_ignored_against_plain_damage(
    d: DamageInstruction,
    f: DamageWithFaintContextInstruction,
)
    requires
        d.side_ref == f.side_ref,
        d.damage_amount == f.damage_amount,
    ensures
        Instruction::Damage(d).same_change(Instruction::DamageWithFaintContext(f)),
        Instruction::DamageWithFaintContext(f).same_change(Instruction::Damage(d)),
{
}

} // verus!
