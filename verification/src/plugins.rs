//! Which systems belong to which part of the game, and when each runs.
//!
//! A plugin is a list of systems, each bound to a condition on the game's
//! mode, and a list of hooks that run once when a state is entered or left.
//! The engine's scheduler does the running; what is decided here is only
//! whether a system is due in the current step.

use crate::states::{CombatState, GameState, Mode, ModeMachine, Transition, WorldMapState};
use vstd::prelude::*;

verus! {

/// Every system that runs under a condition.
#[derive(Debug, Clone, Copy, PartialEq, Eq, Structural, Hash)]
pub enum System {
    CheckLoadingComplete,
    ProcessAttacks,
    HandleDamage,
    UpdateCombatAi,
    CheckCombatVictory,
    DeployTroops,
    ProcessCombatInput,
    UpdateCombatAnimations,
    HandleVictoryScreen,
    HandleDefeatScreen,
    HandleMenuInput,
    UpdateMenuUi,
    HandleCharacterCreation,
    HandlePauseMenu,
    UpdateWorldMap,
    HandleWorldMapInput,
    HandleEncounter,
    HandleSaveGame,
    HandleLoadGame,
    CharacterCreatorUi,
    CharacterViewUi,
}

/// When a system is due.
#[derive(Debug, Clone, Copy, PartialEq, Eq, Structural, Hash)]
pub enum RunCondition {
    /// In every step.
    Always,
    /// While the game is in the given state.
    InState(GameState),
    /// While a battle is in the given phase.
    InCombat(CombatState),
    /// While the party on the world map is engaged in the given activity.
    InWorldMap(WorldMapState),
}

/// Setup and teardown that belong to a state.
#[derive(Debug, Clone, Copy, PartialEq, Eq, Structural, Hash)]
pub enum Hook {
    SetupCombatScene,
    CleanupCombatScene,
    SetupMainMenu,
    CleanupMainMenu,
    SetupWorldMap,
    CleanupWorldMap,
}

impl RunCondition {
    /// Whether the condition holds in `mode`.
    pub open spec fn holds(self, mode: Mode) -> bool {
        match self {
            RunCondition::Always => true,
            RunCondition::InState(state) => mode.state() == state,
            RunCondition::InCombat(phase) => mode == Mode::Combat(phase),
            RunCondition::InWorldMap(activity) => mode == Mode::WorldMap(activity),
        }
    }

    /// Whether the condition holds in the mode that this step began in.
    pub fn is_met(&self, machine: &ModeMachine) -> (r: bool)
        ensures
            r == self.holds(machine@.mode),
    {
        match self {
            RunCondition::Always => true,
            RunCondition::InState(state) => machine.in_state(*state),
            RunCondition::InCombat(phase) => machine.in_combat_state(*phase),
            RunCondition::InWorldMap(activity) => machine.in_world_map_state(*activity),
        }
    }
}

impl System {
    /// The condition that the system is bound to.
    pub open spec fn condition(self) -> RunCondition {
        match self {
            System::CheckLoadingComplete => RunCondition::InState(GameState::Loading),
            System::ProcessAttacks
            | System::HandleDamage
            | System::UpdateCombatAi
            | System::CheckCombatVictory => RunCondition::InState(GameState::Combat),
            System::DeployTroops => RunCondition::InCombat(CombatState::Preparation),
            System::ProcessCombatInput | System::UpdateCombatAnimations => RunCondition::InCombat(
                CombatState::Active,
            ),
            System::HandleVictoryScreen => RunCondition::InCombat(CombatState::Victory),
            System::HandleDefeatScreen => RunCondition::InCombat(CombatState::Defeat),
            System::HandleMenuInput | System::UpdateMenuUi => RunCondition::InState(
                GameState::MainMenu,
            ),
            System::HandleCharacterCreation => RunCondition::InState(
                GameState::CharacterCreation,
            ),
            System::HandlePauseMenu => RunCondition::InState(GameState::Pause),
            System::UpdateWorldMap | System::HandleWorldMapInput => RunCondition::InState(
                GameState::WorldMap,
            ),
            System::HandleEncounter => RunCondition::InWorldMap(WorldMapState::Encounter),
            System::HandleSaveGame
            | System::HandleLoadGame
            | System::CharacterCreatorUi
            | System::CharacterViewUi => RunCondition::Always,
        }
    }

    /// The condition that the system is bound to.
    pub fn run_condition(self) -> (r: RunCondition)
        ensures
            r == self.condition(),
    {
        match self {
            System::CheckLoadingComplete => RunCondition::InState(GameState::Loading),
            System::ProcessAttacks
            | System::HandleDamage
            | System::UpdateCombatAi
            | System::CheckCombatVictory => RunCondition::InState(GameState::Combat),
            System::DeployTroops => RunCondition::InCombat(CombatState::Preparation),
            System::ProcessCombatInput | System::UpdateCombatAnimations => RunCondition::InCombat(
                CombatState::Active,
            ),
            System::HandleVictoryScreen => RunCondition::InCombat(CombatState::Victory),
            System::HandleDefeatScreen => RunCondition::InCombat(CombatState::Defeat),
            System::HandleMenuInput | System::UpdateMenuUi => RunCondition::InState(
                GameState::MainMenu,
            ),
            System::HandleCharacterCreation => RunCondition::InState(
                GameState::CharacterCreation,
            ),
            System::HandlePauseMenu => RunCondition::InState(GameState::Pause),
            System::UpdateWorldMap | System::HandleWorldMapInput => RunCondition::InState(
                GameState::WorldMap,
            ),
            System::HandleEncounter => RunCondition::InWorldMap(WorldMapState::Encounter),
            System::HandleSaveGame
            | System::HandleLoadGame
            | System::CharacterCreatorUi
            | System::CharacterViewUi => RunCondition::Always,
        }
    }

    /// Whether the system is due in this step. The answer goes by the mode
    /// that the step began in: a change asked for during the step does not
    /// count until the next one.
    pub fn should_run(self, machine: &ModeMachine) -> (r: bool)
        ensures
            r == self.condition().holds(machine@.mode),
    {
        self.run_condition().is_met(machine)
    }
}

/// The teardown that leaving `state` calls for.
pub open spec fn exit_hook(state: GameState) -> Option<Hook> {
    match state {
        GameState::Combat => Some(Hook::CleanupCombatScene),
        GameState::MainMenu => Some(Hook::CleanupMainMenu),
        GameState::WorldMap => Some(Hook::CleanupWorldMap),
        _ => None,
    }
}

/// The setup that entering `state` calls for.
pub open spec fn enter_hook(state: GameState) -> Option<Hook> {
    match state {
        GameState::Combat => Some(Hook::SetupCombatScene),
        GameState::MainMenu => Some(Hook::SetupMainMenu),
        GameState::WorldMap => Some(Hook::SetupWorldMap),
        _ => None,
    }
}

/// The hooks that a step's change of state calls for, in the order they
/// run: teardown of the state left, then setup of the state entered.
pub open spec fn hooks_of(transition: Option<Transition>) -> Seq<Hook> {
    match transition {
        None => Seq::empty(),
        Some(change) => {
            let leaving = match exit_hook(change.exited) {
                Some(hook) => Seq::empty().push(hook),
                None => Seq::empty(),
            };
            match enter_hook(change.entered) {
                Some(hook) => leaving.push(hook),
                None => leaving,
            }
        },
    }
}

/// The hooks to run for what `ModeMachine::advance` reported. Each is to be
/// run once, in order.
pub fn hooks_for(transition: Option<Transition>) -> (r: Vec<Hook>)
    ensures
        r@ == hooks_of(transition),
{
    let mut hooks: Vec<Hook> = Vec::new();
    if let Some(change) = transition {
        match change.exited {
            GameState::Combat => hooks.push(Hook::CleanupCombatScene),
            GameState::MainMenu => hooks.push(Hook::CleanupMainMenu),
            GameState::WorldMap => hooks.push(Hook::CleanupWorldMap),
            _ => {},
        }
        match change.entered {
            GameState::Combat => hooks.push(Hook::SetupCombatScene),
            GameState::MainMenu => hooks.push(Hook::SetupMainMenu),
            GameState::WorldMap => hooks.push(Hook::SetupWorldMap),
            _ => {},
        }
    }
    hooks
}

/// Battles: attacks, damage, the enemy's decisions, and a screen for each
/// ending.
#[derive(Debug, Clone, Copy, PartialEq, Eq, Structural)]
pub struct CombatPlugin;

/// The main menu, character creation and the pause menu.
#[derive(Debug, Clone, Copy, PartialEq, Eq, Structural)]
pub struct MenuPlugin;

/// The strategic map and what happens on it.
#[derive(Debug, Clone, Copy, PartialEq, Eq, Structural)]
pub struct WorldMapPlugin;

/// Loading of assets, and leaving the loading screen when it is done.
#[derive(Debug, Clone, Copy, PartialEq, Eq, Structural)]
pub struct AssetsPlugin;

/// Saving and loading.
#[derive(Debug, Clone, Copy, PartialEq, Eq, Structural)]
pub struct SaveSystemPlugin;

/// Character creation and the character sheet.
#[derive(Debug, Clone, Copy, PartialEq, Eq, Structural)]
pub struct CharacterPlugin;

impl CombatPlugin {
    /// The systems that the plugin adds, in the order it adds them.
    pub fn systems(&self) -> (r: Vec<System>)
        ensures
            r@ == seq![
                System::ProcessAttacks,
                System::HandleDamage,
                System::UpdateCombatAi,
                System::CheckCombatVictory,
                System::DeployTroops,
                System::ProcessCombatInput,
                System::UpdateCombatAnimations,
                System::HandleVictoryScreen,
                System::HandleDefeatScreen,
            ],
    {
        vec![
            System::ProcessAttacks,
            System::HandleDamage,
            System::UpdateCombatAi,
            System::CheckCombatVictory,
            System::DeployTroops,
            System::ProcessCombatInput,
            System::UpdateCombatAnimations,
            System::HandleVictoryScreen,
            System::HandleDefeatScreen,
        ]
    }

    /// The hooks that the plugin adds: setup on entering combat, teardown on
    /// leaving it.
    pub fn hooks(&self) -> (r: Vec<Hook>)
        ensures
            r@ == seq![Hook::SetupCombatScene, Hook::CleanupCombatScene],
    {
        vec![Hook::SetupCombatScene, Hook::CleanupCombatScene]
    }
}

impl MenuPlugin {
    /// The systems that the plugin adds, in the order it adds them.
    pub fn systems(&self) -> (r: Vec<System>)
        ensures
            r@ == seq![
                System::HandleMenuInput,
                System::UpdateMenuUi,
                System::HandleCharacterCreation,
                System::HandlePauseMenu,
            ],
    {
        vec![
            System::HandleMenuInput,
            System::UpdateMenuUi,
            System::HandleCharacterCreation,
            System::HandlePauseMenu,
        ]
    }

    /// The hooks that the plugin adds.
    pub fn hooks(&self) -> (r: Vec<Hook>)
        ensures
            r@ == seq![Hook::SetupMainMenu, Hook::CleanupMainMenu],
    {
        vec![Hook::SetupMainMenu, Hook::CleanupMainMenu]
    }
}

impl WorldMapPlugin {
    /// The systems that the plugin adds, in the order it adds them.
    pub fn systems(&self) -> (r: Vec<System>)
        ensures
            r@ == seq![
                System::UpdateWorldMap,
                System::HandleWorldMapInput,
                System::HandleEncounter,
            ],
    {
        vec![System::UpdateWorldMap, System::HandleWorldMapInput, System::HandleEncounter]
    }

    /// The hooks that the plugin adds.
    pub fn hooks(&self) -> (r: Vec<Hook>)
        ensures
            r@ == seq![Hook::SetupWorldMap, Hook::CleanupWorldMap],
    {
        vec![Hook::SetupWorldMap, Hook::CleanupWorldMap]
    }
}

impl AssetsPlugin {
    /// The systems that the plugin adds.
    pub fn systems(&self) -> (r: Vec<System>)
        ensures
            r@ == seq![System::CheckLoadingComplete],
    {
        vec![System::CheckLoadingComplete]
    }
}

impl SaveSystemPlugin {
    /// The systems that the plugin adds.
    pub fn systems(&self) -> (r: Vec<System>)
        ensures
            r@ == seq![System::HandleSaveGame, System::HandleLoadGame],
    {
        vec![System::HandleSaveGame, System::HandleLoadGame]
    }
}

impl CharacterPlugin {
    /// The systems that the plugin adds.
    pub fn systems(&self) -> (r: Vec<System>)
        ensures
            r@ == seq![System::CharacterCreatorUi, System::CharacterViewUi],
    {
        vec![System::CharacterCreatorUi, System::CharacterViewUi]
    }
}

} // verus!
