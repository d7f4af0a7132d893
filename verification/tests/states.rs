use bannerlord_character_system::plugins::{hooks_for, Hook, System};
use bannerlord_character_system::states::{
    check_loading_complete, CombatState, GameState, Mode, ModeMachine, Transition, WorldMapState,
};

// Runs one frame: the transition asked for last frame takes effect, then the
// frame's systems run and may ask for the next one.
fn run_frame(machine: &mut ModeMachine, request: Option<GameState>) -> Option<Transition> {
    let transition = machine.advance();
    if let Some(target) = request {
        machine.request_transition(target);
    }
    transition
}

#[test]
fn test_game_state_transitions() {
    let mut machine = ModeMachine::new();

    // Start in Loading state
    assert_eq!(machine.current_mode(), GameState::Loading);

    // Run for a frame to allow the transition system to run
    run_frame(&mut machine, Some(GameState::MainMenu));
    machine.advance();

    // Should now be in MainMenu state
    assert_eq!(machine.current_mode(), GameState::MainMenu);
}

#[test]
fn test_combat_plugin() {
    let mut machine = ModeMachine::new();

    // Set game state to Combat
    machine.request_transition(GameState::Combat);

    // Run for a few frames to allow systems to run
    for _ in 0..5 {
        run_frame(&mut machine, None);
    }
    assert_eq!(machine.current(), Mode::Combat(CombatState::Preparation));
    assert!(System::ProcessAttacks.should_run(&machine));
    assert!(System::DeployTroops.should_run(&machine));
    assert!(!System::ProcessCombatInput.should_run(&machine));
}

#[test]
fn a_request_is_not_visible_in_the_frame_it_was_made() {
    let mut machine = ModeMachine::new();
    machine.request_transition(GameState::WorldMap);
    assert_eq!(machine.current_mode(), GameState::Loading);
    assert_eq!(machine.pending(), Some(GameState::WorldMap));
    assert!(System::CheckLoadingComplete.should_run(&machine));
    assert!(!System::UpdateWorldMap.should_run(&machine));
    machine.advance();
    assert_eq!(machine.current_mode(), GameState::WorldMap);
    assert_eq!(machine.pending(), None);
    assert!(System::UpdateWorldMap.should_run(&machine));
}

#[test]
fn the_last_request_of_a_frame_wins() {
    let mut machine = ModeMachine::new();
    machine.request_transition(GameState::MainMenu);
    machine.request_transition(GameState::Settlement);
    machine.request_transition(GameState::Inventory);
    assert_eq!(machine.current_mode(), GameState::Loading);
    let transition = machine.advance();
    assert_eq!(
        transition,
        Some(Transition { exited: GameState::Loading, entered: GameState::Inventory })
    );
    assert_eq!(machine.current_mode(), GameState::Inventory);
    assert_eq!(machine.advance(), None);
    assert_eq!(machine.current_mode(), GameState::Inventory);
}

#[test]
fn combat_always_begins_in_preparation() {
    let mut machine = ModeMachine::new();
    machine.request_transition(GameState::Combat);
    machine.advance();
    assert_eq!(machine.combat_state(), Some(CombatState::Preparation));
    machine.request_combat_state(CombatState::Active);
    assert_eq!(machine.combat_state(), Some(CombatState::Preparation));
    machine.advance();
    assert_eq!(machine.combat_state(), Some(CombatState::Active));
    machine.request_combat_state(CombatState::Victory);
    machine.advance();
    assert!(machine.in_combat_state(CombatState::Victory));

    machine.request_transition(GameState::WorldMap);
    machine.advance();
    assert_eq!(machine.combat_state(), None);
    assert_eq!(machine.world_map_state(), Some(WorldMapState::Free));

    machine.request_transition(GameState::Combat);
    machine.advance();
    assert_eq!(machine.combat_state(), Some(CombatState::Preparation));
    assert_eq!(machine.world_map_state(), None);
}

#[test]
fn a_nested_request_is_dropped_when_its_parent_is_left() {
    let mut machine = ModeMachine::new();
    machine.request_transition(GameState::Combat);
    machine.advance();
    machine.request_combat_state(CombatState::Defeat);
    machine.request_transition(GameState::MainMenu);
    machine.advance();
    assert_eq!(machine.current(), Mode::MainMenu);
    machine.request_transition(GameState::Combat);
    machine.advance();
    assert_eq!(machine.current(), Mode::Combat(CombatState::Preparation));
}

#[test]
fn asking_for_the_current_state_changes_nothing() {
    let mut machine = ModeMachine::new();
    machine.request_transition(GameState::WorldMap);
    machine.advance();
    machine.request_world_map_state(WorldMapState::Siege);
    machine.request_transition(GameState::WorldMap);
    assert_eq!(machine.advance(), None);
    assert_eq!(machine.current(), Mode::WorldMap(WorldMapState::Siege));
    assert!(machine.in_world_map_state(WorldMapState::Siege));
    assert!(!machine.in_world_map_state(WorldMapState::Free));
}

#[test]
fn loading_waits_for_the_assets() {
    let mut machine = ModeMachine::new();
    // The signal stays false for three frames.
    for _ in 0..3 {
        machine.advance();
        check_loading_complete(&mut machine, false);
        assert_eq!(machine.current_mode(), GameState::Loading);
        assert_eq!(machine.pending(), None);
    }
    // It becomes true during the fourth: the mode is still Loading then,
    machine.advance();
    check_loading_complete(&mut machine, true);
    assert_eq!(machine.current_mode(), GameState::Loading);
    assert_eq!(machine.pending(), Some(GameState::MainMenu));
    // and MainMenu exactly one frame later.
    let transition = machine.advance();
    assert_eq!(
        transition,
        Some(Transition { exited: GameState::Loading, entered: GameState::MainMenu })
    );
    assert_eq!(machine.current_mode(), GameState::MainMenu);
    // Outside the loading screen the signal asks for nothing.
    check_loading_complete(&mut machine, true);
    assert_eq!(machine.pending(), None);
}

#[test]
fn hooks_run_once_for_each_change() {
    let mut machine = ModeMachine::new();
    machine.request_transition(GameState::Combat);
    let entered = machine.advance();
    assert_eq!(hooks_for(entered), vec![Hook::SetupCombatScene]);
    assert_eq!(hooks_for(machine.advance()), vec![]);
    machine.request_transition(GameState::WorldMap);
    let left = machine.advance();
    assert_eq!(hooks_for(left), vec![Hook::CleanupCombatScene, Hook::SetupWorldMap]);
    machine.request_transition(GameState::MainMenu);
    assert_eq!(hooks_for(machine.advance()), vec![Hook::CleanupWorldMap, Hook::SetupMainMenu]);
    machine.request_transition(GameState::Pause);
    assert_eq!(hooks_for(machine.advance()), vec![Hook::CleanupMainMenu]);
    machine.request_transition(GameState::Dialogue);
    assert_eq!(hooks_for(machine.advance()), vec![]);
}

#[test]
fn defaults_are_the_first_variants() {
    assert_eq!(GameState::default(), GameState::Loading);
    assert_eq!(CombatState::default(), CombatState::Preparation);
    assert_eq!(WorldMapState::default(), WorldMapState::Free);
    assert_eq!(Mode::enter(GameState::Combat).game_state(), GameState::Combat);
}
