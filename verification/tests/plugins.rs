use bannerlord_character_system::assets::{
    check_asset_loading, get_random_asset, load_assets, AssetKind, GameAssets, LoadState,
};
use bannerlord_character_system::plugins::{
    AssetsPlugin, CharacterPlugin, CombatPlugin, Hook, MenuPlugin, RunCondition,
    SaveSystemPlugin, System, WorldMapPlugin,
};
use bannerlord_character_system::states::{
    check_loading_complete, CombatState, GameState, ModeMachine, WorldMapState,
};

#[test]
fn test_asset_loading() {
    let mut machine = ModeMachine::new();
    let mut assets = GameAssets::new();

    // Queue the assets; the engine answers each request with a handle.
    let requests = load_assets();
    for (handle, request) in requests.iter().enumerate() {
        assets.track(request.kind, handle as u64);
    }
    assert_eq!(assets.asset_handles.len(), 4);

    // Run for a few frames to initiate asset loading
    for _ in 0..5 {
        machine.advance();
        let states = vec![LoadState::Loading; assets.asset_handles.len()];
        check_loading_complete(&mut machine, check_asset_loading(&states));
    }
    assert_eq!(machine.current_mode(), GameState::Loading);
}

#[test]
fn the_assets_asked_for_at_start() {
    let requests = load_assets();
    let listed: Vec<(AssetKind, &str)> = requests.iter().map(|r| (r.kind, r.path)).collect();
    assert_eq!(
        listed,
        vec![
            (AssetKind::CharacterModel, "models/character.glb"),
            (AssetKind::TerrainTexture, "textures/terrain.png"),
            (AssetKind::MusicTrack, "audio/background_music.ogg"),
            (AssetKind::Font, "fonts/game_font.ttf"),
        ]
    );
}

#[test]
fn handles_are_kept_by_kind_and_in_one_set() {
    let mut assets = GameAssets::new();
    assets.track(AssetKind::CharacterModel, 7);
    assets.track(AssetKind::Font, 9);
    assets.track(AssetKind::Font, 9);
    assets.track(AssetKind::SoundEffect, 11);
    assets.track(AssetKind::UiTexture, 12);
    assets.track(AssetKind::TerrainTexture, 13);
    assets.track(AssetKind::MusicTrack, 14);
    assert_eq!(assets.character_models, vec![7]);
    assert_eq!(assets.fonts, vec![9, 9]);
    assert_eq!(assets.sound_effects, vec![11]);
    assert_eq!(assets.ui_textures, vec![12]);
    assert_eq!(assets.terrain_textures, vec![13]);
    assert_eq!(assets.music_tracks, vec![14]);
    assert_eq!(assets.asset_handles.len(), 6);
    assert!(assets.asset_handles.contains(&9));
}

#[test]
fn loading_is_complete_when_every_asset_is_loaded() {
    assert!(check_asset_loading(&vec![]));
    assert!(check_asset_loading(&vec![LoadState::Loaded, LoadState::Loaded]));
    assert!(!check_asset_loading(&vec![LoadState::Loaded, LoadState::Loading]));
    assert!(!check_asset_loading(&vec![LoadState::NotLoaded]));
    assert!(!check_asset_loading(&vec![LoadState::Loaded, LoadState::Failed, LoadState::Loaded]));
}

#[test]
fn the_first_asset_is_picked() {
    let none: [u64; 0] = [];
    assert_eq!(get_random_asset(&none), None);
    assert_eq!(get_random_asset(&[4u64, 5, 6]), Some(4));
}

#[test]
fn systems_run_under_their_conditions() {
    let mut machine = ModeMachine::new();
    assert!(System::HandleSaveGame.should_run(&machine));
    assert!(System::HandleLoadGame.should_run(&machine));
    assert!(System::CheckLoadingComplete.should_run(&machine));
    assert!(!System::HandleMenuInput.should_run(&machine));

    machine.request_transition(GameState::MainMenu);
    machine.advance();
    assert!(System::HandleMenuInput.should_run(&machine));
    assert!(System::UpdateMenuUi.should_run(&machine));
    assert!(!System::HandleCharacterCreation.should_run(&machine));
    assert!(!System::CheckLoadingComplete.should_run(&machine));

    machine.request_transition(GameState::CharacterCreation);
    machine.advance();
    assert!(System::HandleCharacterCreation.should_run(&machine));

    machine.request_transition(GameState::Pause);
    machine.advance();
    assert!(System::HandlePauseMenu.should_run(&machine));

    machine.request_transition(GameState::WorldMap);
    machine.advance();
    assert!(System::UpdateWorldMap.should_run(&machine));
    assert!(System::HandleWorldMapInput.should_run(&machine));
    assert!(!System::HandleEncounter.should_run(&machine));
    machine.request_world_map_state(WorldMapState::Encounter);
    machine.advance();
    assert!(System::HandleEncounter.should_run(&machine));

    machine.request_transition(GameState::Combat);
    machine.advance();
    for system in [
        System::ProcessAttacks,
        System::HandleDamage,
        System::UpdateCombatAi,
        System::CheckCombatVictory,
        System::DeployTroops,
    ] {
        assert!(system.should_run(&machine));
    }
    machine.request_combat_state(CombatState::Active);
    machine.advance();
    assert!(System::ProcessCombatInput.should_run(&machine));
    assert!(System::UpdateCombatAnimations.should_run(&machine));
    assert!(!System::DeployTroops.should_run(&machine));
    machine.request_combat_state(CombatState::Victory);
    machine.advance();
    assert!(System::HandleVictoryScreen.should_run(&machine));
    assert!(!System::HandleDefeatScreen.should_run(&machine));
    machine.request_combat_state(CombatState::Defeat);
    machine.advance();
    assert!(System::HandleDefeatScreen.should_run(&machine));
    assert!(System::ProcessAttacks.should_run(&machine));
}

#[test]
fn each_plugin_lists_its_systems() {
    assert_eq!(CombatPlugin.systems().len(), 9);
    assert_eq!(CombatPlugin.systems()[4], System::DeployTroops);
    assert_eq!(CombatPlugin.hooks(), vec![Hook::SetupCombatScene, Hook::CleanupCombatScene]);
    assert_eq!(
        MenuPlugin.systems(),
        vec![
            System::HandleMenuInput,
            System::UpdateMenuUi,
            System::HandleCharacterCreation,
            System::HandlePauseMenu
        ]
    );
    assert_eq!(MenuPlugin.hooks(), vec![Hook::SetupMainMenu, Hook::CleanupMainMenu]);
    assert_eq!(
        WorldMapPlugin.systems(),
        vec![System::UpdateWorldMap, System::HandleWorldMapInput, System::HandleEncounter]
    );
    assert_eq!(WorldMapPlugin.hooks(), vec![Hook::SetupWorldMap, Hook::CleanupWorldMap]);
    assert_eq!(AssetsPlugin.systems(), vec![System::CheckLoadingComplete]);
    assert_eq!(
        SaveSystemPlugin.systems(),
        vec![System::HandleSaveGame, System::HandleLoadGame]
    );
    assert_eq!(
        System::HandleEncounter.run_condition(),
        RunCondition::InWorldMap(WorldMapState::Encounter)
    );
    assert_eq!(System::HandleSaveGame.run_condition(), RunCondition::Always);
    assert_eq!(
        CharacterPlugin.systems(),
        vec![System::CharacterCreatorUi, System::CharacterViewUi]
    );
    assert_eq!(System::CharacterViewUi.run_condition(), RunCondition::Always);
}
