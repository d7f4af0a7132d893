use bannerlord_character_system::components::{
    CharacterStats, CombatAI, Faction, Health, Reputation, Settlement, Stamina, WorldPosition,
};
use bannerlord_character_system::duplicate::Duplicate;
use bannerlord_character_system::json::Number;
use bannerlord_character_system::save::codec::{decode, encode, encode_text};
use bannerlord_character_system::save::document::{ItemData, WorldData};
use bannerlord_character_system::save::error::{DecodeError, SaveError};
use bannerlord_character_system::save::serialization::{
    handle_load_game, handle_save_game, is_valid_slot, load_text, resolve_slot, LoadGameEvent,
    SaveGameConfig, SaveGameEvent, StoredFile,
};
use bannerlord_character_system::save::store::{
    cleanup_combat_scene, EntityStore, FactionEntity, PlayerEntity, SettlementEntity,
};

fn decimal(text: &str) -> Number {
    Number::Decimal(text.to_string())
}

fn ragnar() -> PlayerEntity {
    PlayerEntity {
        name: "Ragnar".to_string(),
        position: (decimal("12.5"), decimal("-3.25")),
        stats: CharacterStats {
            strength: 9,
            agility: 7,
            intelligence: 5,
            charisma: 6,
            level: 3,
            experience: 1200,
        },
        health: Health { current: decimal("100.0"), max: decimal("100.0") },
        stamina: Stamina {
            current: decimal("80.0"),
            max: decimal("100.0"),
            recovery_rate: decimal("1.5"),
        },
        reputation: Reputation { faction_relations: vec![("sturgia".to_string(), -15)] },
        inventory: vec![ItemData {
            name: "Iron Sword".to_string(),
            item_type: "weapon".to_string(),
            value: 650,
            stats: vec![("damage".to_string(), decimal("29.0"))],
        }],
    }
}

fn empty_world() -> EntityStore {
    EntityStore {
        players: vec![],
        settlements: vec![],
        factions: vec![],
        combat_units: vec![],
        world: WorldData { game_time: decimal("0.0"), day: 1, seed: 12345 },
    }
}

fn world_with_ragnar() -> EntityStore {
    let mut world = empty_world();
    world.players.push(ragnar());
    world.factions.push(FactionEntity {
        faction: Faction { id: "sturgia".to_string(), name: "Sturgia".to_string() },
        relations: vec![("vlandia".to_string(), -40)],
    });
    world.settlements.push(SettlementEntity {
        settlement: Settlement {
            name: "Varcheg".to_string(),
            prosperity: 4200,
            garrison_size: 310,
            owner_faction_id: "sturgia".to_string(),
        },
        position: WorldPosition { x: decimal("101.5"), y: decimal("44.0") },
    });
    world
}

#[test]
fn save_then_load_restores_the_player() {
    let config = SaveGameConfig::default();
    let world = world_with_ragnar();
    let saves = vec![SaveGameEvent { save_name: "game1".to_string() }];
    let mut outcomes = handle_save_game(&saves, &config, &world);
    assert_eq!(outcomes.len(), 1);
    let file = outcomes.remove(0).expect("the save succeeds");
    assert_eq!(file.path, "saves/game1.sav");

    let files = vec![StoredFile { path: file.path, contents: Some(file.contents) }];
    let mut fresh = empty_world();
    let loads = vec![LoadGameEvent { save_name: "game1".to_string() }];
    let results = handle_load_game(&loads, &config, &files, &mut fresh);
    assert_eq!(results, vec![Ok(())]);
    assert_eq!(fresh.players.len(), 1);
    assert_eq!(fresh.players[0].name, "Ragnar");
    assert_eq!(fresh.players[0].health.current, decimal("100.0"));
    assert_eq!(fresh.players[0].health.max, decimal("100.0"));
    assert_eq!(fresh.players, world.players);
    assert_eq!(fresh.settlements, world.settlements);
    assert_eq!(fresh.factions, world.factions);
    assert_eq!(fresh.world, world.world);
}

#[test]
fn decode_of_encode_gives_the_document_back() {
    let world = world_with_ragnar();
    let document = encode(&world, "2024-03-01 10:00:00").expect("one player");
    assert_eq!(document.version, "1.0");
    assert_eq!(document.save_date, "2024-03-01 10:00:00");
    let text = encode_text(&document);
    let back = decode(&text).expect("what was written can be read");
    assert_eq!(back, document);
}

#[test]
fn written_text_is_a_json_object_with_the_six_sections() {
    let world = world_with_ragnar();
    let document = encode(&world, "now").expect("one player");
    let text = encode_text(&document);
    let value: serde_json::Value = serde_json::from_str(&text).expect("valid JSON");
    let object = value.as_object().expect("an object");
    assert_eq!(object.len(), 6);
    assert_eq!(value["version"], "1.0");
    assert_eq!(value["save_date"], "now");
    assert_eq!(value["world_data"]["day"], 1);
    assert_eq!(value["world_data"]["seed"], 12345);
    assert_eq!(value["player_data"]["name"], "Ragnar");
    assert_eq!(value["player_data"]["health"]["current"], 100.0);
    assert_eq!(value["player_data"]["position"][1], -3.25);
    assert_eq!(value["player_data"]["reputation"][0][1], -15);
    assert_eq!(value["settlements_data"][0]["garrison"], 310);
    assert_eq!(value["factions_data"][0]["id"], "sturgia");
}

#[test]
fn load_twice_is_load_once() {
    let config = SaveGameConfig::default();
    let world = world_with_ragnar();
    let document = encode(&world, "now").expect("one player");
    let files = vec![StoredFile {
        path: "saves/game1.sav".to_string(),
        contents: Some(encode_text(&document)),
    }];
    let mut once = empty_world();
    let mut twice = empty_world();
    let one = vec![LoadGameEvent { save_name: "game1".to_string() }];
    let two = vec![
        LoadGameEvent { save_name: "game1".to_string() },
        LoadGameEvent { save_name: "game1".to_string() },
    ];
    assert_eq!(handle_load_game(&one, &config, &files, &mut once), vec![Ok(())]);
    assert_eq!(handle_load_game(&two, &config, &files, &mut twice), vec![Ok(()), Ok(())]);
    assert_eq!(once, twice);
    assert_eq!(twice.players.len(), 1);
    assert_eq!(twice.settlements.len(), 1);
}

#[test]
fn save_without_a_single_player_fails() {
    let config = SaveGameConfig::default();
    let saves = vec![SaveGameEvent { save_name: "game1".to_string() }];
    let none = empty_world();
    let outcomes = handle_save_game(&saves, &config, &none);
    assert_eq!(outcomes, vec![Err(SaveError::MissingPlayer)]);

    let mut two = world_with_ragnar();
    two.players.push(ragnar());
    let outcomes = handle_save_game(&saves, &config, &two);
    assert_eq!(outcomes, vec![Err(SaveError::MissingPlayer)]);
    assert_eq!(encode(&two, "now"), Err(SaveError::MissingPlayer));
}

#[test]
fn load_of_a_missing_slot_leaves_the_world_alone() {
    let config = SaveGameConfig::default();
    let mut world = world_with_ragnar();
    let loads = vec![LoadGameEvent { save_name: "nowhere".to_string() }];
    let results = handle_load_game(&loads, &config, &vec![], &mut world);
    assert_eq!(results, vec![Err(SaveError::NoSuchSave)]);
    assert_eq!(world, world_with_ragnar());
}

#[test]
fn unreadable_file_is_an_io_failure() {
    let config = SaveGameConfig::default();
    let mut world = world_with_ragnar();
    let files = vec![StoredFile { path: "saves/broken.sav".to_string(), contents: None }];
    let loads = vec![LoadGameEvent { save_name: "broken".to_string() }];
    let results = handle_load_game(&loads, &config, &files, &mut world);
    assert_eq!(results, vec![Err(SaveError::IoFailure)]);
    assert_eq!(world, world_with_ragnar());
}

#[test]
fn slot_names_with_separators_are_refused() {
    let config = SaveGameConfig::default();
    let mut world = world_with_ragnar();
    let saves = vec![
        SaveGameEvent { save_name: "../escape".to_string() },
        SaveGameEvent { save_name: "a\\b".to_string() },
        SaveGameEvent { save_name: "fine".to_string() },
    ];
    let outcomes = handle_save_game(&saves, &config, &world);
    assert_eq!(outcomes[0], Err(SaveError::InvalidSlot));
    assert_eq!(outcomes[1], Err(SaveError::InvalidSlot));
    assert_eq!(outcomes[2].as_ref().map(|file| file.path.as_str()), Ok("saves/fine.sav"));
    let loads = vec![LoadGameEvent { save_name: "../escape".to_string() }];
    let results = handle_load_game(&loads, &config, &vec![], &mut world);
    assert_eq!(results, vec![Err(SaveError::InvalidSlot)]);
}

#[test]
fn malformed_text_is_rejected() {
    assert_eq!(decode("{ not json"), Err(DecodeError::Malformed));
    assert_eq!(decode("[]"), Err(DecodeError::Malformed));
    assert_eq!(decode("{\"version\": \"1.0\"}"), Err(DecodeError::Malformed));
    assert_eq!(decode("{\"version\": 1}"), Err(DecodeError::Malformed));
    assert_eq!(decode("{\"version\": \"one\"}"), Err(DecodeError::Malformed));
}

#[test]
fn newer_versions_are_unsupported() {
    let world = world_with_ragnar();
    let document = encode(&world, "now").expect("one player");
    let text = encode_text(&document);
    let newer = text.replace("\"version\": \"1.0\"", "\"version\": \"1.1\"");
    assert_ne!(newer, text);
    assert_eq!(decode(&newer), Err(DecodeError::UnsupportedVersion));
    let much_newer = text.replace("\"version\": \"1.0\"", "\"version\": \"2.0\"");
    assert_eq!(decode(&much_newer), Err(DecodeError::UnsupportedVersion));
    assert_eq!(decode("{\"version\": \"3.7\"}"), Err(DecodeError::UnsupportedVersion));
}

#[test]
fn older_versions_are_brought_up_to_date() {
    let world = world_with_ragnar();
    let document = encode(&world, "now").expect("one player");
    let text = encode_text(&document);
    let older = text.replace("\"version\": \"1.0\"", "\"version\": \"0.9\"");
    let back = decode(&older).expect("an older document is read");
    assert_eq!(back.version, "1.0");
    assert_eq!(back, document);
}

#[test]
fn dangling_faction_references_are_rejected() {
    let mut world = world_with_ragnar();
    world.settlements[0].settlement.owner_faction_id = "nobody".to_string();
    let document = encode(&world, "now").expect("one player");
    assert_eq!(decode(&encode_text(&document)), Err(DecodeError::Malformed));

    let mut world = world_with_ragnar();
    world.players[0].reputation.faction_relations.push(("ghosts".to_string(), 3));
    let document = encode(&world, "now").expect("one player");
    assert_eq!(decode(&encode_text(&document)), Err(DecodeError::Malformed));
}

#[test]
fn numbers_out_of_range_are_rejected() {
    let world = world_with_ragnar();
    let document = encode(&world, "now").expect("one player");
    let text = encode_text(&document);
    let too_strong = text.replace("\"strength\": 9", "\"strength\": 256");
    assert_ne!(too_strong, text);
    assert_eq!(decode(&too_strong), Err(DecodeError::Malformed));
    let negative = text.replace("\"garrison\": 310", "\"garrison\": -1");
    assert_ne!(negative, text);
    assert_eq!(decode(&negative), Err(DecodeError::Malformed));
}

#[test]
fn a_new_world_is_empty() {
    let world = EntityStore::new(WorldData { game_time: decimal("0.0"), day: 1, seed: 12345 });
    assert_eq!(world, empty_world());
    assert_eq!(world.single_player(), None);
    let populated = world_with_ragnar();
    assert_eq!(populated.single_player(), Some(&ragnar()));
    assert_eq!(populated.duplicate(), populated);
    let mut crowded = world_with_ragnar();
    crowded.players.push(ragnar());
    assert_eq!(crowded.single_player(), None);
}

#[test]
fn leaving_a_battle_removes_its_fighters_only() {
    let mut world = world_with_ragnar();
    world.combat_units.push(CombatAI {
        aggression: decimal("0.7"),
        preferred_distance: decimal("2.0"),
    });
    world.combat_units.push(CombatAI {
        aggression: decimal("0.2"),
        preferred_distance: decimal("12.0"),
    });
    cleanup_combat_scene(&mut world);
    assert_eq!(world, world_with_ragnar());
}

#[test]
fn a_load_keeps_the_fighters_of_the_battle() {
    let saved = world_with_ragnar();
    let text = encode_text(&encode(&saved, "now").expect("one player"));
    let mut world = empty_world();
    world.players.push(ragnar());
    world.players.push(ragnar());
    world.combat_units.push(CombatAI {
        aggression: decimal("0.7"),
        preferred_distance: decimal("2.0"),
    });
    assert_eq!(load_text(&mut world, &text), Ok(()));
    assert_eq!(world.players, saved.players);
    assert_eq!(world.factions, saved.factions);
    assert_eq!(world.combat_units.len(), 1);
    assert_eq!(load_text(&mut world, "nonsense"), Err(SaveError::Decode(DecodeError::Malformed)));
    assert_eq!(world.players, saved.players);
}

#[test]
fn paths_follow_the_directory() {
    let config = SaveGameConfig::default();
    assert_eq!(config.save_directory, "saves");
    assert_eq!(resolve_slot(&config, "game1"), Ok("saves/game1.sav".to_string()));
    assert_eq!(resolve_slot(&config, ""), Ok("saves/.sav".to_string()));
    assert_eq!(resolve_slot(&config, "a/b"), Err(SaveError::InvalidSlot));
    let slashed = SaveGameConfig { save_directory: "data/saves/".to_string() };
    assert_eq!(resolve_slot(&slashed, "game1"), Ok("data/saves/game1.sav".to_string()));
    let here = SaveGameConfig { save_directory: String::new() };
    assert_eq!(resolve_slot(&here, "game1"), Ok("game1.sav".to_string()));
    assert!(is_valid_slot("älg"));
    assert!(!is_valid_slot("/"));
    assert!(!is_valid_slot("\\"));
}

#[test]
fn errors_describe_themselves() {
    assert_eq!(SaveError::MissingPlayer.message(), "no single player found when saving game");
    assert_eq!(SaveError::NoSuchSave.message(), "save file does not exist");
    assert_eq!(SaveError::IoFailure.message(), "save file could not be read or written");
    assert_eq!(SaveError::InvalidSlot.message(), "save name must not contain a path separator");
    assert_eq!(SaveError::Decode(DecodeError::Malformed).message(), "save file is malformed");
    assert_eq!(DecodeError::UnsupportedVersion.message(), "save file is from a newer version");
}

#[test]
fn requests_are_served_in_order() {
    let config = SaveGameConfig::default();
    let first = world_with_ragnar();
    let mut second = world_with_ragnar();
    second.players[0].name = "Svana".to_string();
    let files = vec![
        StoredFile {
            path: "saves/a.sav".to_string(),
            contents: Some(encode_text(&encode(&first, "now").expect("one player"))),
        },
        StoredFile {
            path: "saves/b.sav".to_string(),
            contents: Some(encode_text(&encode(&second, "now").expect("one player"))),
        },
        StoredFile { path: "saves/a.sav".to_string(), contents: None },
    ];
    let loads = vec![
        LoadGameEvent { save_name: "b".to_string() },
        LoadGameEvent { save_name: "missing".to_string() },
        LoadGameEvent { save_name: "a".to_string() },
        LoadGameEvent { save_name: "x/y".to_string() },
    ];
    let mut world = empty_world();
    let results = handle_load_game(&loads, &config, &files, &mut world);
    assert_eq!(
        results,
        vec![Ok(()), Err(SaveError::NoSuchSave), Ok(()), Err(SaveError::InvalidSlot)]
    );
    assert_eq!(world.players[0].name, "Ragnar");

    let saves = vec![
        SaveGameEvent { save_name: "slot".to_string() },
        SaveGameEvent { save_name: "slot".to_string() },
    ];
    let outcomes = handle_save_game(&saves, &config, &second);
    assert_eq!(outcomes.len(), 2);
    for outcome in &outcomes {
        let file = outcome.as_ref().expect("the save succeeds");
        assert_eq!(file.path, "saves/slot.sav");
        assert_eq!(file.document.player_data.name, "Svana");
        assert_eq!(file.document.version, "1.0");
        assert!(!file.document.save_date.is_empty());
        assert_eq!(decode(&file.contents).as_ref(), Ok(&file.document));
    }
}
