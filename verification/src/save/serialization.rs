//! Carrying out requests to save and to load.
//!
//! Requests arrive as events and are served in the order they came, each
//! once. This module decides and computes; it does not touch the disk. A
//! save comes back as a file to write, and a load is given what the save
//! directory holds.

use crate::duplicate::Duplicate;
use crate::form::Saved;
use crate::json::{parsed_json, rendered_json};
use crate::save::codec::{
    decode, decoded, encode, encode_text, encoded, faction_known, lemma_decoded_is_consistent,
    snapshot,
};
use crate::save::document::{FactionDataView, GameSave, GameSaveView, SettlementDataView};
use crate::save::error::SaveError;
use crate::save::store::{
    EntityStore, EntityStoreView, FactionEntity, FactionEntityView, PlayerEntity,
    SettlementEntity, SettlementEntityView,
};
use vstd::prelude::*;

verus! {

/// Where saves are kept.
#[derive(Debug, PartialEq, Eq)]
pub struct SaveGameConfig {
    pub save_directory: String,
}

impl Default for SaveGameConfig {
    fn default() -> (r: Self)
        ensures
            r.save_directory@ == "saves"@,
    {
        SaveGameConfig { save_directory: String::from_str("saves") }
    }
}

/// A request to save the world under a slot's name.
#[derive(Debug, PartialEq, Eq)]
pub struct SaveGameEvent {
    pub save_name: String,
}

/// A request to load the world saved under a slot's name.
#[derive(Debug, PartialEq, Eq)]
pub struct LoadGameEvent {
    pub save_name: String,
}

/// Whether `c` separates the parts of a path.
pub open spec fn is_separator(c: char) -> bool {
    c == '/' || c == '\\'
}

/// Whether a slot's name stays inside the save directory: it holds no path
/// separator.
pub open spec fn valid_slot(name: Seq<char>) -> bool {
    forall|i: int| 0 <= i < name.len() ==> !is_separator(#[trigger] name[i])
}

/// The path of a slot's file: the directory, a separator unless the
/// directory is empty or ends in one, the slot's name and `.sav`.
pub open spec fn slot_path(directory: Seq<char>, name: Seq<char>) -> Seq<char> {
    if directory.len() == 0 || directory.last() == '/' {
        directory + name + ".sav"@
    } else {
        directory + "/"@ + name + ".sav"@
    }
}

/// Whether a slot's name holds no path separator.
pub fn is_valid_slot(name: &str) -> (r: bool)
    ensures
        r == valid_slot(name@),
{
    let len = name.unicode_len();
    let mut i: usize = 0;
    while i < len
        invariant
            i <= len == name@.len(),
            forall|k: int| 0 <= k < i ==> !is_separator(#[trigger] name@[k]),
        decreases len - i,
    {
        let c = name.get_char(i);
        if c == '/' || c == '\\' {
            return false;
        }
        i += 1;
    }
    true
}

/// The path of the file that holds a slot, or `InvalidSlot` where the name
/// holds a path separator.
pub fn resolve_slot(config: &SaveGameConfig, name: &str) -> (r: Result<String, SaveError>)
    ensures
        match r {
            Ok(path) => valid_slot(name@) && path@ == slot_path(config.save_directory@, name@),
            Err(error) => !valid_slot(name@) && error == SaveError::InvalidSlot,
        },
{
    if !is_valid_slot(name) {
        return Err(SaveError::InvalidSlot);
    }
    let mut path = config.save_directory.clone();
    let len = config.save_directory.as_str().unicode_len();
    if len > 0 && config.save_directory.as_str().get_char(len - 1) != '/' {
        path.append("/");
    }
    path.append(name);
    path.append(".sav");
    Ok(path)
}

/// A file to be written: where, and what.
#[derive(Debug, PartialEq, Eq)]
pub struct SaveFile {
    pub path: String,
    /// The document that `contents` is the text of.
    pub document: GameSave,
    pub contents: String,
}

/// `SaveFile` as contracts see it.
pub struct SaveFileView {
    pub path: Seq<char>,
    pub document: GameSaveView,
    pub contents: Seq<char>,
}

impl DeepView for SaveFile {
    type V = SaveFileView;

    open spec fn deep_view(&self) -> SaveFileView {
        SaveFileView {
            path: self.path@,
            document: self.document.deep_view(),
            contents: self.contents@,
        }
    }
}

/// What a request to save comes to. The player is checked first: a world
/// that does not hold exactly one player is never saved, so nothing is
/// written for it. Then the slot's name must be valid. The file holds the
/// text of the world's snapshot.
pub open spec fn save_outcome(
    directory: Seq<char>,
    name: Seq<char>,
    store: EntityStoreView,
    save_date: Seq<char>,
) -> Result<SaveFileView, SaveError> {
    if store.players.len() != 1 {
        Err(SaveError::MissingPlayer)
    } else if !valid_slot(name) {
        Err(SaveError::InvalidSlot)
    } else {
        Ok(
            SaveFileView {
                path: slot_path(directory, name),
                document: snapshot(store, save_date),
                contents: rendered_json(GameSave::form(snapshot(store, save_date))),
            },
        )
    }
}

/// Serves one request to save, stamping the document with `save_date`.
pub fn save_game(
    config: &SaveGameConfig,
    event: &SaveGameEvent,
    store: &EntityStore,
    save_date: &str,
) -> (r: Result<SaveFile, SaveError>)
    ensures
        match r {
            Ok(file) => save_outcome(
                config.save_directory@,
                event.save_name@,
                store.deep_view(),
                save_date@,
            ) == Ok::<SaveFileView, SaveError>(file.deep_view()),
            Err(error) => save_outcome(
                config.save_directory@,
                event.save_name@,
                store.deep_view(),
                save_date@,
            ) == Err::<SaveFileView, SaveError>(error),
        },
{
    let document = match encode(store, save_date) {
        Ok(document) => document,
        Err(error) => {
            return Err(error);
        },
    };
    let path = match resolve_slot(config, event.save_name.as_str()) {
        Ok(path) => path,
        Err(error) => {
            return Err(error);
        },
    };
    let contents = encode_text(&document);
    Ok(SaveFile { path, document, contents })
}

/// Whether `outcome` is what serving a request to save comes to, whatever
/// the date it was served at: a file carries its date in its document, and
/// a failure does not depend on the date.
pub open spec fn is_save_outcome(
    outcome: Result<SaveFile, SaveError>,
    directory: Seq<char>,
    name: Seq<char>,
    store: EntityStoreView,
) -> bool {
    match outcome {
        Ok(file) => save_outcome(directory, name, store, file.document.save_date@) == Ok::<
            SaveFileView,
            SaveError,
        >(file.deep_view()),
        Err(error) => save_outcome(directory, name, store, Seq::empty()) == Err::<
            SaveFileView,
            SaveError,
        >(error),
    }
}

/// Asks `chrono` for the local date and time, as `chrono::Local::now()`
/// gives it, and turns it into text with `to_string`. The answer depends on
/// the clock, so nothing is claimed of it.
#[verifier::external_body]
fn current_save_date() -> String {
    chrono::Local::now().to_string()
}

/// Serves the requests to save in the order they came, each stamped with
/// the time it is served at. The outcomes stand in the same order: a file
/// to write, or why there is none. Requests for the same slot each give a
/// file; written in order, the last one stays.
pub fn handle_save_game(
    events: &Vec<SaveGameEvent>,
    config: &SaveGameConfig,
    store: &EntityStore,
) -> (r: Vec<Result<SaveFile, SaveError>>)
    ensures
        r.len() == events.len(),
        forall|i: int|
            0 <= i < events.len() ==> is_save_outcome(
                #[trigger] r[i],
                config.save_directory@,
                events[i].save_name@,
                store.deep_view(),
            ),
{
    let mut outcomes: Vec<Result<SaveFile, SaveError>> = Vec::new();
    let mut i: usize = 0;
    while i < events.len()
        invariant
            i <= events.len(),
            outcomes.len() == i,
            forall|k: int|
                0 <= k < i ==> is_save_outcome(
                    #[trigger] outcomes[k],
                    config.save_directory@,
                    events[k].save_name@,
                    store.deep_view(),
                ),
        decreases events.len() - i,
    {
        let save_date = current_save_date();
        let outcome = save_game(config, &events[i], store, save_date.as_str());
        outcomes.push(outcome);
        i += 1;
    }
    outcomes
}

/// What the save directory holds under one path.
#[derive(Debug, PartialEq, Eq)]
pub struct StoredFile {
    pub path: String,
    /// The text of the file, or `None` where the file is there but could
    /// not be read.
    pub contents: Option<String>,
}

/// `StoredFile` as contracts see it.
pub struct StoredFileView {
    pub path: Seq<char>,
    pub contents: Option<Seq<char>>,
}

impl DeepView for StoredFile {
    type V = StoredFileView;

    open spec fn deep_view(&self) -> StoredFileView {
        StoredFileView { path: self.path@, contents: self.contents.deep_view() }
    }
}

/// What looking for a save found.
pub enum SlotContents {
    /// No file under the slot's path.
    Missing,
    /// A file that could not be read.
    Unreadable,
    /// The text of the file.
    Text(Seq<char>),
}

/// What the directory holds under `path`: the first file of that path.
pub open spec fn find_file(files: Seq<StoredFileView>, path: Seq<char>) -> SlotContents
    decreases files.len(),
{
    if files.len() == 0 {
        SlotContents::Missing
    } else if files[0].path == path {
        match files[0].contents {
            Some(text) => SlotContents::Text(text),
            None => SlotContents::Unreadable,
        }
    } else {
        find_file(files.drop_first(), path)
    }
}

/// The entities that a document's settlements describe, in the document's
/// order.
pub open spec fn settlement_entities(records: Seq<SettlementDataView>) -> Seq<
    SettlementEntityView,
> {
    Seq::new(records.len(), |i: int| records[i].entity())
}

/// The entities that a document's factions describe, in the document's
/// order.
pub open spec fn faction_entities(records: Seq<FactionDataView>) -> Seq<FactionEntityView> {
    Seq::new(records.len(), |i: int| records[i].entity())
}

/// The world once a document has been loaded into it. Whatever players,
/// settlements and factions were there are gone; the document's take their
/// place, and the clock is the document's. Entities of other kinds stay.
pub open spec fn restored(before: EntityStoreView, document: GameSaveView) -> EntityStoreView {
    EntityStoreView {
        players: Seq::empty().push(document.player_data.entity()),
        settlements: settlement_entities(document.settlements_data),
        factions: faction_entities(document.factions_data),
        combat_units: before.combat_units,
        world: document.world_data,
    }
}

/// How a load ends, given what was found under the slot's path.
pub open spec fn load_result(found: SlotContents) -> Result<(), SaveError> {
    match found {
        SlotContents::Missing => Err(SaveError::NoSuchSave),
        SlotContents::Unreadable => Err(SaveError::IoFailure),
        SlotContents::Text(text) => match decoded(text) {
            Ok(_) => Ok(()),
            Err(error) => Err(SaveError::Decode(error)),
        },
    }
}

/// The world after a load: restored from the document where the load
/// succeeds, and untouched where it fails.
pub open spec fn loaded(before: EntityStoreView, found: SlotContents) -> EntityStoreView {
    match found {
        SlotContents::Text(text) => match decoded(text) {
            Ok(document) => restored(before, document),
            Err(_) => before,
        },
        _ => before,
    }
}

/// How a request to load ends: an invalid name is refused before the
/// directory is looked at.
pub open spec fn load_outcome(
    directory: Seq<char>,
    files: Seq<StoredFileView>,
    name: Seq<char>,
) -> Result<(), SaveError> {
    if valid_slot(name) {
        load_result(find_file(files, slot_path(directory, name)))
    } else {
        Err(SaveError::InvalidSlot)
    }
}

/// The world after a request to load.
pub open spec fn after_load(
    before: EntityStoreView,
    directory: Seq<char>,
    files: Seq<StoredFileView>,
    name: Seq<char>,
) -> EntityStoreView {
    if valid_slot(name) {
        loaded(before, find_file(files, slot_path(directory, name)))
    } else {
        before
    }
}

/// The world after a run of requests to load, served in order.
pub open spec fn after_loads(
    before: EntityStoreView,
    directory: Seq<char>,
    files: Seq<StoredFileView>,
    names: Seq<Seq<char>>,
) -> EntityStoreView
    decreases names.len(),
{
    if names.len() == 0 {
        before
    } else {
        after_load(
            after_loads(before, directory, files, names.drop_last()),
            directory,
            files,
            names.last(),
        )
    }
}

/// The names that a run of requests to load asks for.
pub open spec fn requested_names(events: Seq<LoadGameEvent>) -> Seq<Seq<char>> {
    Seq::new(events.len(), |i: int| events[i].save_name@)
}

impl EntityStore {
    /// Replaces the world's players, settlements and factions and its clock
    /// by the document's. Clearing comes first, so nothing is there twice.
    pub fn restore(&mut self, document: &GameSave)
        ensures
            final(self).deep_view() == restored(old(self).deep_view(), document.deep_view()),
    {
        let ghost before = self.deep_view();
        let ghost view = document.deep_view();
        let mut players: Vec<PlayerEntity> = Vec::new();
        players.push(document.player_data.to_entity());
        let mut settlements: Vec<SettlementEntity> = Vec::new();
        let mut i: usize = 0;
        while i < document.settlements_data.len()
            invariant
                i <= document.settlements_data.len(),
                settlements.len() == i,
                forall|k: int|
                    0 <= k < i ==> #[trigger] settlements[k].deep_view()
                        == document.settlements_data[k].deep_view().entity(),
            decreases document.settlements_data.len() - i,
        {
            settlements.push(document.settlements_data[i].to_entity());
            i += 1;
        }
        let mut factions: Vec<FactionEntity> = Vec::new();
        let mut j: usize = 0;
        while j < document.factions_data.len()
            invariant
                j <= document.factions_data.len(),
                factions.len() == j,
                forall|k: int|
                    0 <= k < j ==> #[trigger] factions[k].deep_view()
                        == document.factions_data[k].deep_view().entity(),
            decreases document.factions_data.len() - j,
        {
            factions.push(document.factions_data[j].to_entity());
            j += 1;
        }
        self.players = players;
        self.settlements = settlements;
        self.factions = factions;
        self.world = document.world_data.duplicate();
        assert(self.deep_view().players =~= restored(before, view).players);
        assert(self.deep_view().settlements =~= restored(before, view).settlements);
        assert(self.deep_view().factions =~= restored(before, view).factions);
    }
}

/// What the directory holds under `path`, borrowed.
enum Found<'a> {
    Missing,
    Unreadable,
    Text(&'a String),
}

impl<'a> Found<'a> {
    spec fn contents(self) -> SlotContents {
        match self {
            Found::Missing => SlotContents::Missing,
            Found::Unreadable => SlotContents::Unreadable,
            Found::Text(text) => SlotContents::Text(text@),
        }
    }
}

fn look_up<'a>(files: &'a Vec<StoredFile>, path: &String) -> (r: Found<'a>)
    ensures
        r.contents() == find_file(files.deep_view(), path@),
{
    let ghost all = files.deep_view();
    let mut i: usize = 0;
    assert(all.skip(0) =~= all);
    while i < files.len()
        invariant
            i <= files.len(),
            all == files.deep_view(),
            find_file(all, path@) == find_file(all.skip(i as int), path@),
        decreases files.len() - i,
    {
        proof {
            let rest = all.skip(i as int);
            assert(rest[0] == all[i as int]);
            assert(all[i as int] == files[i as int].deep_view());
            assert(rest.drop_first() =~= all.skip(i + 1));
        }
        if files[i].path == *path {
            return match &files[i].contents {
                Some(text) => Found::Text(text),
                None => Found::Unreadable,
            };
        }
        i += 1;
    }
    Found::Missing
}

/// Loads the save found in `text` into the world. A text that does not
/// decode leaves the world as it was.
pub fn load_text(store: &mut EntityStore, text: &str) -> (r: Result<(), SaveError>)
    ensures
        r == load_result(SlotContents::Text(text@)),
        final(store).deep_view() == loaded(old(store).deep_view(), SlotContents::Text(text@)),
{
    match decode(text) {
        Ok(document) => {
            store.restore(&document);
            Ok(())
        },
        Err(error) => Err(SaveError::Decode(error)),
    }
}

/// Serves one request to load from what the save directory holds. The
/// world changes only if the load succeeds.
pub fn load_game(
    config: &SaveGameConfig,
    event: &LoadGameEvent,
    files: &Vec<StoredFile>,
    store: &mut EntityStore,
) -> (r: Result<(), SaveError>)
    ensures
        r == load_outcome(config.save_directory@, files.deep_view(), event.save_name@),
        final(store).deep_view() == after_load(
            old(store).deep_view(),
            config.save_directory@,
            files.deep_view(),
            event.save_name@,
        ),
{
    let path = match resolve_slot(config, event.save_name.as_str()) {
        Ok(path) => path,
        Err(error) => {
            return Err(error);
        },
    };
    match look_up(files, &path) {
        Found::Missing => Err(SaveError::NoSuchSave),
        Found::Unreadable => Err(SaveError::IoFailure),
        Found::Text(text) => load_text(store, text.as_str()),
    }
}

/// Serves the requests to load in the order they came, from what the save
/// directory holds. The outcomes stand in the same order. Each load that
/// succeeds replaces the world that the one before it left.
pub fn handle_load_game(
    events: &Vec<LoadGameEvent>,
    config: &SaveGameConfig,
    files: &Vec<StoredFile>,
    store: &mut EntityStore,
) -> (r: Vec<Result<(), SaveError>>)
    ensures
        r.len() == events.len(),
        forall|i: int|
            0 <= i < events.len() ==> #[trigger] r[i] == load_outcome(
                config.save_directory@,
                files.deep_view(),
                events[i].save_name@,
            ),
        final(store).deep_view() == after_loads(
            old(store).deep_view(),
            config.save_directory@,
            files.deep_view(),
            requested_names(events@),
        ),
{
    let ghost names = requested_names(events@);
    let ghost before = store.deep_view();
    let mut outcomes: Vec<Result<(), SaveError>> = Vec::new();
    let mut i: usize = 0;
    assert(names.take(0) =~= Seq::empty());
    while i < events.len()
        invariant
            i <= events.len(),
            outcomes.len() == i,
            names == requested_names(events@),
            forall|k: int|
                0 <= k < i ==> #[trigger] outcomes[k] == load_outcome(
                    config.save_directory@,
                    files.deep_view(),
                    events[k].save_name@,
                ),
            store.deep_view() == after_loads(
                before,
                config.save_directory@,
                files.deep_view(),
                names.take(i as int),
            ),
        decreases events.len() - i,
    {
        proof {
            let served = names.take(i + 1);
            assert(served.drop_last() =~= names.take(i as int));
            assert(served.last() == events[i as int].save_name@);
        }
        let outcome = load_game(config, &events[i], files, store);
        outcomes.push(outcome);
        i += 1;
    }
    assert(names.take(events.len() as int) =~= names);
    outcomes
}

/// Loading the same save twice in a row leaves the world as loading it
/// once does: nothing is there twice.
pub proof fn lemma_load_twice(before: EntityStoreView, found: SlotContents)
    ensures
        loaded(loaded(before, found), found) == loaded(before, found),
{
}

/// The same for requests: asking twice for a slot leaves the world as
/// asking once does, and a load that succeeds leaves exactly one player.
pub proof fn lemma_load_request_twice(
    before: EntityStoreView,
    directory: Seq<char>,
    files: Seq<StoredFileView>,
    name: Seq<char>,
)
    ensures
        after_load(after_load(before, directory, files, name), directory, files, name)
            == after_load(before, directory, files, name),
        load_outcome(directory, files, name) is Ok ==> after_load(
            before,
            directory,
            files,
            name,
        ).players.len() == 1,
{
    if valid_slot(name) {
        lemma_load_twice(before, find_file(files, slot_path(directory, name)));
    }
}

/// A world without a player, or with more than one, is never saved: the
/// request fails with `MissingPlayer` and gives no file to write, whatever
/// the slot and the date.
pub proof fn lemma_save_needs_one_player(
    directory: Seq<char>,
    name: Seq<char>,
    store: EntityStoreView,
    save_date: Seq<char>,
)
    requires
        store.players.len() != 1,
    ensures
        save_outcome(directory, name, store, save_date) == Err::<SaveFileView, SaveError>(
            SaveError::MissingPlayer,
        ),
        encoded(store, save_date) == Err::<GameSaveView, SaveError>(SaveError::MissingPlayer),
{
}

/// Loading a slot that the directory does not hold fails with `NoSuchSave`
/// and leaves the world as it was.
pub proof fn lemma_load_missing(
    before: EntityStoreView,
    directory: Seq<char>,
    files: Seq<StoredFileView>,
    name: Seq<char>,
)
    requires
        valid_slot(name),
        find_file(files, slot_path(directory, name)) is Missing,
    ensures
        load_outcome(directory, files, name) == Err::<(), SaveError>(SaveError::NoSuchSave),
        after_load(before, directory, files, name) == before,
{
}

/// Loading what was saved brings the saved world back: the player, the
/// settlements, the factions and the clock are those of the world that was
/// saved, in the same order.
pub proof fn lemma_restore_snapshot(
    before: EntityStoreView,
    saved: EntityStoreView,
    save_date: Seq<char>,
)
    requires
        saved.players.len() == 1,
    ensures
        restored(before, snapshot(saved, save_date)) == (EntityStoreView {
            combat_units: before.combat_units,
            ..saved
        }),
{
    let world = restored(before, snapshot(saved, save_date));
    assert(world.players =~= saved.players);
    assert(world.settlements =~= saved.settlements);
    assert(world.factions =~= saved.factions);
}

/// After a load that succeeds, every faction that a settlement or the
/// player's reputation names is there.
pub proof fn lemma_loaded_world_is_consistent(before: EntityStoreView, text: Seq<char>)
    requires
        decoded(text) is Ok,
    ensures
        loaded(before, SlotContents::Text(text)).references_resolve(),
{
    let document = decoded(text)->Ok_0;
    lemma_decoded_is_consistent(parsed_json(text)->0);
    let world = restored(before, document);
    assert forall|id: Seq<char>|
        faction_known(document.factions_data, id) implies world.has_faction(id) by {
        let k = choose|k: int|
            0 <= k < document.factions_data.len() && (#[trigger] document.factions_data[k]).id
                == id;
        assert(world.factions[k].faction.id == id);
    }
    assert forall|i: int| 0 <= i < world.settlements.len() implies world.has_faction(
        (#[trigger] world.settlements[i]).settlement.owner_faction_id,
    ) by {
        assert(faction_known(
            document.factions_data,
            document.settlements_data[i].owner_faction,
        ));
    }
    assert forall|p: int, i: int|
        0 <= p < world.players.len() && 0 <= i
            < world.players[p].reputation.faction_relations.len() implies world.has_faction(
        (#[trigger] world.players[p].reputation.faction_relations[i]).0,
    ) by {
        assert(faction_known(document.factions_data, document.player_data.reputation[i].0));
    }
}

/// A load that fails, for whatever reason, leaves the world as it was.
pub proof fn lemma_failed_load_changes_nothing(
    before: EntityStoreView,
    directory: Seq<char>,
    files: Seq<StoredFileView>,
    name: Seq<char>,
)
    requires
        load_outcome(directory, files, name) is Err,
    ensures
        after_load(before, directory, files, name) == before,
{
}

} // verus!
