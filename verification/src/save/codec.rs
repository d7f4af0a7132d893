//! From a live world to a document and from text back to a document.
//!
//! Encoding reads the store and never changes it. Decoding either gives a
//! whole document or an error; there is nothing in between.

use crate::components::{
    Faction, FactionView, Reputation, ReputationView, Settlement, SettlementView, WorldPosition,
    WorldPositionView,
};
use crate::duplicate::Duplicate;
use crate::form::{field, read_field, Saved};
use crate::json::{parsed_json, rendered_json, Json, JsonView};
use crate::save::document::{
    FactionData, FactionDataView, GameSave, GameSaveView, PlayerData, PlayerDataView,
    SettlementData, SettlementDataView,
};
use crate::save::error::{DecodeError, SaveError};
use crate::save::store::{
    EntityStore, EntityStoreView, FactionEntity, FactionEntityView, PlayerEntity,
    PlayerEntityView, SettlementEntity, SettlementEntityView,
};
use crate::save::version::{decimal_value, first_dot, parse_version, version_of, Version};
use vstd::prelude::*;

verus! {

/// The version tag that this library writes.
pub open spec fn current_version() -> Seq<char> {
    "1.0"@
}

impl PlayerDataView {
    /// What is kept of a player entity.
    pub open spec fn of_entity(entity: PlayerEntityView) -> PlayerDataView {
        PlayerDataView {
            name: entity.name,
            position: entity.position,
            stats: entity.stats,
            health: entity.health,
            stamina: entity.stamina,
            reputation: entity.reputation.faction_relations,
            inventory: entity.inventory,
        }
    }

    /// The player entity that this record describes.
    pub open spec fn entity(self) -> PlayerEntityView {
        PlayerEntityView {
            name: self.name,
            position: self.position,
            stats: self.stats,
            health: self.health,
            stamina: self.stamina,
            reputation: ReputationView { faction_relations: self.reputation },
            inventory: self.inventory,
        }
    }
}

impl SettlementDataView {
    /// What is kept of a settlement entity.
    pub open spec fn of_entity(entity: SettlementEntityView) -> SettlementDataView {
        SettlementDataView {
            name: entity.settlement.name,
            position: (entity.position.x, entity.position.y),
            owner_faction: entity.settlement.owner_faction_id,
            prosperity: entity.settlement.prosperity,
            garrison: entity.settlement.garrison_size,
        }
    }

    /// The settlement entity that this record describes.
    pub open spec fn entity(self) -> SettlementEntityView {
        SettlementEntityView {
            settlement: SettlementView {
                name: self.name,
                prosperity: self.prosperity,
                garrison_size: self.garrison,
                owner_faction_id: self.owner_faction,
            },
            position: WorldPositionView { x: self.position.0, y: self.position.1 },
        }
    }
}

impl FactionDataView {
    /// What is kept of a faction entity.
    pub open spec fn of_entity(entity: FactionEntityView) -> FactionDataView {
        FactionDataView {
            id: entity.faction.id,
            name: entity.faction.name,
            relations: entity.relations,
        }
    }

    /// The faction entity that this record describes.
    pub open spec fn entity(self) -> FactionEntityView {
        FactionEntityView {
            faction: FactionView { id: self.id, name: self.name },
            relations: self.relations,
        }
    }
}

impl PlayerData {
    /// Records a player entity.
    pub fn from_entity(entity: &PlayerEntity) -> (r: PlayerData)
        ensures
            r.deep_view() == PlayerDataView::of_entity(entity.deep_view()),
    {
        PlayerData {
            name: entity.name.duplicate(),
            position: entity.position.duplicate(),
            stats: entity.stats,
            health: entity.health.duplicate(),
            stamina: entity.stamina.duplicate(),
            reputation: entity.reputation.faction_relations.duplicate(),
            inventory: entity.inventory.duplicate(),
        }
    }

    /// The entity that the record describes.
    pub fn to_entity(&self) -> (r: PlayerEntity)
        ensures
            r.deep_view() == self.deep_view().entity(),
    {
        PlayerEntity {
            name: self.name.duplicate(),
            position: self.position.duplicate(),
            stats: self.stats,
            health: self.health.duplicate(),
            stamina: self.stamina.duplicate(),
            reputation: Reputation { faction_relations: self.reputation.duplicate() },
            inventory: self.inventory.duplicate(),
        }
    }
}

impl SettlementData {
    /// Records a settlement entity.
    pub fn from_entity(entity: &SettlementEntity) -> (r: SettlementData)
        ensures
            r.deep_view() == SettlementDataView::of_entity(entity.deep_view()),
    {
        SettlementData {
            name: entity.settlement.name.duplicate(),
            position: (entity.position.x.duplicate(), entity.position.y.duplicate()),
            owner_faction: entity.settlement.owner_faction_id.duplicate(),
            prosperity: entity.settlement.prosperity,
            garrison: entity.settlement.garrison_size,
        }
    }

    /// The entity that the record describes.
    pub fn to_entity(&self) -> (r: SettlementEntity)
        ensures
            r.deep_view() == self.deep_view().entity(),
    {
        SettlementEntity {
            settlement: Settlement {
                name: self.name.duplicate(),
                prosperity: self.prosperity,
                garrison_size: self.garrison,
                owner_faction_id: self.owner_faction.duplicate(),
            },
            position: WorldPosition {
                x: self.position.0.duplicate(),
                y: self.position.1.duplicate(),
            },
        }
    }
}

impl FactionData {
    /// Records a faction entity.
    pub fn from_entity(entity: &FactionEntity) -> (r: FactionData)
        ensures
            r.deep_view() == FactionDataView::of_entity(entity.deep_view()),
    {
        FactionData {
            id: entity.faction.id.duplicate(),
            name: entity.faction.name.duplicate(),
            relations: entity.relations.duplicate(),
        }
    }

    /// The entity that the record describes.
    pub fn to_entity(&self) -> (r: FactionEntity)
        ensures
            r.deep_view() == self.deep_view().entity(),
    {
        FactionEntity {
            faction: Faction { id: self.id.duplicate(), name: self.name.duplicate() },
            relations: self.relations.duplicate(),
        }
    }
}

/// The records of the store's settlements, in the store's order.
pub open spec fn settlement_records(entities: Seq<SettlementEntityView>) -> Seq<
    SettlementDataView,
> {
    Seq::new(entities.len(), |i: int| SettlementDataView::of_entity(entities[i]))
}

/// The records of the store's factions, in the store's order.
pub open spec fn faction_records(entities: Seq<FactionEntityView>) -> Seq<FactionDataView> {
    Seq::new(entities.len(), |i: int| FactionDataView::of_entity(entities[i]))
}

/// The document that describes a world with one player, stamped with
/// `save_date`.
pub open spec fn snapshot(store: EntityStoreView, save_date: Seq<char>) -> GameSaveView
    recommends
        store.players.len() == 1,
{
    GameSaveView {
        version: current_version(),
        save_date,
        world_data: store.world,
        player_data: PlayerDataView::of_entity(store.players[0]),
        factions_data: faction_records(store.factions),
        settlements_data: settlement_records(store.settlements),
    }
}

/// What encoding a world gives: its snapshot where it holds exactly one
/// player, and no document otherwise.
pub open spec fn encoded(store: EntityStoreView, save_date: Seq<char>) -> Result<
    GameSaveView,
    SaveError,
> {
    if store.players.len() == 1 {
        Ok(snapshot(store, save_date))
    } else {
        Err(SaveError::MissingPlayer)
    }
}

fn record_settlements(entities: &Vec<SettlementEntity>) -> (r: Vec<SettlementData>)
    ensures
        r.deep_view() == settlement_records(entities.deep_view()),
{
    let mut records: Vec<SettlementData> = Vec::new();
    let mut i: usize = 0;
    while i < entities.len()
        invariant
            i <= entities.len(),
            records.len() == i,
            forall|k: int|
                0 <= k < i ==> #[trigger] records[k].deep_view() == SettlementDataView::of_entity(
                    entities[k].deep_view(),
                ),
        decreases entities.len() - i,
    {
        records.push(SettlementData::from_entity(&entities[i]));
        i += 1;
    }
    assert(records.deep_view() =~= settlement_records(entities.deep_view()));
    records
}

fn record_factions(entities: &Vec<FactionEntity>) -> (r: Vec<FactionData>)
    ensures
        r.deep_view() == faction_records(entities.deep_view()),
{
    let mut records: Vec<FactionData> = Vec::new();
    let mut i: usize = 0;
    while i < entities.len()
        invariant
            i <= entities.len(),
            records.len() == i,
            forall|k: int|
                0 <= k < i ==> #[trigger] records[k].deep_view() == FactionDataView::of_entity(
                    entities[k].deep_view(),
                ),
        decreases entities.len() - i,
    {
        records.push(FactionData::from_entity(&entities[i]));
        i += 1;
    }
    assert(records.deep_view() =~= faction_records(entities.deep_view()));
    records
}

/// Builds the document that describes the world, stamped with `save_date`.
/// A world without a player, or with more than one, has no document.
pub fn encode(store: &EntityStore, save_date: &str) -> (r: Result<GameSave, SaveError>)
    ensures
        match r {
            Ok(document) => encoded(store.deep_view(), save_date@) == Ok::<
                GameSaveView,
                SaveError,
            >(document.deep_view()),
            Err(error) => encoded(store.deep_view(), save_date@) == Err::<GameSaveView, SaveError>(
                error,
            ),
        },
{
    let player = match store.single_player() {
        Some(player) => player,
        None => {
            return Err(SaveError::MissingPlayer);
        },
    };
    Ok(
        GameSave {
            version: String::from_str("1.0"),
            save_date: String::from_str(save_date),
            world_data: store.world.duplicate(),
            player_data: PlayerData::from_entity(player),
            factions_data: record_factions(&store.factions),
            settlements_data: record_settlements(&store.settlements),
        },
    )
}

/// Whether some faction of `factions` has the id `id`.
pub open spec fn faction_known(factions: Seq<FactionDataView>, id: Seq<char>) -> bool {
    exists|i: int| 0 <= i < factions.len() && (#[trigger] factions[i]).id == id
}

/// Whether every faction that a settlement or an entry of the player's
/// reputation names is one of the document's factions.
pub open spec fn references_resolve(document: GameSaveView) -> bool {
    &&& forall|i: int|
        0 <= i < document.settlements_data.len() ==> faction_known(
            document.factions_data,
            (#[trigger] document.settlements_data[i]).owner_faction,
        )
    &&& forall|i: int|
        0 <= i < document.player_data.reputation.len() ==> faction_known(
            document.factions_data,
            (#[trigger] document.player_data.reputation[i]).0,
        )
}

/// What a tree decodes to. The version is judged first: a tag that is not a
/// version makes the document malformed, a later version than this
/// library's makes it unsupported. A document of this or an earlier version
/// must then be complete and name only factions it holds; it is returned
/// tagged with the current version.
pub open spec fn decoded_tree(tree: JsonView) -> Result<GameSaveView, DecodeError> {
    let tag = field::<String>(tree, "version"@);
    if tag is None || version_of(tag->0) is None {
        Err(DecodeError::Malformed)
    } else if version_of(tag->0)->0.is_newer() {
        Err(DecodeError::UnsupportedVersion)
    } else if GameSave::read(tree) is None || !references_resolve(GameSave::read(tree)->0) {
        Err(DecodeError::Malformed)
    } else {
        Ok(GameSaveView { version: current_version(), ..GameSave::read(tree)->0 })
    }
}

/// What a text decodes to: malformed where it is no document tree at all,
/// else what its tree decodes to.
pub open spec fn decoded(text: Seq<char>) -> Result<GameSaveView, DecodeError> {
    match parsed_json(text) {
        None => Err(DecodeError::Malformed),
        Some(tree) => decoded_tree(tree),
    }
}

fn is_known_faction(factions: &Vec<FactionData>, id: &String) -> (r: bool)
    ensures
        r == faction_known(factions.deep_view(), id@),
{
    let mut i: usize = 0;
    while i < factions.len()
        invariant
            i <= factions.len(),
            forall|k: int| 0 <= k < i ==> (#[trigger] factions.deep_view()[k]).id != id@,
        decreases factions.len() - i,
    {
        if factions[i].id == *id {
            assert(factions.deep_view()[i as int].id == id@);
            return true;
        }
        i += 1;
    }
    false
}

/// Whether the document names only factions that it holds.
pub fn check_references(document: &GameSave) -> (r: bool)
    ensures
        r == references_resolve(document.deep_view()),
{
    let ghost view = document.deep_view();
    let mut i: usize = 0;
    while i < document.settlements_data.len()
        invariant
            i <= document.settlements_data.len(),
            view == document.deep_view(),
            forall|k: int|
                0 <= k < i ==> faction_known(
                    view.factions_data,
                    (#[trigger] view.settlements_data[k]).owner_faction,
                ),
        decreases document.settlements_data.len() - i,
    {
        if !is_known_faction(&document.factions_data, &document.settlements_data[i].owner_faction) {
            assert(view.settlements_data[i as int].owner_faction
                == document.settlements_data[i as int].owner_faction@);
            return false;
        }
        assert(view.settlements_data[i as int].owner_faction
            == document.settlements_data[i as int].owner_faction@);
        i += 1;
    }
    let mut j: usize = 0;
    while j < document.player_data.reputation.len()
        invariant
            j <= document.player_data.reputation.len(),
            view == document.deep_view(),
            forall|k: int|
                0 <= k < view.settlements_data.len() ==> faction_known(
                    view.factions_data,
                    (#[trigger] view.settlements_data[k]).owner_faction,
                ),
            forall|k: int|
                0 <= k < j ==> faction_known(
                    view.factions_data,
                    (#[trigger] view.player_data.reputation[k]).0,
                ),
        decreases document.player_data.reputation.len() - j,
    {
        if !is_known_faction(&document.factions_data, &document.player_data.reputation[j].0) {
            assert(view.player_data.reputation[j as int].0
                == document.player_data.reputation[j as int].0@);
            return false;
        }
        assert(view.player_data.reputation[j as int].0
            == document.player_data.reputation[j as int].0@);
        j += 1;
    }
    true
}

/// Reads a document from its tree.
pub fn decode_tree(tree: &Json) -> (r: Result<GameSave, DecodeError>)
    ensures
        match r {
            Ok(document) => decoded_tree(tree.deep_view()) == Ok::<GameSaveView, DecodeError>(
                document.deep_view(),
            ),
            Err(error) => decoded_tree(tree.deep_view()) == Err::<GameSaveView, DecodeError>(
                error,
            ),
        },
{
    let version = match read_field::<String>(tree, "version") {
        Some(tag) => match parse_version(tag.as_str()) {
            Some(version) => version,
            None => {
                return Err(DecodeError::Malformed);
            },
        },
        None => {
            return Err(DecodeError::Malformed);
        },
    };
    if version.newer_than_current() {
        return Err(DecodeError::UnsupportedVersion);
    }
    match GameSave::from_json(tree) {
        Some(document) => {
            if !check_references(&document) {
                return Err(DecodeError::Malformed);
            }
            let mut document = document;
            document.version = String::from_str("1.0");
            Ok(document)
        },
        None => Err(DecodeError::Malformed),
    }
}

/// Reads a document from text. Fails as malformed where the text is no
/// document or not a complete save, and as unsupported where its version is
/// later than this library's.
pub fn decode(text: &str) -> (r: Result<GameSave, DecodeError>)
    ensures
        match r {
            Ok(document) => decoded(text@) == Ok::<GameSaveView, DecodeError>(
                document.deep_view(),
            ),
            Err(error) => decoded(text@) == Err::<GameSaveView, DecodeError>(error),
        },
{
    match Json::parse(text) {
        Some(tree) => decode_tree(&tree),
        None => Err(DecodeError::Malformed),
    }
}

/// Writes a document as text.
pub fn encode_text(document: &GameSave) -> (r: String)
    ensures
        r@ == rendered_json(GameSave::form(document.deep_view())),
{
    document.to_json().render()
}

/// The tag that this library writes spells version 1.0, which is not later
/// than itself.
pub proof fn lemma_current_version()
    ensures
        version_of(current_version()) == Some(Version { major: 1, minor: 0 }),
        !(Version { major: 1, minor: 0 }).is_newer(),
{
    reveal_strlit("1.0");
    let tag = "1.0"@;
    reveal_with_fuel(first_dot, 3);
    assert(tag[0] == '1' && tag[1] == '.' && tag[2] == '0');
    assert(tag.drop_first()[0] == '.');
    assert(first_dot(tag) == 1);
    let major = tag.subrange(0, 1);
    let minor = tag.subrange(2, 3);
    assert(major[0] == '1' && minor[0] == '0');
    reveal_with_fuel(decimal_value, 3);
    assert(major.drop_last() =~= Seq::empty());
    assert(minor.drop_last() =~= Seq::empty());
    assert(decimal_value(major) == 1);
    assert(decimal_value(minor) == 0);
}

/// Whatever decodes, decodes to a document of the current version that
/// names only factions it holds.
pub proof fn lemma_decoded_is_consistent(tree: JsonView)
    requires
        decoded_tree(tree) is Ok,
    ensures
        decoded_tree(tree)->Ok_0.version == current_version(),
        references_resolve(decoded_tree(tree)->Ok_0),
{
    let read = GameSave::read(tree)->0;
    let document = decoded_tree(tree)->Ok_0;
    assert(document.factions_data == read.factions_data);
    assert(document.settlements_data == read.settlements_data);
    assert(document.player_data == read.player_data);
}

/// Decoding the tree of a document gives the document again, provided the
/// document carries the current version and names only factions it holds:
/// same fields, same version, lists in the same order.
pub proof fn lemma_decode_written(document: GameSaveView)
    requires
        document.version == current_version(),
        references_resolve(document),
    ensures
        decoded_tree(GameSave::form(document)) == Ok::<GameSaveView, DecodeError>(document),
{
    lemma_current_version();
    GameSave::lemma_read_form(document);
}

/// The snapshot of a world that names only factions it holds is a
/// document that names only factions it holds.
pub proof fn lemma_snapshot_is_consistent(store: EntityStoreView, save_date: Seq<char>)
    requires
        store.players.len() == 1,
        store.references_resolve(),
    ensures
        references_resolve(snapshot(store, save_date)),
{
    let document = snapshot(store, save_date);
    assert forall|id: Seq<char>| store.has_faction(id) implies faction_known(
        document.factions_data,
        id,
    ) by {
        let k = choose|k: int|
            0 <= k < store.factions.len() && (#[trigger] store.factions[k]).faction.id == id;
        assert(document.factions_data[k].id == id);
    }
    assert forall|i: int| 0 <= i < document.settlements_data.len() implies faction_known(
        document.factions_data,
        (#[trigger] document.settlements_data[i]).owner_faction,
    ) by {
        assert(store.has_faction(store.settlements[i].settlement.owner_faction_id));
    }
    assert forall|i: int| 0 <= i < document.player_data.reputation.len() implies faction_known(
        document.factions_data,
        (#[trigger] document.player_data.reputation[i]).0,
    ) by {
        assert(store.has_faction(store.players[0].reputation.faction_relations[i].0));
    }
}

/// Decoding what encoding wrote gives the same document: for every world
/// with one player whose settlements and reputation name only factions
/// that the world holds, and every date.
pub proof fn lemma_decode_encode(store: EntityStoreView, save_date: Seq<char>)
    requires
        store.players.len() == 1,
        store.references_resolve(),
    ensures
        encoded(store, save_date) == Ok::<GameSaveView, SaveError>(snapshot(store, save_date)),
        decoded_tree(GameSave::form(snapshot(store, save_date))) == Ok::<
            GameSaveView,
            DecodeError,
        >(snapshot(store, save_date)),
{
    lemma_snapshot_is_consistent(store, save_date);
    lemma_decode_written(snapshot(store, save_date));
}

/// The same through text: where the text that was written reads as the tree
/// it was written from, decoding the text gives the document.
pub proof fn lemma_decode_written_text(document: GameSaveView, text: Seq<char>)
    requires
        document.version == current_version(),
        references_resolve(document),
        parsed_json(text) == Some(GameSave::form(document)),
    ensures
        decoded(text) == Ok::<GameSaveView, DecodeError>(document),
{
    lemma_decode_written(document);
}

} // verus!
