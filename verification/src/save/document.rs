//! What a saved game holds.
//!
//! A save is a versioned document with four sections: the world's clock, the
//! player, the factions and the settlements. Each part is saved as an object
//! whose members carry the names of its fields.

use crate::components::{CharacterStats, Health, HealthView, Stamina, StaminaView};
use crate::duplicate::Duplicate;
use crate::form::{field, read_field, Saved};
use crate::json::{
    lemma_find_member_push, members_view, with_member, Json, JsonView, Number, NumberView,
};
use vstd::prelude::*;

verus! {

/// Something carried.
#[derive(Debug, PartialEq, Eq)]
pub struct ItemData {
    pub name: String,
    pub item_type: String,
    pub value: u32,
    /// Named properties, such as damage or weight.
    pub stats: Vec<(String, Number)>,
}

/// `ItemData` as contracts see it.
pub struct ItemDataView {
    pub name: Seq<char>,
    pub item_type: Seq<char>,
    pub value: u32,
    pub stats: Seq<(Seq<char>, NumberView)>,
}

impl DeepView for ItemData {
    type V = ItemDataView;

    open spec fn deep_view(&self) -> ItemDataView {
        ItemDataView {
            name: self.name@,
            item_type: self.item_type@,
            value: self.value,
            stats: self.stats.deep_view(),
        }
    }
}

impl Duplicate for ItemData {
    fn duplicate(&self) -> (r: ItemData) {
        ItemData {
            name: self.name.duplicate(),
            item_type: self.item_type.duplicate(),
            value: self.value,
            stats: self.stats.duplicate(),
        }
    }
}

/// An item is saved as an object with `name`, `item_type`, `value` and
/// `stats`, the last an array of pairs.
impl Saved for ItemData {
    open spec fn form(value: ItemDataView) -> JsonView {
        JsonView::Object(
            Seq::empty()
                .push(("name"@, String::form(value.name)))
                .push(("item_type"@, String::form(value.item_type)))
                .push(("value"@, u32::form(value.value)))
                .push(("stats"@, <Vec<(String, Number)>>::form(value.stats))),
        )
    }

    open spec fn read(tree: JsonView) -> Option<ItemDataView> {
        let name = field::<String>(tree, "name"@);
        let item_type = field::<String>(tree, "item_type"@);
        let value = field::<u32>(tree, "value"@);
        let stats = field::<Vec<(String, Number)>>(tree, "stats"@);
        if name is Some && item_type is Some && value is Some && stats is Some {
            Some(ItemDataView {
                name: name->0,
                item_type: item_type->0,
                value: value->0,
                stats: stats->0,
            })
        } else {
            None
        }
    }

    proof fn lemma_read_form(value: ItemDataView) {
        broadcast use lemma_find_member_push;

        reveal_strlit("name");
        reveal_strlit("item_type");
        reveal_strlit("value");
        reveal_strlit("stats");
        assert("name"@.len() == 4 && "item_type"@.len() == 9 && "value"@.len() == 5);
        assert("stats"@.len() == 5);
        assert("value"@[0] != "stats"@[0]);
        <Vec<(String, Number)>>::lemma_read_form(value.stats);
    }

    fn to_json(&self) -> (r: Json) {
        let members = Vec::new();
        assert(members_view(members) =~= Seq::empty());
        let members = with_member(members, "name", self.name.to_json());
        let members = with_member(members, "item_type", self.item_type.to_json());
        let members = with_member(members, "value", self.value.to_json());
        let members = with_member(members, "stats", self.stats.to_json());
        Json::object(members)
    }

    fn from_json(tree: &Json) -> (r: Option<ItemData>) {
        let name = read_field::<String>(tree, "name");
        let item_type = read_field::<String>(tree, "item_type");
        let value = read_field::<u32>(tree, "value");
        let stats = read_field::<Vec<(String, Number)>>(tree, "stats");
        match (name, item_type, value, stats) {
            (
                Some(name),
                Some(item_type),
                Some(value),
                Some(stats),
            ) => Some(ItemData { name, item_type, value, stats }),
            _ => None,
        }
    }
}

/// A faction and how it regards the others.
#[derive(Debug, PartialEq, Eq)]
pub struct FactionData {
    pub id: String,
    pub name: String,
    /// Pairs of another faction's id and the standing with it.
    pub relations: Vec<(String, i32)>,
}

/// `FactionData` as contracts see it.
pub struct FactionDataView {
    pub id: Seq<char>,
    pub name: Seq<char>,
    pub relations: Seq<(Seq<char>, i32)>,
}

impl DeepView for FactionData {
    type V = FactionDataView;

    open spec fn deep_view(&self) -> FactionDataView {
        FactionDataView {
            id: self.id@,
            name: self.name@,
            relations: self.relations.deep_view(),
        }
    }
}

impl Duplicate for FactionData {
    fn duplicate(&self) -> (r: FactionData) {
        FactionData {
            id: self.id.duplicate(),
            name: self.name.duplicate(),
            relations: self.relations.duplicate(),
        }
    }
}

/// A faction is saved as an object with `id`, `name` and `relations`.
impl Saved for FactionData {
    open spec fn form(value: FactionDataView) -> JsonView {
        JsonView::Object(
            Seq::empty()
                .push(("id"@, String::form(value.id)))
                .push(("name"@, String::form(value.name)))
                .push(("relations"@, <Vec<(String, i32)>>::form(value.relations))),
        )
    }

    open spec fn read(tree: JsonView) -> Option<FactionDataView> {
        let id = field::<String>(tree, "id"@);
        let name = field::<String>(tree, "name"@);
        let relations = field::<Vec<(String, i32)>>(tree, "relations"@);
        if id is Some && name is Some && relations is Some {
            Some(FactionDataView {
                id: id->0,
                name: name->0,
                relations: relations->0,
            })
        } else {
            None
        }
    }

    proof fn lemma_read_form(value: FactionDataView) {
        broadcast use lemma_find_member_push;

        reveal_strlit("id");
        reveal_strlit("name");
        reveal_strlit("relations");
        assert("id"@.len() == 2 && "name"@.len() == 4 && "relations"@.len() == 9);
        <Vec<(String, i32)>>::lemma_read_form(value.relations);
    }

    fn to_json(&self) -> (r: Json) {
        let members = Vec::new();
        assert(members_view(members) =~= Seq::empty());
        let members = with_member(members, "id", self.id.to_json());
        let members = with_member(members, "name", self.name.to_json());
        let members = with_member(members, "relations", self.relations.to_json());
        Json::object(members)
    }

    fn from_json(tree: &Json) -> (r: Option<FactionData>) {
        let id = read_field::<String>(tree, "id");
        let name = read_field::<String>(tree, "name");
        let relations = read_field::<Vec<(String, i32)>>(tree, "relations");
        match (id, name, relations) {
            (Some(id), Some(name), Some(relations)) => Some(FactionData { id, name, relations }),
            _ => None,
        }
    }
}

/// A town or castle, where it lies and who holds it.
#[derive(Debug, PartialEq, Eq)]
pub struct SettlementData {
    pub name: String,
    pub position: (Number, Number),
    /// The id of the faction that holds the place.
    pub owner_faction: String,
    pub prosperity: u32,
    pub garrison: u32,
}

/// `SettlementData` as contracts see it.
pub struct SettlementDataView {
    pub name: Seq<char>,
    pub position: (NumberView, NumberView),
    pub owner_faction: Seq<char>,
    pub prosperity: u32,
    pub garrison: u32,
}

impl DeepView for SettlementData {
    type V = SettlementDataView;

    open spec fn deep_view(&self) -> SettlementDataView {
        SettlementDataView {
            name: self.name@,
            position: self.position.deep_view(),
            owner_faction: self.owner_faction@,
            prosperity: self.prosperity,
            garrison: self.garrison,
        }
    }
}

impl Duplicate for SettlementData {
    fn duplicate(&self) -> (r: SettlementData) {
        SettlementData {
            name: self.name.duplicate(),
            position: self.position.duplicate(),
            owner_faction: self.owner_faction.duplicate(),
            prosperity: self.prosperity,
            garrison: self.garrison,
        }
    }
}

/// A settlement is saved as an object with `name`, `position`,
/// `owner_faction`, `prosperity` and `garrison`.
impl Saved for SettlementData {
    open spec fn form(value: SettlementDataView) -> JsonView {
        JsonView::Object(
            Seq::empty()
                .push(("name"@, String::form(value.name)))
                .push(("position"@, <(Number, Number)>::form(value.position)))
                .push(("owner_faction"@, String::form(value.owner_faction)))
                .push(("prosperity"@, u32::form(value.prosperity)))
                .push(("garrison"@, u32::form(value.garrison))),
        )
    }

    open spec fn read(tree: JsonView) -> Option<SettlementDataView> {
        let name = field::<String>(tree, "name"@);
        let position = field::<(Number, Number)>(tree, "position"@);
        let owner_faction = field::<String>(tree, "owner_faction"@);
        let prosperity = field::<u32>(tree, "prosperity"@);
        let garrison = field::<u32>(tree, "garrison"@);
        if name is Some && position is Some && owner_faction is Some && prosperity is Some
            && garrison is Some {
            Some(SettlementDataView {
                name: name->0,
                position: position->0,
                owner_faction: owner_faction->0,
                prosperity: prosperity->0,
                garrison: garrison->0,
            })
        } else {
            None
        }
    }

    proof fn lemma_read_form(value: SettlementDataView) {
        broadcast use lemma_find_member_push;

        reveal_strlit("name");
        reveal_strlit("position");
        reveal_strlit("owner_faction");
        reveal_strlit("prosperity");
        reveal_strlit("garrison");
        assert("name"@.len() == 4 && "position"@.len() == 8 && "owner_faction"@.len() == 13);
        assert("prosperity"@.len() == 10 && "garrison"@.len() == 8);
        assert("position"@[0] != "garrison"@[0]);
        <(Number, Number)>::lemma_read_form(value.position);
    }

    fn to_json(&self) -> (r: Json) {
        let members = Vec::new();
        assert(members_view(members) =~= Seq::empty());
        let members = with_member(members, "name", self.name.to_json());
        let members = with_member(members, "position", self.position.to_json());
        let members = with_member(members, "owner_faction", self.owner_faction.to_json());
        let members = with_member(members, "prosperity", self.prosperity.to_json());
        let members = with_member(members, "garrison", self.garrison.to_json());
        Json::object(members)
    }

    fn from_json(tree: &Json) -> (r: Option<SettlementData>) {
        let name = read_field::<String>(tree, "name");
        let position = read_field::<(Number, Number)>(tree, "position");
        let owner_faction = read_field::<String>(tree, "owner_faction");
        let prosperity = read_field::<u32>(tree, "prosperity");
        let garrison = read_field::<u32>(tree, "garrison");
        match (name, position, owner_faction, prosperity, garrison) {
            (
                Some(name),
                Some(position),
                Some(owner_faction),
                Some(prosperity),
                Some(garrison),
            ) => Some(SettlementData { name, position, owner_faction, prosperity, garrison }),
            _ => None,
        }
    }
}

/// The world's clock and the seed the world was grown from.
#[derive(Debug, PartialEq, Eq)]
pub struct WorldData {
    pub game_time: Number,
    pub day: u32,
    pub seed: u64,
}

/// `WorldData` as contracts see it.
pub struct WorldDataView {
    pub game_time: NumberView,
    pub day: u32,
    pub seed: u64,
}

impl DeepView for WorldData {
    type V = WorldDataView;

    open spec fn deep_view(&self) -> WorldDataView {
        WorldDataView {
            game_time: self.game_time.deep_view(),
            day: self.day,
            seed: self.seed,
        }
    }
}

impl Duplicate for WorldData {
    fn duplicate(&self) -> (r: WorldData) {
        WorldData {
            game_time: self.game_time.duplicate(),
            day: self.day,
            seed: self.seed,
        }
    }
}

/// The world is saved as an object with `game_time`, `day` and `seed`.
impl Saved for WorldData {
    open spec fn form(value: WorldDataView) -> JsonView {
        JsonView::Object(
            Seq::empty()
                .push(("game_time"@, Number::form(value.game_time)))
                .push(("day"@, u32::form(value.day)))
                .push(("seed"@, u64::form(value.seed))),
        )
    }

    open spec fn read(tree: JsonView) -> Option<WorldDataView> {
        let game_time = field::<Number>(tree, "game_time"@);
        let day = field::<u32>(tree, "day"@);
        let seed = field::<u64>(tree, "seed"@);
        if game_time is Some && day is Some && seed is Some {
            Some(WorldDataView {
                game_time: game_time->0,
                day: day->0,
                seed: seed->0,
            })
        } else {
            None
        }
    }

    proof fn lemma_read_form(value: WorldDataView) {
        broadcast use lemma_find_member_push;

        reveal_strlit("game_time");
        reveal_strlit("day");
        reveal_strlit("seed");
        assert("game_time"@.len() == 9 && "day"@.len() == 3 && "seed"@.len() == 4);
    }

    fn to_json(&self) -> (r: Json) {
        let members = Vec::new();
        assert(members_view(members) =~= Seq::empty());
        let members = with_member(members, "game_time", self.game_time.to_json());
        let members = with_member(members, "day", self.day.to_json());
        let members = with_member(members, "seed", self.seed.to_json());
        Json::object(members)
    }

    fn from_json(tree: &Json) -> (r: Option<WorldData>) {
        let game_time = read_field::<Number>(tree, "game_time");
        let day = read_field::<u32>(tree, "day");
        let seed = read_field::<u64>(tree, "seed");
        match (game_time, day, seed) {
            (Some(game_time), Some(day), Some(seed)) => Some(WorldData { game_time, day, seed }),
            _ => None,
        }
    }
}

/// Everything kept of the player.
#[derive(Debug, PartialEq, Eq)]
pub struct PlayerData {
    pub name: String,
    /// East and north on the ground: `x` and `z`.
    pub position: (Number, Number),
    pub stats: CharacterStats,
    pub health: Health,
    pub stamina: Stamina,
    /// Pairs of a faction's id and the player's standing with it.
    pub reputation: Vec<(String, i32)>,
    pub inventory: Vec<ItemData>,
}

/// `PlayerData` as contracts see it.
pub struct PlayerDataView {
    pub name: Seq<char>,
    pub position: (NumberView, NumberView),
    pub stats: CharacterStats,
    pub health: HealthView,
    pub stamina: StaminaView,
    pub reputation: Seq<(Seq<char>, i32)>,
    pub inventory: Seq<ItemDataView>,
}

impl DeepView for PlayerData {
    type V = PlayerDataView;

    open spec fn deep_view(&self) -> PlayerDataView {
        PlayerDataView {
            name: self.name@,
            position: self.position.deep_view(),
            stats: self.stats.deep_view(),
            health: self.health.deep_view(),
            stamina: self.stamina.deep_view(),
            reputation: self.reputation.deep_view(),
            inventory: self.inventory.deep_view(),
        }
    }
}

impl Duplicate for PlayerData {
    fn duplicate(&self) -> (r: PlayerData) {
        PlayerData {
            name: self.name.duplicate(),
            position: self.position.duplicate(),
            stats: self.stats.duplicate(),
            health: self.health.duplicate(),
            stamina: self.stamina.duplicate(),
            reputation: self.reputation.duplicate(),
            inventory: self.inventory.duplicate(),
        }
    }
}

/// The player is saved as an object with `name`, `position`, `stats`,
/// `health`, `stamina`, `reputation` and `inventory`.
impl Saved for PlayerData {
    open spec fn form(value: PlayerDataView) -> JsonView {
        JsonView::Object(
            Seq::empty()
                .push(("name"@, String::form(value.name)))
                .push(("position"@, <(Number, Number)>::form(value.position)))
                .push(("stats"@, CharacterStats::form(value.stats)))
                .push(("health"@, Health::form(value.health)))
                .push(("stamina"@, Stamina::form(value.stamina)))
                .push(("reputation"@, <Vec<(String, i32)>>::form(value.reputation)))
                .push(("inventory"@, <Vec<ItemData>>::form(value.inventory))),
        )
    }

    open spec fn read(tree: JsonView) -> Option<PlayerDataView> {
        let name = field::<String>(tree, "name"@);
        let position = field::<(Number, Number)>(tree, "position"@);
        let stats = field::<CharacterStats>(tree, "stats"@);
        let health = field::<Health>(tree, "health"@);
        let stamina = field::<Stamina>(tree, "stamina"@);
        let reputation = field::<Vec<(String, i32)>>(tree, "reputation"@);
        let inventory = field::<Vec<ItemData>>(tree, "inventory"@);
        if name is Some && position is Some && stats is Some && health is Some
            && stamina is Some && reputation is Some && inventory is Some {
            Some(PlayerDataView {
                name: name->0,
                position: position->0,
                stats: stats->0,
                health: health->0,
                stamina: stamina->0,
                reputation: reputation->0,
                inventory: inventory->0,
            })
        } else {
            None
        }
    }

    proof fn lemma_read_form(value: PlayerDataView) {
        broadcast use lemma_find_member_push;

        reveal_strlit("name");
        reveal_strlit("position");
        reveal_strlit("stats");
        reveal_strlit("health");
        reveal_strlit("stamina");
        reveal_strlit("reputation");
        reveal_strlit("inventory");
        assert("name"@.len() == 4 && "position"@.len() == 8 && "stats"@.len() == 5);
        assert("health"@.len() == 6 && "stamina"@.len() == 7 && "reputation"@.len() == 10);
        assert("inventory"@.len() == 9);
        <(Number, Number)>::lemma_read_form(value.position);
        CharacterStats::lemma_read_form(value.stats);
        Health::lemma_read_form(value.health);
        Stamina::lemma_read_form(value.stamina);
        <Vec<(String, i32)>>::lemma_read_form(value.reputation);
        <Vec<ItemData>>::lemma_read_form(value.inventory);
    }

    fn to_json(&self) -> (r: Json) {
        let members = Vec::new();
        assert(members_view(members) =~= Seq::empty());
        let members = with_member(members, "name", self.name.to_json());
        let members = with_member(members, "position", self.position.to_json());
        let members = with_member(members, "stats", self.stats.to_json());
        let members = with_member(members, "health", self.health.to_json());
        let members = with_member(members, "stamina", self.stamina.to_json());
        let members = with_member(members, "reputation", self.reputation.to_json());
        let members = with_member(members, "inventory", self.inventory.to_json());
        Json::object(members)
    }

    fn from_json(tree: &Json) -> (r: Option<PlayerData>) {
        let name = read_field::<String>(tree, "name");
        let position = read_field::<(Number, Number)>(tree, "position");
        let stats = read_field::<CharacterStats>(tree, "stats");
        let health = read_field::<Health>(tree, "health");
        let stamina = read_field::<Stamina>(tree, "stamina");
        let reputation = read_field::<Vec<(String, i32)>>(tree, "reputation");
        let inventory = read_field::<Vec<ItemData>>(tree, "inventory");
        match (name, position, stats, health, stamina, reputation, inventory) {
            (
                Some(name),
                Some(position),
                Some(stats),
                Some(health),
                Some(stamina),
                Some(reputation),
                Some(inventory),
            ) => Some(PlayerData { name, position, stats, health, stamina, reputation, inventory }),
            _ => None,
        }
    }
}

/// A saved game: the durable snapshot of a world.
#[derive(Debug, PartialEq, Eq)]
pub struct GameSave {
    /// Which shape of document this is.
    pub version: String,
    /// When the save was made, as text.
    pub save_date: String,
    pub world_data: WorldData,
    pub player_data: PlayerData,
    pub factions_data: Vec<FactionData>,
    pub settlements_data: Vec<SettlementData>,
}

/// `GameSave` as contracts see it.
pub struct GameSaveView {
    pub version: Seq<char>,
    pub save_date: Seq<char>,
    pub world_data: WorldDataView,
    pub player_data: PlayerDataView,
    pub factions_data: Seq<FactionDataView>,
    pub settlements_data: Seq<SettlementDataView>,
}

impl DeepView for GameSave {
    type V = GameSaveView;

    open spec fn deep_view(&self) -> GameSaveView {
        GameSaveView {
            version: self.version@,
            save_date: self.save_date@,
            world_data: self.world_data.deep_view(),
            player_data: self.player_data.deep_view(),
            factions_data: self.factions_data.deep_view(),
            settlements_data: self.settlements_data.deep_view(),
        }
    }
}

impl Duplicate for GameSave {
    fn duplicate(&self) -> (r: GameSave) {
        GameSave {
            version: self.version.duplicate(),
            save_date: self.save_date.duplicate(),
            world_data: self.world_data.duplicate(),
            player_data: self.player_data.duplicate(),
            factions_data: self.factions_data.duplicate(),
            settlements_data: self.settlements_data.duplicate(),
        }
    }
}

/// A save is written as an object with `version`, `save_date` and the four
/// sections `world_data`, `player_data`, `factions_data` and
/// `settlements_data`.
impl Saved for GameSave {
    open spec fn form(value: GameSaveView) -> JsonView {
        JsonView::Object(
            Seq::empty()
                .push(("version"@, String::form(value.version)))
                .push(("save_date"@, String::form(value.save_date)))
                .push(("world_data"@, WorldData::form(value.world_data)))
                .push(("player_data"@, PlayerData::form(value.player_data)))
                .push(("factions_data"@, <Vec<FactionData>>::form(value.factions_data)))
                .push(("settlements_data"@, <Vec<SettlementData>>::form(value.settlements_data))),
        )
    }

    open spec fn read(tree: JsonView) -> Option<GameSaveView> {
        let version = field::<String>(tree, "version"@);
        let save_date = field::<String>(tree, "save_date"@);
        let world_data = field::<WorldData>(tree, "world_data"@);
        let player_data = field::<PlayerData>(tree, "player_data"@);
        let factions_data = field::<Vec<FactionData>>(tree, "factions_data"@);
        let settlements_data = field::<Vec<SettlementData>>(tree, "settlements_data"@);
        if version is Some && save_date is Some && world_data is Some && player_data is Some
            && factions_data is Some && settlements_data is Some {
            Some(GameSaveView {
                version: version->0,
                save_date: save_date->0,
                world_data: world_data->0,
                player_data: player_data->0,
                factions_data: factions_data->0,
                settlements_data: settlements_data->0,
            })
        } else {
            None
        }
    }

    proof fn lemma_read_form(value: GameSaveView) {
        broadcast use lemma_find_member_push;

        reveal_strlit("version");
        reveal_strlit("save_date");
        reveal_strlit("world_data");
        reveal_strlit("player_data");
        reveal_strlit("factions_data");
        reveal_strlit("settlements_data");
        assert("version"@.len() == 7 && "save_date"@.len() == 9 && "world_data"@.len() == 10);
        assert("player_data"@.len() == 11 && "factions_data"@.len() == 13);
        assert("settlements_data"@.len() == 16);
        WorldData::lemma_read_form(value.world_data);
        PlayerData::lemma_read_form(value.player_data);
        <Vec<FactionData>>::lemma_read_form(value.factions_data);
        <Vec<SettlementData>>::lemma_read_form(value.settlements_data);
    }

    fn to_json(&self) -> (r: Json) {
        let members = Vec::new();
        assert(members_view(members) =~= Seq::empty());
        let members = with_member(members, "version", self.version.to_json());
        let members = with_member(members, "save_date", self.save_date.to_json());
        let members = with_member(members, "world_data", self.world_data.to_json());
        let members = with_member(members, "player_data", self.player_data.to_json());
        let members = with_member(members, "factions_data", self.factions_data.to_json());
        let members = with_member(members, "settlements_data", self.settlements_data.to_json());
        Json::object(members)
    }

    fn from_json(tree: &Json) -> (r: Option<GameSave>) {
        let version = read_field::<String>(tree, "version");
        let save_date = read_field::<String>(tree, "save_date");
        let world_data = read_field::<WorldData>(tree, "world_data");
        let player_data = read_field::<PlayerData>(tree, "player_data");
        let factions_data = read_field::<Vec<FactionData>>(tree, "factions_data");
        let settlements_data = read_field::<Vec<SettlementData>>(tree, "settlements_data");
        match (version, save_date, world_data, player_data, factions_data, settlements_data) {
            (
                Some(version),
                Some(save_date),
                Some(world_data),
                Some(player_data),
                Some(factions_data),
                Some(settlements_data),
            ) => Some(
                GameSave {
                    version,
                    save_date,
                    world_data,
                    player_data,
                    factions_data,
                    settlements_data,
                },
            ),
            _ => None,
        }
    }
}

} // verus!
