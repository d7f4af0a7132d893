//! The live world as far as saving is concerned.
//!
//! Entities are kept in one table for each kind; the world's clock is a
//! single record. Asking for the entities of a kind is reading its table.

use crate::components::{
    CharacterStats, CombatAI, CombatAIView, Faction, FactionView, Health, HealthView, Reputation,
    ReputationView, Settlement, SettlementView, Stamina, StaminaView, WorldPosition,
    WorldPositionView,
};
use crate::duplicate::Duplicate;
use crate::json::{Number, NumberView};
use crate::save::document::{ItemData, ItemDataView, WorldData, WorldDataView};
use vstd::prelude::*;

verus! {

/// The entity that the player controls, with what is attached to it.
#[derive(Debug, PartialEq, Eq)]
pub struct PlayerEntity {
    pub name: String,
    /// East and north on the ground.
    pub position: (Number, Number),
    pub stats: CharacterStats,
    pub health: Health,
    pub stamina: Stamina,
    pub reputation: Reputation,
    pub inventory: Vec<ItemData>,
}

/// `PlayerEntity` as contracts see it.
pub struct PlayerEntityView {
    pub name: Seq<char>,
    pub position: (NumberView, NumberView),
    pub stats: CharacterStats,
    pub health: HealthView,
    pub stamina: StaminaView,
    pub reputation: ReputationView,
    pub inventory: Seq<ItemDataView>,
}

impl DeepView for PlayerEntity {
    type V = PlayerEntityView;

    open spec fn deep_view(&self) -> PlayerEntityView {
        PlayerEntityView {
            name: self.name@,
            position: self.position.deep_view(),
            stats: self.stats.deep_view(),
            health: self.health.deep_view(),
            stamina: self.stamina.deep_view(),
            reputation: self.reputation.deep_view(),
            inventory: self.inventory.deep_view(),
        }
    }
}

impl Duplicate for PlayerEntity {
    fn duplicate(&self) -> (r: PlayerEntity) {
        PlayerEntity {
            name: self.name.duplicate(),
            position: self.position.duplicate(),
            stats: self.stats.duplicate(),
            health: self.health.duplicate(),
            stamina: self.stamina.duplicate(),
            reputation: self.reputation.duplicate(),
            inventory: self.inventory.duplicate(),
        }
    }
}

/// A settlement on the map.
#[derive(Debug, PartialEq, Eq)]
pub struct SettlementEntity {
    pub settlement: Settlement,
    pub position: WorldPosition,
}

/// `SettlementEntity` as contracts see it.
pub struct SettlementEntityView {
    pub settlement: SettlementView,
    pub position: WorldPositionView,
}

impl DeepView for SettlementEntity {
    type V = SettlementEntityView;

    open spec fn deep_view(&self) -> SettlementEntityView {
        SettlementEntityView {
            settlement: self.settlement.deep_view(),
            position: self.position.deep_view(),
        }
    }
}

impl Duplicate for SettlementEntity {
    fn duplicate(&self) -> (r: SettlementEntity) {
        SettlementEntity {
            settlement: self.settlement.duplicate(),
            position: self.position.duplicate(),
        }
    }
}

/// A faction and its standing with the others.
#[derive(Debug, PartialEq, Eq)]
pub struct FactionEntity {
    pub faction: Faction,
    /// Pairs of another faction's id and the standing with it.
    pub relations: Vec<(String, i32)>,
}

/// `FactionEntity` as contracts see it.
pub struct FactionEntityView {
    pub faction: FactionView,
    pub relations: Seq<(Seq<char>, i32)>,
}

impl DeepView for FactionEntity {
    type V = FactionEntityView;

    open spec fn deep_view(&self) -> FactionEntityView {
        FactionEntityView {
            faction: self.faction.deep_view(),
            relations: self.relations.deep_view(),
        }
    }
}

impl Duplicate for FactionEntity {
    fn duplicate(&self) -> (r: FactionEntity) {
        FactionEntity {
            faction: self.faction.duplicate(),
            relations: self.relations.duplicate(),
        }
    }
}

/// The tables of live entities and the world's clock.
#[derive(Debug, PartialEq, Eq)]
pub struct EntityStore {
    /// Entities marked as the player. A world in play has exactly one.
    pub players: Vec<PlayerEntity>,
    pub settlements: Vec<SettlementEntity>,
    pub factions: Vec<FactionEntity>,
    /// Fighters that belong to the battle in progress.
    pub combat_units: Vec<CombatAI>,
    pub world: WorldData,
}

/// `EntityStore` as contracts see it.
pub struct EntityStoreView {
    pub players: Seq<PlayerEntityView>,
    pub settlements: Seq<SettlementEntityView>,
    pub factions: Seq<FactionEntityView>,
    pub combat_units: Seq<CombatAIView>,
    pub world: WorldDataView,
}

impl DeepView for EntityStore {
    type V = EntityStoreView;

    open spec fn deep_view(&self) -> EntityStoreView {
        EntityStoreView {
            players: self.players.deep_view(),
            settlements: self.settlements.deep_view(),
            factions: self.factions.deep_view(),
            combat_units: self.combat_units.deep_view(),
            world: self.world.deep_view(),
        }
    }
}

impl Duplicate for EntityStore {
    fn duplicate(&self) -> (r: EntityStore) {
        EntityStore {
            players: self.players.duplicate(),
            settlements: self.settlements.duplicate(),
            factions: self.factions.duplicate(),
            combat_units: self.combat_units.duplicate(),
            world: self.world.duplicate(),
        }
    }
}

impl EntityStoreView {
    /// Whether the world holds a faction with the id `id`.
    pub open spec fn has_faction(self, id: Seq<char>) -> bool {
        exists|k: int|
            0 <= k < self.factions.len() && (#[trigger] self.factions[k]).faction.id == id
    }

    /// Whether every faction that a settlement or a player's reputation
    /// names is one of the world's factions.
    pub open spec fn references_resolve(self) -> bool {
        &&& forall|i: int|
            0 <= i < self.settlements.len() ==> self.has_faction(
                (#[trigger] self.settlements[i]).settlement.owner_faction_id,
            )
        &&& forall|p: int, i: int|
            0 <= p < self.players.len() && 0 <= i
                < self.players[p].reputation.faction_relations.len() ==> self.has_faction(
                (#[trigger] self.players[p].reputation.faction_relations[i]).0,
            )
    }
}

impl EntityStore {
    /// A world with nothing in it, at the given time.
    pub fn new(world: WorldData) -> (r: EntityStore)
        ensures
            r.deep_view() == (EntityStoreView {
                players: Seq::empty(),
                settlements: Seq::empty(),
                factions: Seq::empty(),
                combat_units: Seq::empty(),
                world: world.deep_view(),
            }),
    {
        let store = EntityStore {
            players: Vec::new(),
            settlements: Vec::new(),
            factions: Vec::new(),
            combat_units: Vec::new(),
            world,
        };
        assert(store.deep_view().players =~= Seq::empty());
        assert(store.deep_view().settlements =~= Seq::empty());
        assert(store.deep_view().factions =~= Seq::empty());
        assert(store.deep_view().combat_units =~= Seq::empty());
        store
    }

    /// The player, where the world holds exactly one.
    pub fn single_player(&self) -> (r: Option<&PlayerEntity>)
        ensures
            r is Some <==> self.players.len() == 1,
            r is Some ==> *r->0 == self.players[0],
    {
        if self.players.len() == 1 {
            Some(&self.players[0])
        } else {
            None
        }
    }
}

/// Takes the fighters of a finished battle out of the world. Everything
/// else stays.
pub fn cleanup_combat_scene(store: &mut EntityStore)
    ensures
        final(store).deep_view() == (EntityStoreView {
            combat_units: Seq::empty(),
            ..old(store).deep_view()
        }),
{
    store.combat_units = Vec::new();
    assert(store.deep_view().combat_units =~= Seq::empty());
}

} // verus!
