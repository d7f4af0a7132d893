//! The data attached to entities: vital statistics, factions, places.
//!
//! Quantities that are not whole numbers are held as `Number`s: the library
//! moves them between the world and its saved form and never does
//! arithmetic on them.

use crate::duplicate::Duplicate;
use crate::form::{field, read_field, Saved};
use crate::json::{
    lemma_find_member_push, members_view, with_member, Json, JsonView, Number, NumberView,
};
use vstd::prelude::*;

verus! {

/// How hurt something is.
#[derive(Debug, PartialEq, Eq)]
pub struct Health {
    pub current: Number,
    pub max: Number,
}

/// `Health` as contracts see it.
pub struct HealthView {
    pub current: NumberView,
    pub max: NumberView,
}

impl DeepView for Health {
    type V = HealthView;

    open spec fn deep_view(&self) -> HealthView {
        HealthView { current: self.current.deep_view(), max: self.max.deep_view() }
    }
}

impl Duplicate for Health {
    fn duplicate(&self) -> (r: Health) {
        Health { current: self.current.duplicate(), max: self.max.duplicate() }
    }
}

/// Health is saved as an object with `current` and `max`.
impl Saved for Health {
    open spec fn form(value: HealthView) -> JsonView {
        JsonView::Object(
            Seq::empty().push(("current"@, Number::form(value.current))).push(
                ("max"@, Number::form(value.max)),
            ),
        )
    }

    open spec fn read(tree: JsonView) -> Option<HealthView> {
        let current = field::<Number>(tree, "current"@);
        let max = field::<Number>(tree, "max"@);
        if current is Some && max is Some {
            Some(HealthView { current: current->0, max: max->0 })
        } else {
            None
        }
    }

    proof fn lemma_read_form(value: HealthView) {
        broadcast use lemma_find_member_push;

        reveal_strlit("current");
        reveal_strlit("max");
        assert("current"@.len() == 7 && "max"@.len() == 3);
    }

    fn to_json(&self) -> (r: Json) {
        let members = Vec::new();
        assert(members_view(members) =~= Seq::empty());
        let members = with_member(members, "current", self.current.to_json());
        let members = with_member(members, "max", self.max.to_json());
        Json::object(members)
    }

    fn from_json(tree: &Json) -> (r: Option<Health>) {
        let current = read_field::<Number>(tree, "current");
        let max = read_field::<Number>(tree, "max");
        match (current, max) {
            (Some(current), Some(max)) => Some(Health { current, max }),
            _ => None,
        }
    }
}

/// How tired something is, and how fast it recovers.
#[derive(Debug, PartialEq, Eq)]
pub struct Stamina {
    pub current: Number,
    pub max: Number,
    pub recovery_rate: Number,
}

/// `Stamina` as contracts see it.
pub struct StaminaView {
    pub current: NumberView,
    pub max: NumberView,
    pub recovery_rate: NumberView,
}

impl DeepView for Stamina {
    type V = StaminaView;

    open spec fn deep_view(&self) -> StaminaView {
        StaminaView {
            current: self.current.deep_view(),
            max: self.max.deep_view(),
            recovery_rate: self.recovery_rate.deep_view(),
        }
    }
}

impl Duplicate for Stamina {
    fn duplicate(&self) -> (r: Stamina) {
        Stamina {
            current: self.current.duplicate(),
            max: self.max.duplicate(),
            recovery_rate: self.recovery_rate.duplicate(),
        }
    }
}

/// Stamina is saved as an object with `current`, `max` and `recovery_rate`.
impl Saved for Stamina {
    open spec fn form(value: StaminaView) -> JsonView {
        JsonView::Object(
            Seq::empty().push(("current"@, Number::form(value.current))).push(
                ("max"@, Number::form(value.max)),
            ).push(("recovery_rate"@, Number::form(value.recovery_rate))),
        )
    }

    open spec fn read(tree: JsonView) -> Option<StaminaView> {
        let current = field::<Number>(tree, "current"@);
        let max = field::<Number>(tree, "max"@);
        let recovery_rate = field::<Number>(tree, "recovery_rate"@);
        if current is Some && max is Some && recovery_rate is Some {
            Some(StaminaView { current: current->0, max: max->0, recovery_rate: recovery_rate->0 })
        } else {
            None
        }
    }

    proof fn lemma_read_form(value: StaminaView) {
        broadcast use lemma_find_member_push;

        reveal_strlit("current");
        reveal_strlit("max");
        reveal_strlit("recovery_rate");
        assert("current"@.len() == 7 && "max"@.len() == 3 && "recovery_rate"@.len() == 13);
    }

    fn to_json(&self) -> (r: Json) {
        let members = Vec::new();
        assert(members_view(members) =~= Seq::empty());
        let members = with_member(members, "current", self.current.to_json());
        let members = with_member(members, "max", self.max.to_json());
        let members = with_member(members, "recovery_rate", self.recovery_rate.to_json());
        Json::object(members)
    }

    fn from_json(tree: &Json) -> (r: Option<Stamina>) {
        let current = read_field::<Number>(tree, "current");
        let max = read_field::<Number>(tree, "max");
        let recovery_rate = read_field::<Number>(tree, "recovery_rate");
        match (current, max, recovery_rate) {
            (Some(current), Some(max), Some(recovery_rate)) => Some(
                Stamina { current, max, recovery_rate },
            ),
            _ => None,
        }
    }
}

/// The abilities of a character and how far it has come.
#[derive(Debug, Clone, Copy, PartialEq, Eq, Structural)]
pub struct CharacterStats {
    pub strength: u8,
    pub agility: u8,
    pub intelligence: u8,
    pub charisma: u8,
    pub level: u8,
    pub experience: u32,
}

impl DeepView for CharacterStats {
    type V = CharacterStats;

    open spec fn deep_view(&self) -> CharacterStats {
        *self
    }
}

impl Duplicate for CharacterStats {
    fn duplicate(&self) -> (r: CharacterStats) {
        *self
    }
}

/// Statistics are saved as an object with one whole number for each.
impl Saved for CharacterStats {
    open spec fn form(value: CharacterStats) -> JsonView {
        JsonView::Object(
            Seq::empty().push(("strength"@, u8::form(value.strength))).push(
                ("agility"@, u8::form(value.agility)),
            ).push(("intelligence"@, u8::form(value.intelligence))).push(
                ("charisma"@, u8::form(value.charisma)),
            ).push(("level"@, u8::form(value.level))).push(
                ("experience"@, u32::form(value.experience)),
            ),
        )
    }

    open spec fn read(tree: JsonView) -> Option<CharacterStats> {
        let strength = field::<u8>(tree, "strength"@);
        let agility = field::<u8>(tree, "agility"@);
        let intelligence = field::<u8>(tree, "intelligence"@);
        let charisma = field::<u8>(tree, "charisma"@);
        let level = field::<u8>(tree, "level"@);
        let experience = field::<u32>(tree, "experience"@);
        if strength is Some && agility is Some && intelligence is Some && charisma is Some
            && level is Some && experience is Some {
            Some(
                CharacterStats {
                    strength: strength->0,
                    agility: agility->0,
                    intelligence: intelligence->0,
                    charisma: charisma->0,
                    level: level->0,
                    experience: experience->0,
                },
            )
        } else {
            None
        }
    }

    proof fn lemma_read_form(value: CharacterStats) {
        broadcast use lemma_find_member_push;

        reveal_strlit("strength");
        reveal_strlit("agility");
        reveal_strlit("intelligence");
        reveal_strlit("charisma");
        reveal_strlit("level");
        reveal_strlit("experience");
        assert("strength"@.len() == 8 && "agility"@.len() == 7 && "intelligence"@.len() == 12);
        assert("charisma"@.len() == 8 && "level"@.len() == 5 && "experience"@.len() == 10);
        assert("strength"@[0] != "charisma"@[0]);
    }

    fn to_json(&self) -> (r: Json) {
        let members = Vec::new();
        assert(members_view(members) =~= Seq::empty());
        let members = with_member(members, "strength", self.strength.to_json());
        let members = with_member(members, "agility", self.agility.to_json());
        let members = with_member(members, "intelligence", self.intelligence.to_json());
        let members = with_member(members, "charisma", self.charisma.to_json());
        let members = with_member(members, "level", self.level.to_json());
        let members = with_member(members, "experience", self.experience.to_json());
        Json::object(members)
    }

    fn from_json(tree: &Json) -> (r: Option<CharacterStats>) {
        let strength = read_field::<u8>(tree, "strength");
        let agility = read_field::<u8>(tree, "agility");
        let intelligence = read_field::<u8>(tree, "intelligence");
        let charisma = read_field::<u8>(tree, "charisma");
        let level = read_field::<u8>(tree, "level");
        let experience = read_field::<u32>(tree, "experience");
        match (strength, agility, intelligence, charisma, level, experience) {
            (
                Some(strength),
                Some(agility),
                Some(intelligence),
                Some(charisma),
                Some(level),
                Some(experience),
            ) => Some(
                CharacterStats { strength, agility, intelligence, charisma, level, experience },
            ),
            _ => None,
        }
    }
}

/// A party to the world's politics.
#[derive(Debug, PartialEq, Eq)]
pub struct Faction {
    pub id: String,
    pub name: String,
}

/// `Faction` as contracts see it.
pub struct FactionView {
    pub id: Seq<char>,
    pub name: Seq<char>,
}

impl DeepView for Faction {
    type V = FactionView;

    open spec fn deep_view(&self) -> FactionView {
        FactionView { id: self.id@, name: self.name@ }
    }
}

impl Duplicate for Faction {
    fn duplicate(&self) -> (r: Faction) {
        Faction { id: self.id.clone(), name: self.name.clone() }
    }
}

/// How each faction regards a character: pairs of a faction's id and a
/// standing.
#[derive(Debug, PartialEq, Eq)]
pub struct Reputation {
    pub faction_relations: Vec<(String, i32)>,
}

/// `Reputation` as contracts see it.
pub struct ReputationView {
    pub faction_relations: Seq<(Seq<char>, i32)>,
}

impl DeepView for Reputation {
    type V = ReputationView;

    open spec fn deep_view(&self) -> ReputationView {
        ReputationView { faction_relations: self.faction_relations.deep_view() }
    }
}

impl Duplicate for Reputation {
    fn duplicate(&self) -> (r: Reputation) {
        Reputation { faction_relations: self.faction_relations.duplicate() }
    }
}

/// Marks the entity that the player controls.
#[derive(Debug, Clone, Copy, PartialEq, Eq, Structural)]
pub struct Player;

/// How fast a character moves and turns under the player's hand.
#[derive(Debug, PartialEq, Eq)]
pub struct CharacterController {
    pub movement_speed: Number,
    pub rotation_speed: Number,
}

/// `CharacterController` as contracts see it.
pub struct CharacterControllerView {
    pub movement_speed: NumberView,
    pub rotation_speed: NumberView,
}

impl DeepView for CharacterController {
    type V = CharacterControllerView;

    open spec fn deep_view(&self) -> CharacterControllerView {
        CharacterControllerView {
            movement_speed: self.movement_speed.deep_view(),
            rotation_speed: self.rotation_speed.deep_view(),
        }
    }
}

impl Duplicate for CharacterController {
    fn duplicate(&self) -> (r: CharacterController) {
        CharacterController {
            movement_speed: self.movement_speed.duplicate(),
            rotation_speed: self.rotation_speed.duplicate(),
        }
    }
}

/// Where something stands on the world map.
#[derive(Debug, PartialEq, Eq)]
pub struct WorldPosition {
    pub x: Number,
    pub y: Number,
}

/// `WorldPosition` as contracts see it.
pub struct WorldPositionView {
    pub x: NumberView,
    pub y: NumberView,
}

impl DeepView for WorldPosition {
    type V = WorldPositionView;

    open spec fn deep_view(&self) -> WorldPositionView {
        WorldPositionView { x: self.x.deep_view(), y: self.y.deep_view() }
    }
}

impl Duplicate for WorldPosition {
    fn duplicate(&self) -> (r: WorldPosition) {
        WorldPosition { x: self.x.duplicate(), y: self.y.duplicate() }
    }
}

/// A town or castle.
#[derive(Debug, PartialEq, Eq)]
pub struct Settlement {
    pub name: String,
    pub prosperity: u32,
    pub garrison_size: u32,
    pub owner_faction_id: String,
}

/// `Settlement` as contracts see it.
pub struct SettlementView {
    pub name: Seq<char>,
    pub prosperity: u32,
    pub garrison_size: u32,
    pub owner_faction_id: Seq<char>,
}

impl DeepView for Settlement {
    type V = SettlementView;

    open spec fn deep_view(&self) -> SettlementView {
        SettlementView {
            name: self.name@,
            prosperity: self.prosperity,
            garrison_size: self.garrison_size,
            owner_faction_id: self.owner_faction_id@,
        }
    }
}

impl Duplicate for Settlement {
    fn duplicate(&self) -> (r: Settlement) {
        Settlement {
            name: self.name.clone(),
            prosperity: self.prosperity,
            garrison_size: self.garrison_size,
            owner_faction_id: self.owner_faction_id.clone(),
        }
    }
}

/// The kinds of weapon a fighter can carry into battle.
#[derive(Debug, Clone, Copy, PartialEq, Eq, Structural, Hash)]
pub enum WeaponType {
    OneHandedSword,
    TwoHandedSword,
    Spear,
    Bow,
    Crossbow,
    Shield,
}

/// A weapon in a fighter's hand.
#[derive(Debug, PartialEq, Eq)]
pub struct Weapon {
    pub damage: Number,
    pub speed: Number,
    pub reach: Number,
    pub weapon_type: WeaponType,
}

/// `Weapon` as contracts see it.
pub struct WeaponView {
    pub damage: NumberView,
    pub speed: NumberView,
    pub reach: NumberView,
    pub weapon_type: WeaponType,
}

impl DeepView for Weapon {
    type V = WeaponView;

    open spec fn deep_view(&self) -> WeaponView {
        WeaponView {
            damage: self.damage.deep_view(),
            speed: self.speed.deep_view(),
            reach: self.reach.deep_view(),
            weapon_type: self.weapon_type,
        }
    }
}

impl Duplicate for Weapon {
    fn duplicate(&self) -> (r: Weapon) {
        Weapon {
            damage: self.damage.duplicate(),
            speed: self.speed.duplicate(),
            reach: self.reach.duplicate(),
            weapon_type: self.weapon_type,
        }
    }
}

/// The temperament of a fighter that the game controls. Entities that carry
/// it belong to a battle and are removed when the battle is left.
#[derive(Debug, PartialEq, Eq)]
pub struct CombatAI {
    /// From 0.0 to 1.0.
    pub aggression: Number,
    pub preferred_distance: Number,
}

/// `CombatAI` as contracts see it.
pub struct CombatAIView {
    pub aggression: NumberView,
    pub preferred_distance: NumberView,
}

impl DeepView for CombatAI {
    type V = CombatAIView;

    open spec fn deep_view(&self) -> CombatAIView {
        CombatAIView {
            aggression: self.aggression.deep_view(),
            preferred_distance: self.preferred_distance.deep_view(),
        }
    }
}

impl Duplicate for CombatAI {
    fn duplicate(&self) -> (r: CombatAI) {
        CombatAI {
            aggression: self.aggression.duplicate(),
            preferred_distance: self.preferred_distance.duplicate(),
        }
    }
}

} // verus!
