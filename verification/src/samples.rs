//! The items, traits and the character that the game starts out with.

use crate::character::{
    ArmorType, Attributes, Character, Culture, Equipment, Gender, Item, ItemStats, ItemType,
    SkillType, Trait, TraitEffect, TraitEffectTarget, WeaponType, SKILL_COUNT,
};
use crate::json::{Number, NumberView};
use vstd::prelude::*;

verus! {

/// Whether `n` is the number written as `text`.
pub open spec fn is_decimal(n: Number, text: Seq<char>) -> bool {
    n.deep_view() == NumberView::Decimal(text)
}

/// Whether `item` is the iron helmet: head armour of tier 3, worth 550,
/// weighing 2.5, with an armour rating of 20 and no other figures.
pub open spec fn is_iron_helmet(item: Item) -> bool {
    &&& item.id@ == "iron_helmet"@
    &&& item.name@ == "Iron Helmet"@
    &&& item.item_type == ItemType::Armor(ArmorType::Head)
    &&& item.tier == 3
    &&& item.value == 550
    &&& is_decimal(item.weight, "2.5"@)
    &&& item.stats.armor == Some(20u32)
    &&& item.stats.damage is None
    &&& item.stats.speed is None
    &&& item.stats.handling is None
    &&& item.stats.accuracy is None
    &&& item.stats.range is None
}

/// Whether `item` is the iron sword: a one-handed weapon of tier 2, worth
/// 650, weighing 1.2, with damage 29, speed 93, handling 85 and range 100.
pub open spec fn is_iron_sword(item: Item) -> bool {
    &&& item.id@ == "iron_sword"@
    &&& item.name@ == "Iron Sword"@
    &&& item.item_type == ItemType::Weapon(WeaponType::OneHanded)
    &&& item.tier == 2
    &&& item.value == 650
    &&& is_decimal(item.weight, "1.2"@)
    &&& item.stats.armor is None
    &&& item.stats.damage == Some(29u32)
    &&& item.stats.speed is Some && is_decimal(item.stats.speed->0, "93.0"@)
    &&& item.stats.handling is Some && is_decimal(item.stats.handling->0, "85.0"@)
    &&& item.stats.accuracy is None
    &&& item.stats.range == Some(100u32)
}

/// An iron helmet.
pub fn iron_helmet() -> (r: Item)
    ensures
        is_iron_helmet(r),
{
    Item {
        id: String::from_str("iron_helmet"),
        name: String::from_str("Iron Helmet"),
        item_type: ItemType::Armor(ArmorType::Head),
        tier: 3,
        value: 550,
        weight: Number::decimal("2.5"),
        stats: ItemStats {
            armor: Some(20),
            damage: None,
            speed: None,
            handling: None,
            accuracy: None,
            range: None,
        },
    }
}

/// An iron sword.
pub fn iron_sword() -> (r: Item)
    ensures
        is_iron_sword(r),
{
    Item {
        id: String::from_str("iron_sword"),
        name: String::from_str("Iron Sword"),
        item_type: ItemType::Weapon(WeaponType::OneHanded),
        tier: 2,
        value: 650,
        weight: Number::decimal("1.2"),
        stats: ItemStats {
            armor: None,
            damage: Some(29),
            speed: Some(Number::decimal("93.0")),
            handling: Some(Number::decimal("85.0")),
            accuracy: None,
            range: Some(100),
        },
    }
}

/// What the button that offers a helmet does: pressed while the head is
/// bare, it puts an iron helmet on it.
pub fn offer_iron_helmet(equipment: &mut Equipment, clicked: bool)
    ensures
        old(equipment).head is None && clicked ==> final(equipment).head is Some
            && is_iron_helmet(final(equipment).head->0),
        !(old(equipment).head is None && clicked) ==> final(equipment).head == old(
            equipment,
        ).head,
        final(equipment).body == old(equipment).body,
        final(equipment).legs == old(equipment).legs,
        final(equipment).hands == old(equipment).hands,
        final(equipment).main_weapon == old(equipment).main_weapon,
        final(equipment).secondary_weapon == old(equipment).secondary_weapon,
        final(equipment).ranged_weapon == old(equipment).ranged_weapon,
        final(equipment).mount == old(equipment).mount,
{
    if equipment.head.is_none() && clicked {
        equipment.head = Some(iron_helmet());
    }
}

/// What the button that offers a sword does: pressed while the main hand
/// is empty, it puts an iron sword in it.
pub fn offer_iron_sword(equipment: &mut Equipment, clicked: bool)
    ensures
        old(equipment).main_weapon is None && clicked ==> final(equipment).main_weapon is Some
            && is_iron_sword(final(equipment).main_weapon->0),
        !(old(equipment).main_weapon is None && clicked) ==> final(equipment).main_weapon == old(
            equipment,
        ).main_weapon,
        final(equipment).head == old(equipment).head,
        final(equipment).body == old(equipment).body,
        final(equipment).legs == old(equipment).legs,
        final(equipment).hands == old(equipment).hands,
        final(equipment).secondary_weapon == old(equipment).secondary_weapon,
        final(equipment).ranged_weapon == old(equipment).ranged_weapon,
        final(equipment).mount == old(equipment).mount,
{
    if equipment.main_weapon.is_none() && clicked {
        equipment.main_weapon = Some(iron_sword());
    }
}

/// Whether `quality` is bravery: leadership up by 0.1, troop morale by 0.05.
pub open spec fn is_brave(quality: Trait) -> bool {
    &&& quality.id@ == "brave"@
    &&& quality.name@ == "Brave"@
    &&& quality.description@
        == "This character is courageous in battle and faces danger without fear."@
    &&& quality.effects.len() == 2
    &&& quality.effects[0].target == TraitEffectTarget::Skill(SkillType::Leadership)
    &&& is_decimal(quality.effects[0].modifier, "0.1"@)
    &&& quality.effects[1].target == TraitEffectTarget::TroopMorale
    &&& is_decimal(quality.effects[1].modifier, "0.05"@)
}

/// Whether `quality` is mercy: standing with the nobility up by 0.1, charm
/// by 0.05.
pub open spec fn is_merciful(quality: Trait) -> bool {
    &&& quality.id@ == "merciful"@
    &&& quality.name@ == "Merciful"@
    &&& quality.description@
        == "This character shows mercy to defeated enemies and spares the innocent."@
    &&& quality.effects.len() == 2
    &&& quality.effects[0].target is Relationship
    &&& quality.effects[0].target->Relationship_0@ == "Nobility"@
    &&& is_decimal(quality.effects[0].modifier, "0.1"@)
    &&& quality.effects[1].target == TraitEffectTarget::Skill(SkillType::Charm)
    &&& is_decimal(quality.effects[1].modifier, "0.05"@)
}

/// Bravery.
pub fn brave() -> (r: Trait)
    ensures
        is_brave(r),
{
    let mut effects: Vec<TraitEffect> = Vec::new();
    effects.push(
        TraitEffect {
            target: TraitEffectTarget::Skill(SkillType::Leadership),
            modifier: Number::decimal("0.1"),
        },
    );
    effects.push(
        TraitEffect { target: TraitEffectTarget::TroopMorale, modifier: Number::decimal("0.05") },
    );
    Trait {
        id: String::from_str("brave"),
        name: String::from_str("Brave"),
        description: String::from_str(
            "This character is courageous in battle and faces danger without fear.",
        ),
        effects,
    }
}

/// Mercy.
pub fn merciful() -> (r: Trait)
    ensures
        is_merciful(r),
{
    let mut effects: Vec<TraitEffect> = Vec::new();
    effects.push(
        TraitEffect {
            target: TraitEffectTarget::Relationship(String::from_str("Nobility")),
            modifier: Number::decimal("0.1"),
        },
    );
    effects.push(
        TraitEffect {
            target: TraitEffectTarget::Skill(SkillType::Charm),
            modifier: Number::decimal("0.05"),
        },
    );
    Trait {
        id: String::from_str("merciful"),
        name: String::from_str("Merciful"),
        description: String::from_str(
            "This character shows mercy to defeated enemies and spares the innocent.",
        ),
        effects,
    }
}

/// Whether `character` is Ragnar, the character the game starts out with.
pub open spec fn is_ragnar(character: Character) -> bool {
    &&& character.name@ == "Ragnar"@
    &&& character.gender == Gender::Male
    &&& character.culture == Culture::Sturgian
    &&& character.age == 32
    &&& character.clan_level == 2
    &&& is_decimal(character.renown, "150.0"@)
    &&& is_decimal(character.influence, "25.0"@)
    &&& character.gold == 2500
    &&& character.attributes == (Attributes {
        vigor: 5,
        control: 3,
        endurance: 4,
        cunning: 3,
        social: 2,
        intelligence: 3,
    })
    &&& character.skills.well_formed()
    &&& character.skills.skills[SkillType::OneHanded.index()].level == 65
    &&& character.skills.skills[SkillType::Riding.index()].level == 45
    &&& character.skills.skills[SkillType::Leadership.index()].level == 30
    &&& forall|i: int|
        0 <= i < SKILL_COUNT && i != SkillType::OneHanded.index() && i != SkillType::Riding.index()
            && i != SkillType::Leadership.index() ==> (
        #[trigger] character.skills.skills[i]).is_untrained()
    &&& character.equipment.head is Some && is_iron_helmet(character.equipment.head->0)
    &&& character.equipment.main_weapon is Some && is_iron_sword(
        character.equipment.main_weapon->0,
    )
    &&& character.equipment.body is None
    &&& character.equipment.legs is None
    &&& character.equipment.hands is None
    &&& character.equipment.secondary_weapon is None
    &&& character.equipment.ranged_weapon is None
    &&& character.equipment.mount is None
    &&& character.traits.len() == 2
    &&& is_brave(character.traits[0])
    &&& is_merciful(character.traits[1])
}

/// Ragnar.
pub fn sample_character() -> (r: Character)
    ensures
        is_ragnar(r),
{
    let mut equipment = Equipment::default();
    equipment.head = Some(iron_helmet());
    equipment.main_weapon = Some(iron_sword());
    let mut skills = SkillType::default_skills();
    skills.set_level(SkillType::OneHanded, 65);
    skills.set_level(SkillType::Riding, 45);
    skills.set_level(SkillType::Leadership, 30);
    let mut traits: Vec<Trait> = Vec::new();
    traits.push(brave());
    traits.push(merciful());
    Character {
        name: String::from_str("Ragnar"),
        gender: Gender::Male,
        culture: Culture::Sturgian,
        age: 32,
        clan_level: 2,
        renown: Number::decimal("150.0"),
        influence: Number::decimal("25.0"),
        gold: 2500,
        attributes: Attributes {
            vigor: 5,
            control: 3,
            endurance: 4,
            cunning: 3,
            social: 2,
            intelligence: 3,
        },
        skills,
        equipment,
        traits,
    }
}

} // verus!
