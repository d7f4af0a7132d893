use bannerlord_character_system::battle::{
    combat_power, judge_battle, simulate_battle, BattleOutcome,
};
use bannerlord_character_system::character::{
    calculate_character_level, item_summary, ArmorType, Attributes, Character, Culture, Equipment,
    Gender, ItemStats, ItemSummary, ItemType, Skill, SkillType, WeaponType,
};
use bannerlord_character_system::components::Health;
use bannerlord_character_system::creator::{
    attribute_selector, clamp_age, has_trait, remove_trait, set_trait, skill_selector,
    CharacterCreatorState, CharacterDatabase, CreationStage,
};
use bannerlord_character_system::json::Number;
use bannerlord_character_system::samples::{
    brave, iron_helmet, iron_sword, merciful, offer_iron_helmet, offer_iron_sword,
    sample_character,
};

fn decimal(text: &str) -> Number {
    Number::Decimal(text.to_string())
}

fn as_float(number: &Number) -> f32 {
    match number {
        Number::UInt(u) => *u as f32,
        Number::Int(i) => *i as f32,
        Number::Decimal(text) => text.parse().expect("a decimal number"),
    }
}

fn damage(health: &mut Health) {
    let current = as_float(&health.current) - 10.0;
    health.current = Number::Decimal(format!("{:?}", current));
}

#[test]
fn test_health_component() {
    // An entity with health
    let mut health = Health { current: decimal("100.0"), max: decimal("100.0") };

    // Run for a frame to allow the damage system to run
    damage(&mut health);

    // Check that health was reduced
    assert_eq!(as_float(&health.current), 90.0);
}

#[test]
fn a_blank_character() {
    let character = Character::default();
    assert_eq!(character.name, "Unnamed");
    assert_eq!(character.gender, Gender::Male);
    assert_eq!(character.culture, Culture::Vlandian);
    assert_eq!(character.age, 25);
    assert_eq!(character.clan_level, 0);
    assert_eq!(character.renown, decimal("0.0"));
    assert_eq!(character.influence, decimal("0.0"));
    assert_eq!(character.gold, 1000);
    assert_eq!(character.attributes, Attributes::default());
    assert_eq!(character.attributes.vigor, 2);
    assert_eq!(character.attributes.intelligence, 2);
    assert_eq!(character.skills.skills.len(), 18);
    assert!(character.skills.skills.iter().all(|skill| *skill == Skill::default()));
    assert_eq!(character.equipment, Equipment::default());
    assert_eq!(character.equipment.head, None);
    assert!(character.traits.is_empty());
    assert_eq!(calculate_character_level(&character), 24);
}

#[test]
fn every_skill_draws_on_an_attribute() {
    assert_eq!(SkillType::OneHanded.get_attribute(), "vigor");
    assert_eq!(SkillType::TwoHanded.get_attribute(), "vigor");
    assert_eq!(SkillType::Polearm.get_attribute(), "vigor");
    assert_eq!(SkillType::Bow.get_attribute(), "control");
    assert_eq!(SkillType::Crossbow.get_attribute(), "control");
    assert_eq!(SkillType::Throwing.get_attribute(), "control");
    assert_eq!(SkillType::Riding.get_attribute(), "endurance");
    assert_eq!(SkillType::Athletics.get_attribute(), "endurance");
    assert_eq!(SkillType::Tactics.get_attribute(), "cunning");
    assert_eq!(SkillType::Roguery.get_attribute(), "cunning");
    assert_eq!(SkillType::Scouting.get_attribute(), "cunning");
    assert_eq!(SkillType::Charm.get_attribute(), "social");
    assert_eq!(SkillType::Leadership.get_attribute(), "social");
    assert_eq!(SkillType::Trade.get_attribute(), "social");
    assert_eq!(SkillType::Crafting.get_attribute(), "intelligence");
    assert_eq!(SkillType::Steward.get_attribute(), "intelligence");
    assert_eq!(SkillType::Medicine.get_attribute(), "intelligence");
    assert_eq!(SkillType::Engineering.get_attribute(), "intelligence");
    assert_eq!(SkillType::OneHanded.ordinal(), 0);
    assert_eq!(SkillType::Engineering.ordinal(), 17);
}

#[test]
fn default_skills_are_untrained() {
    let skills = SkillType::default_skills();
    assert_eq!(skills.skills.len(), 18);
    assert_eq!(skills.get(SkillType::Bow), &Skill::default());
    assert_eq!(skills.level_of(SkillType::Trade), 0);
    assert_eq!(skills.total_level(), Some(0));
    assert_eq!(Skill::default().experience, decimal("0.0"));
}

#[test]
fn ragnar_is_as_described() {
    let ragnar = sample_character();
    assert_eq!(ragnar.name, "Ragnar");
    assert_eq!(ragnar.culture, Culture::Sturgian);
    assert_eq!(ragnar.age, 32);
    assert_eq!(ragnar.clan_level, 2);
    assert_eq!(ragnar.renown, decimal("150.0"));
    assert_eq!(ragnar.influence, decimal("25.0"));
    assert_eq!(ragnar.gold, 2500);
    assert_eq!(
        ragnar.attributes,
        Attributes { vigor: 5, control: 3, endurance: 4, cunning: 3, social: 2, intelligence: 3 }
    );
    assert_eq!(ragnar.skills.level_of(SkillType::OneHanded), 65);
    assert_eq!(ragnar.skills.level_of(SkillType::Riding), 45);
    assert_eq!(ragnar.skills.level_of(SkillType::Leadership), 30);
    assert_eq!(ragnar.skills.level_of(SkillType::Bow), 0);
    assert_eq!(ragnar.skills.total_level(), Some(140));
    assert_eq!(ragnar.equipment.head, Some(iron_helmet()));
    assert_eq!(ragnar.equipment.main_weapon, Some(iron_sword()));
    assert_eq!(ragnar.equipment.mount, None);
    assert_eq!(ragnar.traits, vec![brave(), merciful()]);
    // 140 / 10 + (5 + 3 + 4 + 3 + 2 + 3) * 2
    assert_eq!(calculate_character_level(&ragnar), 54);
    // 5 * 5 + 4 * 3 + 65 * 2 + 0 + 0
    assert_eq!(combat_power(&ragnar), 167);
}

#[test]
fn the_best_melee_skill_counts() {
    let mut character = Character::default();
    character.skills.set_level(SkillType::TwoHanded, 40);
    character.skills.set_level(SkillType::Polearm, 70);
    character.skills.set_level(SkillType::OneHanded, 10);
    character.skills.set_level(SkillType::Athletics, 7);
    character.skills.set_level(SkillType::Tactics, 3);
    // 2 * 5 + 2 * 3 + 70 * 2 + 7 + 3
    assert_eq!(combat_power(&character), 166);
    character.skills.skills.truncate(2);
    // Polearm, athletics and tactics are gone: 2 * 5 + 2 * 3 + 40 * 2
    assert_eq!(combat_power(&character), 96);
}

#[test]
fn battles_are_judged_by_power() {
    assert_eq!(judge_battle(300, 299).outcome, BattleOutcome::Victory);
    assert_eq!(judge_battle(299, 299).outcome, BattleOutcome::NarrowDefeat);
    assert_eq!(judge_battle(150, 299).outcome, BattleOutcome::NarrowDefeat);
    assert_eq!(judge_battle(149, 299).outcome, BattleOutcome::Defeat);
    assert_eq!(judge_battle(0, 100).outcome, BattleOutcome::Defeat);
    let report = judge_battle(51, 100);
    assert_eq!(report.outcome, BattleOutcome::NarrowDefeat);
    assert_eq!(report.combat_power, 51);
    assert_eq!(report.enemy_power, 100);
    assert_eq!(BattleOutcome::Victory.headline(), "Victory!");
    assert_eq!(BattleOutcome::NarrowDefeat.headline(), "Narrow defeat.");
    assert_eq!(BattleOutcome::Defeat.headline(), "Defeat.");
}

#[test]
fn the_enemy_is_within_bounds() {
    let ragnar = sample_character();
    let mut seen = std::collections::HashSet::new();
    for _ in 0..200 {
        let report = simulate_battle(&ragnar);
        assert_eq!(report.combat_power, 167);
        assert!(report.enemy_power >= 100 && report.enemy_power < 300);
        assert_eq!(report, judge_battle(167, report.enemy_power));
        seen.insert(report.enemy_power);
    }
    assert!(seen.len() > 1);
}

#[test]
fn stages_follow_one_another() {
    let stages = [
        CreationStage::Basic,
        CreationStage::Attributes,
        CreationStage::Skills,
        CreationStage::Equipment,
        CreationStage::Traits,
        CreationStage::Review,
    ];
    for pair in stages.windows(2) {
        assert_eq!(pair[0].next(), pair[1]);
        assert_eq!(pair[1].previous(), pair[0]);
    }
    assert_eq!(CreationStage::Review.next(), CreationStage::Review);
    assert_eq!(CreationStage::Basic.previous(), CreationStage::Basic);
    assert!(!CreationStage::Basic.has_previous());
    assert!(CreationStage::Basic.has_next());
    assert!(CreationStage::Review.has_previous());
    assert!(!CreationStage::Review.has_next());
}

#[test]
fn creation_hands_out_the_character_and_starts_over() {
    let mut state = CharacterCreatorState::default();
    assert_eq!(state.attribute_points, 15);
    assert_eq!(state.focus_points, 10);
    state.go_next();
    state.go_next();
    assert_eq!(state.creation_stage, CreationStage::Skills);
    state.go_previous();
    assert_eq!(state.creation_stage, CreationStage::Attributes);
    state.temp_character.name = "Svana".to_string();
    state.temp_character.age = clamp_age(70);
    attribute_selector(
        &mut state.temp_character.attributes.vigor,
        &mut state.attribute_points,
        false,
        true,
    );
    let made = state.create_character();
    assert_eq!(made.name, "Svana");
    assert_eq!(made.age, 60);
    assert_eq!(made.attributes.vigor, 3);
    assert_eq!(state, CharacterCreatorState::default());

    let mut database = CharacterDatabase::default();
    assert_eq!(database.active_character, None);
    database.add(41);
    database.add(42);
    assert_eq!(database.characters, vec![41, 42]);
    assert_eq!(database.active_character, Some(42));
}

#[test]
fn ages_are_kept_in_range() {
    assert_eq!(clamp_age(0), 18);
    assert_eq!(clamp_age(17), 18);
    assert_eq!(clamp_age(18), 18);
    assert_eq!(clamp_age(33), 33);
    assert_eq!(clamp_age(60), 60);
    assert_eq!(clamp_age(61), 60);
}

#[test]
fn attribute_points_move_between_pool_and_attribute() {
    let (mut value, mut points) = (2, 15);
    attribute_selector(&mut value, &mut points, true, false);
    assert_eq!((value, points), (2, 15));
    attribute_selector(&mut value, &mut points, false, true);
    assert_eq!((value, points), (3, 14));
    attribute_selector(&mut value, &mut points, true, true);
    assert_eq!((value, points), (3, 14));
    attribute_selector(&mut value, &mut points, true, false);
    assert_eq!((value, points), (2, 15));
    let (mut value, mut points) = (5, 0);
    attribute_selector(&mut value, &mut points, false, true);
    assert_eq!((value, points), (5, 0));
    attribute_selector(&mut value, &mut points, true, true);
    assert_eq!((value, points), (5, 0));
    attribute_selector(&mut value, &mut points, false, false);
    assert_eq!((value, points), (5, 0));
}

#[test]
fn focus_points_move_between_pool_and_skill() {
    let mut skill = Skill { level: 12, focus_points: 0, experience: decimal("3.5") };
    let mut pool = 1;
    skill_selector(&mut skill, &mut pool, true, false);
    assert_eq!((skill.focus_points, pool), (0, 1));
    skill_selector(&mut skill, &mut pool, false, true);
    assert_eq!((skill.focus_points, pool), (1, 0));
    skill_selector(&mut skill, &mut pool, false, true);
    assert_eq!((skill.focus_points, pool), (1, 0));
    skill_selector(&mut skill, &mut pool, true, false);
    assert_eq!((skill.focus_points, pool), (0, 1));
    assert_eq!(skill.level, 12);
    assert_eq!(skill.experience, decimal("3.5"));
}

#[test]
fn starting_equipment_goes_into_empty_slots_only() {
    let mut equipment = Equipment::default();
    offer_iron_helmet(&mut equipment, false);
    assert_eq!(equipment.head, None);
    offer_iron_helmet(&mut equipment, true);
    assert_eq!(equipment.head, Some(iron_helmet()));
    offer_iron_sword(&mut equipment, true);
    assert_eq!(equipment.main_weapon, Some(iron_sword()));
    let mut worn = iron_helmet();
    worn.tier = 1;
    equipment.head = Some(worn);
    offer_iron_helmet(&mut equipment, true);
    assert_eq!(equipment.head.as_ref().map(|item| item.tier), Some(1));

    let helmet = iron_helmet();
    assert_eq!(helmet.id, "iron_helmet");
    assert_eq!(helmet.name, "Iron Helmet");
    assert_eq!(helmet.item_type, ItemType::Armor(ArmorType::Head));
    assert_eq!((helmet.tier, helmet.value), (3, 550));
    assert_eq!(helmet.weight, decimal("2.5"));
    let sword = iron_sword();
    assert_eq!(sword.item_type, ItemType::Weapon(WeaponType::OneHanded));
    assert_eq!((sword.tier, sword.value), (2, 650));
    assert_eq!(sword.weight, decimal("1.2"));
    assert_eq!(sword.stats.speed, Some(decimal("93.0")));
}

#[test]
fn what_is_shown_of_an_item() {
    assert_eq!(item_summary(&iron_helmet().stats), ItemSummary::Armor(20));
    let sword = iron_sword();
    assert_eq!(
        item_summary(&sword.stats),
        ItemSummary::Weapon {
            damage: 29,
            speed: &decimal("93.0"),
            handling: &decimal("85.0"),
            range: 100
        }
    );
    let partial = ItemStats {
        armor: None,
        damage: Some(3),
        speed: None,
        handling: Some(decimal("1.0")),
        accuracy: None,
        range: Some(10),
    };
    assert_eq!(item_summary(&partial), ItemSummary::Plain);
}

#[test]
fn traits_are_added_and_taken_out() {
    let mut traits = vec![brave(), merciful(), brave()];
    assert!(has_trait(&traits, "brave"));
    remove_trait(&mut traits, "brave");
    assert_eq!(traits, vec![merciful()]);
    assert!(!has_trait(&traits, "brave"));
    set_trait(&mut traits, brave(), true);
    assert_eq!(traits, vec![merciful(), brave()]);
    set_trait(&mut traits, merciful(), false);
    assert_eq!(traits, vec![brave()]);
    set_trait(&mut traits, merciful(), false);
    assert_eq!(traits, vec![brave()]);
    assert_eq!(brave().effects.len(), 2);
    assert_eq!(merciful().effects[0].modifier, decimal("0.1"));
}

#[test]
fn the_best_skills_come_first() {
    let ragnar = sample_character();
    assert_eq!(
        ragnar.skills.top_skills(5),
        vec![
            SkillType::OneHanded,
            SkillType::Riding,
            SkillType::Leadership,
            SkillType::TwoHanded,
            SkillType::Polearm,
        ]
    );
    assert_eq!(ragnar.skills.top_skills(0), vec![]);
    assert_eq!(ragnar.skills.top_skills(1), vec![SkillType::OneHanded]);
    assert_eq!(ragnar.skills.top_skills(40).len(), 18);

    let mut skills = SkillType::default_skills();
    skills.set_level(SkillType::Engineering, 9);
    skills.set_level(SkillType::Bow, 9);
    skills.set_level(SkillType::Charm, 12);
    assert_eq!(
        skills.top_skills(4),
        vec![SkillType::Charm, SkillType::Bow, SkillType::Engineering, SkillType::OneHanded]
    );
    skills.skills.truncate(3);
    assert_eq!(
        skills.top_skills(5),
        vec![SkillType::OneHanded, SkillType::TwoHanded, SkillType::Polearm]
    );
    for place in 0..18 {
        assert_eq!(SkillType::from_ordinal(place).ordinal(), place);
    }
}
