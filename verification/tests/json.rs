use bannerlord_character_system::components::{CharacterStats, Health, Stamina};
use bannerlord_character_system::duplicate::Duplicate;
use bannerlord_character_system::form::{read_field, Saved};
use bannerlord_character_system::json::{with_item, with_member, Json, Number};
use bannerlord_character_system::save::document::{
    FactionData, ItemData, SettlementData, WorldData,
};
use bannerlord_character_system::save::version::{parse_version, Version};

fn decimal(text: &str) -> Number {
    Number::Decimal(text.to_string())
}

fn text(value: &str) -> Json {
    Json::Text(value.to_string())
}

#[test]
fn text_is_read_into_a_tree() {
    let tree = Json::parse("{\"b\": [1, -2, 0.5, true, null], \"a\": \"x\"}").expect("valid");
    assert_eq!(
        tree,
        Json::Object(vec![
            ("a".to_string(), text("x")),
            (
                "b".to_string(),
                Json::Array(vec![
                    Json::Number(Number::UInt(1)),
                    Json::Number(Number::Int(-2)),
                    Json::Number(decimal("0.5")),
                    Json::Bool(true),
                    Json::Null,
                ])
            ),
        ])
    );
    assert_eq!(Json::parse(""), None);
    assert_eq!(Json::parse("{"), None);
    assert_eq!(Json::parse("[1,]"), None);
    assert_eq!(Json::parse("1 2"), None);
    assert_eq!(Json::parse("18446744073709551615"), Some(Json::Number(Number::UInt(u64::MAX))));
    assert_eq!(
        Json::parse("-9223372036854775808"),
        Some(Json::Number(Number::Int(i64::MIN)))
    );
}

#[test]
fn a_tree_is_written_as_text() {
    let tree = Json::Object(vec![
        ("name".to_string(), text("Ragnar")),
        ("age".to_string(), Json::unsigned(32)),
        ("debt".to_string(), Json::signed(-7)),
        ("renown".to_string(), Json::Number(decimal("150.0"))),
        ("tags".to_string(), Json::Array(vec![Json::Bool(false), Json::Null])),
    ]);
    let written = tree.render();
    assert_ne!(written, "");
    let value: serde_json::Value = serde_json::from_str(&written).expect("valid JSON");
    assert_eq!(value["name"], "Ragnar");
    assert_eq!(value["age"], 32);
    assert_eq!(value["debt"], -7);
    assert_eq!(value["renown"], 150.0);
    assert_eq!(value["tags"][0], false);
    assert!(value["tags"][1].is_null());
    assert_eq!(Json::unsigned(5).render(), "5");
    assert_eq!(text("a\"b").render(), "\"a\\\"b\"");
    assert_eq!(Json::Number(decimal("2.5")).render(), "2.5");
    assert_eq!(Json::Number(decimal("not a number")).render(), "null");
    assert_eq!(Json::Array(vec![]).render(), "[]");
}

#[test]
fn what_is_written_reads_back() {
    let tree = Json::Object(vec![
        ("a".to_string(), Json::Array(vec![Json::unsigned(1), Json::signed(-1)])),
        ("b".to_string(), Json::Number(decimal("0.25"))),
        ("c".to_string(), text("line\nbreak")),
    ]);
    assert_eq!(Json::parse(&tree.render()), Some(tree));
}

#[test]
fn members_are_found_by_name() {
    let members = with_member(Vec::new(), "first", Json::unsigned(1));
    let members = with_member(members, "second", text("two"));
    let members = with_member(members, "first", Json::unsigned(3));
    let tree = Json::object(members);
    assert_eq!(tree.member("first"), Some(&Json::Number(Number::UInt(1))));
    assert_eq!(tree.member("second"), Some(&text("two")));
    assert_eq!(tree.member("third"), None);
    assert_eq!(Json::Null.member("first"), None);
    assert_eq!(read_field::<u8>(&tree, "first"), Some(1));
    assert_eq!(read_field::<String>(&tree, "second"), Some("two".to_string()));
    assert_eq!(read_field::<u8>(&tree, "second"), None);
    assert_eq!(read_field::<u8>(&tree, "third"), None);
    let items = with_item(with_item(Vec::new(), Json::Null), Json::Bool(true));
    assert_eq!(Json::array(items), Json::Array(vec![Json::Null, Json::Bool(true)]));
}

#[test]
fn whole_numbers_are_read_within_their_range() {
    assert_eq!(u8::from_json(&Json::unsigned(255)), Some(255));
    assert_eq!(u8::from_json(&Json::unsigned(256)), None);
    assert_eq!(u8::from_json(&Json::signed(-1)), None);
    assert_eq!(u8::from_json(&Json::Number(decimal("1.0"))), None);
    assert_eq!(u32::from_json(&Json::unsigned(4_294_967_295)), Some(u32::MAX));
    assert_eq!(u32::from_json(&Json::unsigned(4_294_967_296)), None);
    assert_eq!(u64::from_json(&Json::unsigned(u64::MAX)), Some(u64::MAX));
    assert_eq!(u64::from_json(&text("7")), None);
    assert_eq!(i32::from_json(&Json::signed(i32::MIN)), Some(i32::MIN));
    assert_eq!(i32::from_json(&Json::unsigned(2_147_483_647)), Some(i32::MAX));
    assert_eq!(i32::from_json(&Json::unsigned(2_147_483_648)), None);
    assert_eq!(i32::from_json(&Json::Number(Number::Int(-2_147_483_649))), None);
    assert_eq!(i32::from_json(&Json::Number(Number::Int(5))), Some(5));
    assert_eq!(7u8.to_json(), Json::Number(Number::UInt(7)));
    assert_eq!((-7i32).to_json(), Json::Number(Number::Int(-7)));
    assert_eq!(7i32.to_json(), Json::Number(Number::UInt(7)));
    assert_eq!(Json::signed(0), Json::Number(Number::UInt(0)));
    assert_eq!(Number::from_json(&Json::unsigned(3)), Some(Number::UInt(3)));
    assert_eq!(Number::from_json(&Json::Null), None);
    assert_eq!(Number::decimal("1.5"), decimal("1.5"));
}

#[test]
fn pairs_and_lists_are_arrays() {
    let pair = ("sturgia".to_string(), -15);
    let tree = pair.to_json();
    assert_eq!(tree, Json::Array(vec![text("sturgia"), Json::Number(Number::Int(-15))]));
    assert_eq!(<(String, i32)>::from_json(&tree), Some(pair));
    assert_eq!(<(String, i32)>::from_json(&Json::Array(vec![text("a")])), None);
    assert_eq!(
        <(String, i32)>::from_json(&Json::Array(vec![
            text("a"),
            Json::unsigned(1),
            Json::unsigned(2)
        ])),
        None
    );
    assert_eq!(<(String, i32)>::from_json(&text("a")), None);

    let list = vec![3u32, 1, 2];
    let tree = list.to_json();
    assert_eq!(
        tree,
        Json::Array(vec![Json::unsigned(3), Json::unsigned(1), Json::unsigned(2)])
    );
    assert_eq!(<Vec<u32>>::from_json(&tree), Some(list));
    assert_eq!(<Vec<u32>>::from_json(&Json::Array(vec![])), Some(vec![]));
    assert_eq!(
        <Vec<u32>>::from_json(&Json::Array(vec![Json::unsigned(3), text("x")])),
        None
    );
    assert_eq!(<Vec<u32>>::from_json(&Json::Null), None);
}

#[test]
fn components_keep_their_values_through_their_saved_form() {
    let health = Health { current: decimal("90.0"), max: decimal("100.0") };
    let tree = health.to_json();
    assert_eq!(
        tree,
        Json::Object(vec![
            ("current".to_string(), Json::Number(decimal("90.0"))),
            ("max".to_string(), Json::Number(decimal("100.0"))),
        ])
    );
    assert_eq!(Health::from_json(&tree), Some(health));
    assert_eq!(Health::from_json(&Json::Object(vec![])), None);

    let stamina =
        Stamina { current: Number::UInt(5), max: decimal("8.5"), recovery_rate: Number::Int(-1) };
    assert_eq!(Stamina::from_json(&stamina.to_json()), Some(stamina));

    let stats = CharacterStats {
        strength: 255,
        agility: 0,
        intelligence: 12,
        charisma: 9,
        level: 40,
        experience: u32::MAX,
    };
    assert_eq!(CharacterStats::from_json(&stats.to_json()), Some(stats));
    assert_eq!(stats.duplicate(), stats);
}

#[test]
fn records_keep_their_values_through_their_saved_form() {
    let world = WorldData { game_time: decimal("1234.5"), day: 17, seed: u64::MAX };
    assert_eq!(WorldData::from_json(&world.to_json()), Some(world.duplicate()));
    let item = ItemData {
        name: "Iron Sword".to_string(),
        item_type: "weapon".to_string(),
        value: 650,
        stats: vec![("damage".to_string(), decimal("29.0")), ("reach".to_string(), Number::UInt(100))],
    };
    assert_eq!(ItemData::from_json(&item.to_json()), Some(item.duplicate()));
    let faction = FactionData {
        id: "sturgia".to_string(),
        name: "Sturgia".to_string(),
        relations: vec![("vlandia".to_string(), -40), ("empire".to_string(), 10)],
    };
    assert_eq!(FactionData::from_json(&faction.to_json()), Some(faction.duplicate()));
    let settlement = SettlementData {
        name: "Varcheg".to_string(),
        position: (decimal("101.5"), decimal("44.0")),
        owner_faction: "sturgia".to_string(),
        prosperity: 4200,
        garrison: 310,
    };
    let tree = settlement.to_json();
    assert_eq!(read_field::<u32>(&tree, "garrison"), Some(310));
    assert_eq!(read_field::<String>(&tree, "owner_faction"), Some("sturgia".to_string()));
    assert_eq!(SettlementData::from_json(&tree), Some(settlement));
}

#[test]
fn version_tags_are_digits_dot_digits() {
    assert_eq!(parse_version("1.0"), Some(Version { major: 1, minor: 0 }));
    assert_eq!(parse_version("0.9"), Some(Version { major: 0, minor: 9 }));
    assert_eq!(parse_version("12.345"), Some(Version { major: 12, minor: 345 }));
    assert_eq!(parse_version("007.010"), Some(Version { major: 7, minor: 10 }));
    assert_eq!(
        parse_version("999999999.999999999"),
        Some(Version { major: 999_999_999, minor: 999_999_999 })
    );
    assert_eq!(parse_version("1000000000.0"), None);
    assert_eq!(parse_version(""), None);
    assert_eq!(parse_version("1"), None);
    assert_eq!(parse_version("1."), None);
    assert_eq!(parse_version(".0"), None);
    assert_eq!(parse_version("1.0.0"), None);
    assert_eq!(parse_version("1,0"), None);
    assert_eq!(parse_version("a.b"), None);
    assert_eq!(parse_version("-1.0"), None);
    assert_eq!(parse_version("1.0 "), None);
    assert_eq!(parse_version("١.٠"), None);
    assert!(!Version { major: 1, minor: 0 }.newer_than_current());
    assert!(!Version { major: 0, minor: 99 }.newer_than_current());
    assert!(Version { major: 1, minor: 1 }.newer_than_current());
    assert!(Version { major: 2, minor: 0 }.newer_than_current());
}
