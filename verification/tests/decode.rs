use serenity::model::channel::PartialChannel;
use serenity::model::guild::PartialMember;
use serenity::model::guild::Role;
use serenity::model::user::User;
use slash_args::Error;
use slash_args::InteractionNode;
use slash_args::Mentionable;
use slash_args::OptionKind;
use slash_args::TypedValue;
use slash_args::process;

fn user(name: &str, id: u64) -> User {
    serde_json::from_str(&format!(
        r#"{{"id":{},"avatar":null,"bot":false,"discriminator":7,"username":"{}","public_flags":null,"banner":null,"accent_color":null}}"#,
        id, name
    ))
    .unwrap()
}

fn member(nick: &str) -> PartialMember {
    serde_json::from_str(&format!(
        r#"{{"deaf":false,"joined_at":null,"mute":false,"nick":"{}","roles":[],"pending":false,"premium_since":null,"guild_id":null,"user":null,"permissions":null}}"#,
        nick
    ))
    .unwrap()
}

fn channel(name: &str) -> PartialChannel {
    serde_json::from_str(&format!(
        r#"{{"id":4,"name":"{}","type":0,"permissions":null}}"#,
        name
    ))
    .unwrap()
}

fn role(name: &str) -> Role {
    serde_json::from_str(&format!(
        r#"{{"id":2,"guild_id":3,"color":0,"hoist":false,"managed":false,"mentionable":true,"name":"{}","permissions":"0","position":1,"icon":null,"unicode_emoji":null}}"#,
        name
    ))
    .unwrap()
}

fn kind_of(v: &TypedValue) -> OptionKind {
    match v {
        TypedValue::String(_) => OptionKind::String,
        TypedValue::Integer(_) => OptionKind::Integer,
        TypedValue::Boolean(_) => OptionKind::Boolean,
        TypedValue::User(_, _) => OptionKind::User,
        TypedValue::Channel(_) => OptionKind::Channel,
        TypedValue::Role(_) => OptionKind::Role,
    }
}

fn leaf(name: &str, v: TypedValue) -> InteractionNode {
    InteractionNode {
        name: name.to_string(),
        kind: kind_of(&v),
        children: Vec::new(),
        resolved: Some(v),
    }
}

fn nested(name: &str, kind: OptionKind, children: Vec<InteractionNode>) -> InteractionNode {
    InteractionNode { name: name.to_string(), kind, children, resolved: None }
}

fn root(name: &str, children: Vec<InteractionNode>) -> InteractionNode {
    nested(name, OptionKind::Unknown, children)
}

#[test]
fn path_without_subcommands_is_the_root_name() {
    let tree = root("foo", vec![leaf("text", TypedValue::String("hi".to_string()))]);
    let (path, _table) = process(&tree);
    assert_eq!(path, "foo");
}

#[test]
fn path_of_empty_invocation_is_the_root_name() {
    let tree = root("ping", Vec::new());
    let (path, table) = process(&tree);
    assert_eq!(path, "ping");
    match table.get_string("anything") {
        Err(Error::MissingValue { name }) => assert_eq!(name, "anything"),
        _ => panic!("expected MissingValue"),
    }
}

#[test]
fn two_level_nesting_resolves_path_and_arguments() {
    let tree = root(
        "mod",
        vec![nested(
            "ban",
            OptionKind::SubCommand,
            vec![leaf("reason", TypedValue::String("spam".to_string()))],
        )],
    );
    let (path, table) = process(&tree);
    assert_eq!(path, "mod ban");
    assert_eq!(table.get_string("reason").unwrap(), "spam");
}

#[test]
fn chain_of_two_subcommands_has_three_segments() {
    let tree = root(
        "a",
        vec![nested(
            "b",
            OptionKind::SubCommandGroup,
            vec![nested(
                "c",
                OptionKind::SubCommand,
                vec![leaf("x", TypedValue::Integer(1))],
            )],
        )],
    );
    let (path, table) = process(&tree);
    assert_eq!(path, "a b c");
    assert_eq!(path.split(' ').count(), 3);
    assert_eq!(table.get_integer("x").unwrap(), 1);
}

#[test]
fn first_leaf_child_stops_descent_and_keeps_siblings() {
    let tree = root(
        "foo",
        vec![
            leaf("first", TypedValue::Boolean(true)),
            leaf("second", TypedValue::Integer(9)),
        ],
    );
    let (path, table) = process(&tree);
    assert_eq!(path, "foo");
    assert_eq!(table.get_boolean("first").unwrap(), true);
    assert_eq!(table.get_integer("second").unwrap(), 9);
}

#[test]
fn scenario_typed_reads_from_flat_options() {
    let tree = root(
        "foo",
        vec![
            leaf("text", TypedValue::String("hi".to_string())),
            leaf("channel", TypedValue::Channel(channel("general"))),
            leaf("integer", TypedValue::Integer(42)),
        ],
    );
    let (path, table) = process(&tree);
    assert_eq!(path, "foo");
    assert_eq!(table.get_string("text").unwrap(), "hi");
    assert_eq!(table.get_channel("channel").unwrap().name, "general");
    assert_eq!(table.get_integer("integer").unwrap(), 42);
}

#[test]
fn scenario_absent_option_fails_while_present_one_succeeds() {
    let tree = root("foo", vec![leaf("text", TypedValue::String("hi".to_string()))]);
    let (_path, table) = process(&tree);
    match table.get_integer("integer") {
        Err(Error::MissingValue { name }) => assert_eq!(name, "integer"),
        _ => panic!("expected MissingValue"),
    }
    assert_eq!(table.get_string("text").unwrap(), "hi");
}

#[test]
fn round_trip_returns_every_value_unchanged() {
    let tree = root(
        "foo",
        vec![
            leaf("text", TypedValue::String("words".to_string())),
            leaf("num", TypedValue::Integer(-7)),
            leaf("flag", TypedValue::Boolean(false)),
            leaf("who", TypedValue::User(user("alice", 11), Some(member("al")))),
            leaf("where", TypedValue::Channel(channel("general"))),
            leaf("which", TypedValue::Role(role("mods"))),
        ],
    );
    let (_path, table) = process(&tree);
    assert_eq!(table.get_string("text").unwrap(), "words");
    assert_eq!(table.get_integer("num").unwrap(), -7);
    assert_eq!(table.get_boolean("flag").unwrap(), false);
    let who = table.get_user("who").unwrap();
    assert_eq!(who.get_user().name, "alice");
    assert_eq!(who.get_user().id.0, 11);
    assert_eq!(who.get_member().unwrap().nick.as_deref(), Some("al"));
    assert_eq!(table.get_channel("where").unwrap().name, "general");
    assert_eq!(table.get_role("which").unwrap().name, "mods");
}

#[test]
fn every_accessor_reports_an_absent_name() {
    let tree = root("foo", Vec::new());
    let (_path, table) = process(&tree);
    match table.get_string("a") {
        Err(Error::MissingValue { name }) => assert_eq!(name, "a"),
        _ => panic!("expected MissingValue"),
    }
    match table.get_integer("b") {
        Err(Error::MissingValue { name }) => assert_eq!(name, "b"),
        _ => panic!("expected MissingValue"),
    }
    match table.get_boolean("c") {
        Err(Error::MissingValue { name }) => assert_eq!(name, "c"),
        _ => panic!("expected MissingValue"),
    }
    match table.get_user("d") {
        Err(Error::MissingValue { name }) => assert_eq!(name, "d"),
        _ => panic!("expected MissingValue"),
    }
    match table.get_channel("e") {
        Err(Error::MissingValue { name }) => assert_eq!(name, "e"),
        _ => panic!("expected MissingValue"),
    }
    match table.get_role("f") {
        Err(Error::MissingValue { name }) => assert_eq!(name, "f"),
        _ => panic!("expected MissingValue"),
    }
    match table.get_mentionable("g") {
        Err(Error::MissingValue { name }) => assert_eq!(name, "g"),
        _ => panic!("expected MissingValue"),
    }
}

#[test]
fn string_read_of_an_integer_reports_wrong_type() {
    let tree = root("foo", vec![leaf("n", TypedValue::Integer(5))]);
    let (_path, table) = process(&tree);
    match table.get_string("n") {
        Err(Error::WrongType { expected, found, name }) => {
            assert_eq!(expected, "String");
            assert_eq!(found, "Integer");
            assert_eq!(name, "n");
        },
        _ => panic!("expected WrongType"),
    }
}

#[test]
fn option_present_without_value_reports_missing() {
    let node = InteractionNode {
        name: "opt".to_string(),
        kind: OptionKind::String,
        children: Vec::new(),
        resolved: None,
    };
    let tree = root("foo", vec![node]);
    let (_path, table) = process(&tree);
    match table.get_string("opt") {
        Err(Error::MissingValue { name }) => assert_eq!(name, "opt"),
        _ => panic!("expected MissingValue"),
    }
}

#[test]
fn later_entry_wins_on_a_repeated_name() {
    let tree = root(
        "foo",
        vec![
            leaf("n", TypedValue::Integer(1)),
            leaf("n", TypedValue::Integer(2)),
        ],
    );
    let (_path, table) = process(&tree);
    assert_eq!(table.get_integer("n").unwrap(), 2);
}

#[test]
fn mentionable_accepts_user_and_role_shapes() {
    let tree = root(
        "foo",
        vec![
            leaf("u", TypedValue::User(user("bob", 5), None)),
            leaf("r", TypedValue::Role(role("here"))),
            leaf("b", TypedValue::Boolean(true)),
        ],
    );
    let (_path, table) = process(&tree);
    match table.get_mentionable("u") {
        Ok(Mentionable::UserOrMember(um)) => {
            assert_eq!(um.get_user().name, "bob");
            assert!(um.get_member().is_none());
        },
        _ => panic!("expected user-shaped mentionable"),
    }
    match table.get_mentionable("r") {
        Ok(Mentionable::Role(ro)) => assert_eq!(ro.name, "here"),
        _ => panic!("expected role-shaped mentionable"),
    }
    match table.get_mentionable("b") {
        Err(Error::WrongType { expected, found, name }) => {
            assert_eq!(expected, "Mentionable");
            assert_eq!(found, "Boolean");
            assert_eq!(name, "b");
        },
        _ => panic!("expected WrongType"),
    }
}

#[test]
fn chain_of_three_subcommands_keeps_order_and_single_spaces() {
    let tree = root(
        "top",
        vec![nested(
            "one",
            OptionKind::SubCommand,
            vec![nested(
                "two",
                OptionKind::SubCommand,
                vec![nested(
                    "three",
                    OptionKind::SubCommand,
                    vec![leaf("v", TypedValue::Boolean(true))],
                )],
            )],
        )],
    );
    let (path, table) = process(&tree);
    assert_eq!(path, "top one two three");
    assert_eq!(path.split(' ').count(), 4);
    assert_eq!(table.get_boolean("v").unwrap(), true);
}
