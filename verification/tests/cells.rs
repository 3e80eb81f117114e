use slash_args::Error;
use slash_args::SlashValue;
use slash_args::TypedValue;
use slash_args::UserOrMember;
use serenity::model::user::User;

fn user(name: &str, id: u64) -> User {
    serde_json::from_str(&format!(
        r#"{{"id":{},"avatar":null,"bot":false,"discriminator":7,"username":"{}","public_flags":null,"banner":null,"accent_color":null}}"#,
        id, name
    ))
    .unwrap()
}

#[test]
fn expect_some_returns_the_value_or_missing() {
    let cell = SlashValue {
        inner: Some(TypedValue::Integer(3)),
        name: "n".to_string(),
    };
    match cell.expect_some() {
        Ok(TypedValue::Integer(i)) => assert_eq!(i, 3),
        _ => panic!("expected the inner integer"),
    }
    let empty = SlashValue { inner: None, name: "n".to_string() };
    match empty.expect_some() {
        Err(Error::MissingValue { name }) => assert_eq!(name, "n"),
        _ => panic!("expected MissingValue"),
    }
}

#[test]
fn cell_accessors_check_the_tag() {
    let cell = SlashValue {
        inner: Some(TypedValue::String("hi".to_string())),
        name: "s".to_string(),
    };
    assert_eq!(cell.get_string().unwrap(), "hi");
    match cell.get_integer() {
        Err(Error::WrongType { expected, found, name }) => {
            assert_eq!(expected, "Integer");
            assert_eq!(found, "String");
            assert_eq!(name, "s");
        },
        _ => panic!("expected WrongType"),
    }
}

#[test]
fn user_or_member_exposes_user_and_member() {
    let plain = UserOrMember::User(user("carol", 8));
    assert_eq!(plain.get_user().name, "carol");
    assert!(plain.get_member().is_none());
}

#[test]
fn error_messages_embed_the_field_name() {
    let missing = Error::MissingValue { name: "count".to_string() };
    assert_eq!(missing.message(), "Missing value in field `count`");
    let wrong = Error::WrongType {
        expected: "String".to_string(),
        found: "Integer".to_string(),
        name: "count".to_string(),
    };
    assert_eq!(
        wrong.message(),
        "Wrong type in field `count` (expected `String`, got `Integer`)"
    );
}
