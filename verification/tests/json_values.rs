use cc_switch_web::json::{JsonItems, JsonMembers, JsonNumber, JsonValue};

fn text(s: &str) -> JsonValue {
    JsonValue::Str(s.to_string())
}

fn object(members: Vec<(&str, JsonValue)>) -> JsonValue {
    JsonValue::Object(JsonMembers::from_vec(
        members.into_iter().map(|(k, v)| (k.to_string(), v)).collect(),
    ))
}

#[test]
fn get_finds_a_member() {
    let v = object(vec![("a", text("x")), ("b", JsonValue::Bool(true))]);
    assert_eq!(v.get("b"), Some(&JsonValue::Bool(true)));
    assert_eq!(v.get("a"), Some(&text("x")));
}

#[test]
fn get_misses_absent_members_and_non_objects() {
    let v = object(vec![("a", text("x"))]);
    assert_eq!(v.get("c"), None);
    assert_eq!(text("a").get("a"), None);
    assert_eq!(JsonValue::Array(JsonItems::from_vec(vec![text("a")])).get("a"), None);
    assert_eq!(JsonValue::Null.get("a"), None);
}

#[test]
fn get_finds_the_first_of_repeated_keys() {
    let v = object(vec![("k", text("first")), ("k", text("second"))]);
    assert_eq!(v.get("k"), Some(&text("first")));
}

#[test]
fn integer_reads() {
    let small = JsonValue::Number(JsonNumber::PosInt(7));
    assert_eq!(small.as_i64(), Some(7));
    assert_eq!(small.as_u64(), Some(7));
    let big = JsonValue::Number(JsonNumber::PosInt(u64::MAX));
    assert_eq!(big.as_i64(), None);
    assert_eq!(big.as_u64(), Some(u64::MAX));
    let edge = JsonValue::Number(JsonNumber::PosInt(i64::MAX as u64));
    assert_eq!(edge.as_i64(), Some(i64::MAX));
    let negative = JsonValue::Number(JsonNumber::NegInt(-3));
    assert_eq!(negative.as_i64(), Some(-3));
    assert_eq!(negative.as_u64(), None);
    let fraction = JsonValue::Number(JsonNumber::Float("1.5".to_string()));
    assert_eq!(fraction.as_i64(), None);
    assert_eq!(fraction.as_u64(), None);
    assert_eq!(text("3").as_u64(), None);
}

#[test]
fn scalar_reads() {
    assert_eq!(text("x").as_str(), Some(&"x".to_string()));
    assert_eq!(JsonValue::Bool(true).as_str(), None);
    assert_eq!(JsonValue::Bool(false).as_bool(), Some(false));
    assert_eq!(text("true").as_bool(), None);
}

#[test]
fn deep_clone_is_an_equal_value() {
    let v = object(vec![
        ("a", JsonValue::Array(JsonItems::from_vec(vec![text("1"), JsonValue::Null]))),
        ("b", object(vec![("c", JsonValue::Number(JsonNumber::Float("0.5".to_string())))])),
        ("d", JsonValue::Number(JsonNumber::NegInt(-2))),
    ]);
    assert_eq!(v.deep_clone(), v);
}

#[test]
fn lists_keep_their_order() {
    let items = JsonItems::from_vec(vec![text("x"), text("y")]);
    assert_eq!(
        items,
        JsonItems::Item {
            value: Box::new(text("x")),
            rest: Box::new(JsonItems::Item {
                value: Box::new(text("y")),
                rest: Box::new(JsonItems::Empty)
            })
        }
    );
    assert_eq!(JsonMembers::from_vec(vec![]), JsonMembers::Empty);
}

#[test]
fn empty_object_has_no_members() {
    assert_eq!(JsonValue::empty_object(), JsonValue::Object(JsonMembers::Empty));
}
