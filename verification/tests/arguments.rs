use cc_switch_web::args::{
    arg, bool_arg, bool_arg_or, optional_i64_arg, optional_string_arg, parse_app, parse_provider,
    payload_arg, string_arg, u32_arg, RpcError,
};
use cc_switch_web::json::{JsonItems, JsonMembers, JsonNumber, JsonValue};

fn text(s: &str) -> JsonValue {
    JsonValue::Str(s.to_string())
}

fn object(members: Vec<(&str, JsonValue)>) -> JsonValue {
    JsonValue::Object(JsonMembers::from_vec(
        members.into_iter().map(|(k, v)| (k.to_string(), v)).collect(),
    ))
}

fn integer(n: u64) -> JsonValue {
    JsonValue::Number(JsonNumber::PosInt(n))
}

#[test]
fn arg_looks_up_members() {
    let a = object(vec![("id", text("p1"))]);
    assert_eq!(arg(&a, "id"), Some(&text("p1")));
    assert_eq!(arg(&a, "other"), None);
}

#[test]
fn string_arg_reads_strings_only() {
    let a = object(vec![("id", text("p1")), ("n", integer(3))]);
    assert_eq!(string_arg(&a, "id"), Ok("p1".to_string()));
    assert_eq!(string_arg(&a, "n"), Err(RpcError::MissingString("n")));
    assert_eq!(string_arg(&a, "gone"), Err(RpcError::MissingString("gone")));
    assert_eq!(RpcError::MissingString("id").message(), "Missing string argument: id");
}

#[test]
fn optional_string_arg_ignores_other_types() {
    let a = object(vec![("p", text("/tmp")), ("q", JsonValue::Null)]);
    assert_eq!(optional_string_arg(&a, "p"), Some("/tmp".to_string()));
    assert_eq!(optional_string_arg(&a, "q"), None);
    assert_eq!(optional_string_arg(&a, "r"), None);
}

#[test]
fn bool_args() {
    let a = object(vec![("enabled", JsonValue::Bool(false)), ("s", text("true"))]);
    assert_eq!(bool_arg(&a, "enabled"), Ok(false));
    assert_eq!(bool_arg(&a, "s"), Err(RpcError::MissingBoolean("s")));
    assert_eq!(
        RpcError::MissingBoolean("enabled").message(),
        "Missing boolean argument: enabled"
    );
    assert!(!bool_arg_or(&a, "enabled", true));
    assert!(bool_arg_or(&a, "s", true));
    assert!(!bool_arg_or(&a, "absent", false));
}

#[test]
fn optional_i64_arg_reads_integers_in_range() {
    let a = object(vec![
        ("start", integer(1_700_000_000)),
        ("neg", JsonValue::Number(JsonNumber::NegInt(-5))),
        ("huge", integer(u64::MAX)),
        ("frac", JsonValue::Number(JsonNumber::Float("2.5".to_string()))),
    ]);
    assert_eq!(optional_i64_arg(&a, "start"), Some(1_700_000_000));
    assert_eq!(optional_i64_arg(&a, "neg"), Some(-5));
    assert_eq!(optional_i64_arg(&a, "huge"), None);
    assert_eq!(optional_i64_arg(&a, "frac"), None);
    assert_eq!(optional_i64_arg(&a, "absent"), None);
}

#[test]
fn u32_arg_defaults_and_range() {
    let a = object(vec![
        ("page", integer(3)),
        ("max", integer(u32::MAX as u64)),
        ("over", integer(u32::MAX as u64 + 1)),
        ("neg", JsonValue::Number(JsonNumber::NegInt(-1))),
        ("str", text("7")),
    ]);
    assert_eq!(u32_arg(&a, "page", 0), Ok(3));
    assert_eq!(u32_arg(&a, "max", 0), Ok(u32::MAX));
    assert_eq!(u32_arg(&a, "over", 0), Err(RpcError::OutOfRangeU32("over")));
    assert_eq!(u32_arg(&a, "neg", 20), Ok(20));
    assert_eq!(u32_arg(&a, "str", 20), Ok(20));
    assert_eq!(u32_arg(&a, "absent", 20), Ok(20));
    assert_eq!(
        RpcError::OutOfRangeU32("pageSize").message(),
        "Argument out of range for u32: pageSize"
    );
}

#[test]
fn payload_args_are_copied_and_the_arguments_kept() {
    let a = object(vec![("provider", object(vec![("name", text("x"))])), ("app", text("gemini"))]);
    assert_eq!(parse_provider(&a), Ok(object(vec![("name", text("x"))])));
    assert_eq!(
        a,
        object(vec![("provider", object(vec![("name", text("x"))])), ("app", text("gemini"))])
    );
    assert_eq!(parse_provider(&a), Ok(object(vec![("name", text("x"))])));
    let b = object(vec![("app", text("gemini"))]);
    assert_eq!(parse_provider(&b), Err(RpcError::MissingArgument("provider")));
    assert_eq!(payload_arg(&b, "config"), Err(RpcError::MissingArgument("config")));
    assert_eq!(payload_arg(&a, "app"), Ok(text("gemini")));
    assert_eq!(RpcError::MissingArgument("provider").message(), "Missing provider argument");
    assert_eq!(parse_app(&a), Ok("gemini".to_string()));
}

#[test]
fn other_error_messages() {
    assert_eq!(
        RpcError::UnsupportedAuthProvider("gitlab".to_string()).message(),
        "Unsupported auth provider: gitlab"
    );
    assert_eq!(
        RpcError::NotImplemented("frobnicate".to_string()).message(),
        "Web RPC command is not implemented yet: frobnicate"
    );
}
