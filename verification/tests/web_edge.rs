use cc_switch_web::json::{JsonMembers, JsonValue};
use cc_switch_web::server::{
    default_bind, health_body, parse_bind_addrs, request_args, rpc_error_body, web_mode_requested,
    BindAction,
    BindOutcome, BindProgress, RPC_ERROR_STATUS, RPC_OK_STATUS,
};
use cc_switch_web::text::bind_address_parts;

fn text(s: &str) -> JsonValue {
    JsonValue::Str(s.to_string())
}

fn object(members: Vec<(&str, JsonValue)>) -> JsonValue {
    JsonValue::Object(JsonMembers::from_vec(
        members.into_iter().map(|(k, v)| (k.to_string(), v)).collect(),
    ))
}

#[test]
fn arguments_come_from_the_args_member_when_present() {
    let body = object(vec![("args", object(vec![("app", text("gemini"))])), ("app", text("codex"))]);
    assert_eq!(request_args(body), object(vec![("app", text("gemini"))]));
    let bare = object(vec![("app", text("codex"))]);
    assert_eq!(request_args(bare), object(vec![("app", text("codex"))]));
    assert_eq!(request_args(JsonValue::Null), JsonValue::Null);
    assert_eq!(request_args(object(vec![("args", JsonValue::Null)])), JsonValue::Null);
}

#[test]
fn error_and_health_bodies() {
    assert_eq!(
        rpc_error_body("Missing string argument: app".to_string()),
        object(vec![("error", text("Missing string argument: app"))])
    );
    assert_eq!(
        health_body(),
        object(vec![("ok", JsonValue::Bool(true)), ("name", text("cc-switch-web"))])
    );
    assert_eq!(RPC_OK_STATUS, 200);
    assert_eq!(RPC_ERROR_STATUS, 400);
}

#[test]
fn default_bind_is_the_loopback_address() {
    assert_eq!(default_bind(), "127.0.0.1:3001");
    assert_eq!(bind_address_parts(default_bind()), vec!["127.0.0.1:3001"]);
}

#[test]
fn bind_lists_split_on_commas_semicolons_and_spaces() {
    assert_eq!(
        bind_address_parts(" a:1 ;; b:2\t, c:3 "),
        vec!["a:1", "b:2", "c:3"]
    );
    assert_eq!(bind_address_parts("x\ty"), vec!["x\ty"]);
    assert_eq!(bind_address_parts("\n127.0.0.1:80\n"), vec!["127.0.0.1:80"]);
    assert_eq!(bind_address_parts("\u{3000}h:1"), vec!["h:1"]);
    assert_eq!(
        bind_address_parts("[::]:3650,0.0.0.0:3650"),
        vec!["[::]:3650", "0.0.0.0:3650"]
    );
    assert!(bind_address_parts("").is_empty());
    assert!(bind_address_parts(" ,; \t").is_empty());
}

fn port(part: String) -> Result<u32, String> {
    part.parse::<u32>().map_err(|err| err.to_string())
}

#[test]
fn bind_addresses_are_parsed_in_order_with_duplicates() {
    assert_eq!(parse_bind_addrs(" 1, 2;2  3 ", port), Ok(vec![1, 2, 2, 3]));
    assert_eq!(parse_bind_addrs("7", port), Ok(vec![7]));
}

#[test]
fn the_first_address_that_does_not_parse_refuses_the_list() {
    assert_eq!(
        parse_bind_addrs("1, nope, also-bad", port),
        Err("Invalid bind address 'nope': invalid digit found in string".to_string())
    );
}

#[test]
fn parsing_stops_at_the_first_bad_address() {
    let seen = std::cell::RefCell::new(Vec::new());
    let result = parse_bind_addrs("1,x,3", |part: String| {
        seen.borrow_mut().push(part.clone());
        port(part)
    });
    assert!(result.is_err());
    assert_eq!(*seen.borrow(), vec!["1".to_string(), "x".to_string()]);
}

#[test]
fn a_list_naming_no_address_is_refused() {
    let expected = Err("CC_SWITCH_WEB_BIND did not contain any bind address".to_string());
    assert_eq!(parse_bind_addrs("", port), expected);
    assert_eq!(parse_bind_addrs(" ,; ", port), expected);
}

#[test]
fn the_default_bind_parses_as_one_address() {
    assert_eq!(
        parse_bind_addrs(default_bind(), |part: String| Ok::<String, String>(part)),
        Ok(vec!["127.0.0.1:3001".to_string()])
    );
}

#[test]
fn address_in_use_is_quiet_only_after_a_listener_started() {
    let mut p = BindProgress::new();
    assert!(p.none_bound());
    assert_eq!(p.record(BindOutcome::AddressInUse), BindAction::SkipFailed);
    assert_eq!(p.record(BindOutcome::Listening), BindAction::Serve);
    assert_eq!(p.record(BindOutcome::AddressInUse), BindAction::SkipInUse);
    assert_eq!(p.record(BindOutcome::Failed), BindAction::SkipFailed);
    assert_eq!(p.bound, 1);
    assert!(!p.none_bound());
}

#[test]
fn no_listener_means_the_server_cannot_start() {
    let mut p = BindProgress::new();
    p.record(BindOutcome::Failed);
    p.record(BindOutcome::AddressInUse);
    assert!(p.none_bound());
}

#[test]
fn web_mode_is_switched_on_by_the_variable_or_the_argument() {
    let none: Vec<String> = vec![];
    let web = vec!["cc-switch".to_string(), "--web".to_string()];
    let other = vec!["cc-switch".to_string(), "--web=1".to_string()];
    assert!(web_mode_requested(Some("1"), &none));
    assert!(web_mode_requested(Some("true"), &none));
    assert!(!web_mode_requested(Some("0"), &none));
    assert!(!web_mode_requested(Some("yes"), &none));
    assert!(!web_mode_requested(None, &none));
    assert!(web_mode_requested(None, &web));
    assert!(web_mode_requested(Some("0"), &web));
    assert!(!web_mode_requested(None, &other));
}
