use fgp_browser::dispatch::{get_session_id, parse_command, Command, ParamValue, Params};
use fgp_browser::error::GatewayError;

fn s(v: &str) -> ParamValue {
    ParamValue::Str(v.to_string())
}

fn params(entries: Vec<(&str, ParamValue)>) -> Params {
    let mut p = Params::new();
    for (k, v) in entries {
        p.insert(k.to_string(), v);
    }
    p
}

#[test]
fn test_get_session_id_with_session_id() {
    let p = params(vec![("session_id", s("test-session-123")), ("url", s("https://example.com"))]);
    assert_eq!(get_session_id(&p), Some("test-session-123".to_string()));
}

#[test]
fn test_get_session_id_with_session_alias() {
    let p = params(vec![("session", s("my-session"))]);
    assert_eq!(get_session_id(&p), Some("my-session".to_string()));
}

#[test]
fn test_get_session_id_missing() {
    let p = params(vec![("url", s("https://example.com"))]);
    assert_eq!(get_session_id(&p), None);
}

#[test]
fn test_get_session_id_prefers_session_id_over_session() {
    let p = params(vec![("session_id", s("preferred")), ("session", s("fallback"))]);
    assert_eq!(get_session_id(&p), Some("preferred".to_string()));
}

#[test]
fn test_get_session_id_ignores_non_string() {
    let p = params(vec![("session_id", ParamValue::Int(123))]);
    assert_eq!(get_session_id(&p), None);
}

#[test]
fn later_insert_replaces_earlier() {
    let p = params(vec![("session_id", s("one")), ("session_id", s("two"))]);
    assert_eq!(get_session_id(&p), Some("two".to_string()));
}

#[test]
fn open_needs_url() {
    let p = params(vec![("url", s("https://example.com")), ("session", s("s1"))]);
    match parse_command("browser.open", &p).unwrap() {
        Command::Open { url, session_id } => {
            assert_eq!(url, "https://example.com");
            assert_eq!(session_id.as_deref(), Some("s1"));
        }
        other => panic!("unexpected {:?}", other),
    }
    let err = parse_command("open", &Params::new()).unwrap_err();
    assert_eq!(err, GatewayError::MissingParameter("url".to_string()));
}

#[test]
fn extension_methods_route_first() {
    match parse_command("browser.tabs.group", &Params::new()).unwrap() {
        Command::Extension { method } => assert_eq!(method, "browser.tabs.group"),
        other => panic!("unexpected {:?}", other),
    }
}

#[test]
fn unknown_method_is_reported() {
    let err = parse_command("browser.teleport", &Params::new()).unwrap_err();
    assert_eq!(err, GatewayError::UnknownMethod("browser.teleport".to_string()));
}

#[test]
fn press_combo_keeps_string_modifiers() {
    let p = params(vec![
        ("key", s("a")),
        ("modifiers", ParamValue::Array(vec![s("ctrl"), ParamValue::Int(3), s("Shift")])),
    ]);
    match parse_command("browser.press_combo", &p).unwrap() {
        Command::PressCombo { key, modifiers, session_id } => {
            assert_eq!(key, "a");
            assert_eq!(modifiers, vec!["ctrl".to_string(), "Shift".to_string()]);
            assert_eq!(session_id, None);
        }
        other => panic!("unexpected {:?}", other),
    }
}

#[test]
fn scroll_defaults_and_check_defaults() {
    match parse_command("scroll", &params(vec![("y", ParamValue::Int(-300))])).unwrap() {
        Command::Scroll { selector, x, y, .. } => {
            assert_eq!(selector, None);
            assert_eq!(x, 0);
            assert_eq!(y, -300);
        }
        other => panic!("unexpected {:?}", other),
    }
    match parse_command("browser.check", &params(vec![("selector", s("@e3"))])).unwrap() {
        Command::Check { selector, checked, .. } => {
            assert_eq!(selector, "@e3");
            assert!(checked);
        }
        other => panic!("unexpected {:?}", other),
    }
    let unchecked = params(vec![("selector", s("#a")), ("checked", ParamValue::Bool(false))]);
    assert!(matches!(
        parse_command("check", &unchecked).unwrap(),
        Command::Check { checked: false, .. }
    ));
}

#[test]
fn fill_needs_selector_and_value() {
    let err = parse_command("browser.fill", &params(vec![("selector", s("#q"))])).unwrap_err();
    assert_eq!(err, GatewayError::MissingParameter("value".to_string()));
    let err = parse_command("browser.fill", &params(vec![("value", s("x"))])).unwrap_err();
    assert_eq!(err, GatewayError::MissingParameter("selector".to_string()));
}

#[test]
fn session_commands_take_id_or_session_id() {
    match parse_command("browser.session.new", &params(vec![("session_id", s("w1"))])).unwrap() {
        Command::SessionNew { id } => assert_eq!(id, "w1"),
        other => panic!("unexpected {:?}", other),
    }
    let err = parse_command("session.close", &Params::new()).unwrap_err();
    assert_eq!(err, GatewayError::MissingParameter("id".to_string()));
    assert!(matches!(parse_command("health", &Params::new()).unwrap(), Command::Health));
    assert!(matches!(
        parse_command("browser.session.list", &Params::new()).unwrap(),
        Command::SessionList
    ));
    assert!(matches!(
        parse_command("browser.state.list", &Params::new()).unwrap(),
        Command::StateList
    ));
}
