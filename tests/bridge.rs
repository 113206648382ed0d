use std::collections::HashMap;

use fgp_browser::bridge::{
    extension_method_name, is_extension_method, ConnectionState, ExtensionBridge,
    ExtensionResponse, DEFAULT_WS_PORT, REQUEST_TIMEOUT_SECS,
};
use fgp_browser::error::GatewayError;

fn response(id: &str, ok: bool) -> ExtensionResponse {
    ExtensionResponse { id: id.to_string(), ok, result: None, error: None }
}

#[test]
fn test_is_extension_method() {
    assert!(is_extension_method("browser.tabs.group"));
    assert!(is_extension_method("browser.tabGroups.update"));
    assert!(is_extension_method("browser.cookies.getAll"));
    assert!(!is_extension_method("browser.open"));
    assert!(!is_extension_method("browser.snapshot"));
}

#[test]
fn test_extension_method_name() {
    assert_eq!(extension_method_name("browser.tabs.group"), "tabs.group");
    assert_eq!(extension_method_name("browser.cookies.getAll"), "cookies.getAll");
    assert_eq!(extension_method_name("tabs.group"), "tabs.group");
}

#[test]
fn new_bridge_defaults() {
    let b: ExtensionBridge<u32> = ExtensionBridge::new(None);
    assert_eq!(b.port(), DEFAULT_WS_PORT);
    assert_eq!(b.port(), 9223);
    assert_eq!(b.connection_state(), ConnectionState::Disconnected);
    assert!(!b.is_connected());
    let b2: ExtensionBridge<u32> = ExtensionBridge::new(Some(9999));
    assert_eq!(b2.port(), 9999);
    assert_eq!(REQUEST_TIMEOUT_SECS, 30);
}

#[test]
fn call_without_connection_fails_at_once() {
    let mut b: ExtensionBridge<u32> = ExtensionBridge::new(None);
    let r = b.begin_call("id-1".to_string(), "browser.tabs.group", HashMap::new(), 7);
    assert!(matches!(r, Err(GatewayError::NotConnected)));
    let r2 = b.call("browser.tabs.group", HashMap::new(), 7);
    assert!(matches!(r2, Err(GatewayError::NotConnected)));
    // nothing was registered: a response under that id is dropped
    assert!(b.complete(response("id-1", true)).is_none());
}

#[test]
fn response_routes_to_its_slot_once() {
    let mut b: ExtensionBridge<u32> = ExtensionBridge::new(None);
    b.on_connected();
    assert!(b.is_connected());
    let req = b.begin_call("a".to_string(), "browser.tabs.query", HashMap::new(), 1).unwrap();
    assert_eq!(req.id, "a");
    assert_eq!(req.method, "browser.tabs.query");
    b.begin_call("b".to_string(), "browser.version", HashMap::new(), 2).unwrap();
    let (slot, resp) = b.complete(response("b", true)).unwrap();
    assert_eq!(slot, 2);
    assert_eq!(resp.id, "b");
    assert!(b.complete(response("b", true)).is_none());
    assert!(b.complete(response("unknown", true)).is_none());
    let (slot_a, _) = b.complete(response("a", true)).unwrap();
    assert_eq!(slot_a, 1);
}

#[test]
fn timeout_removes_the_slot() {
    let mut b: ExtensionBridge<u32> = ExtensionBridge::new(None);
    b.on_connected();
    b.begin_call("late".to_string(), "browser.version", HashMap::new(), 5).unwrap();
    assert!(matches!(b.expire("late"), GatewayError::RequestTimeout));
    // the late response finds no slot
    assert!(b.complete(response("late", true)).is_none());
}

#[test]
fn random_ids_are_hyphenated_uuids() {
    let mut b: ExtensionBridge<u32> = ExtensionBridge::new(None);
    b.on_connected();
    let r1 = b.call("browser.version", HashMap::new(), 1).unwrap();
    let r2 = b.call("browser.version", HashMap::new(), 2).unwrap();
    assert_eq!(r1.id.len(), 36);
    assert_ne!(r1.id, r2.id);
    b.on_disconnected();
    assert_eq!(b.connection_state(), ConnectionState::Disconnected);
}

#[test]
fn response_values_and_errors() {
    let ok = ExtensionResponse {
        id: "x".to_string(),
        ok: true,
        result: Some(serde_json::Value::Bool(true)),
        error: None,
    };
    assert_eq!(ExtensionBridge::<u32>::response_to_value(ok).unwrap(), serde_json::Value::Bool(true));
    let empty = response("x", true);
    assert_eq!(ExtensionBridge::<u32>::response_to_value(empty).unwrap(), serde_json::Value::Null);
    let failed = ExtensionResponse {
        id: "x".to_string(),
        ok: false,
        result: None,
        error: Some("GROUP_NOT_FOUND".to_string()),
    };
    assert_eq!(
        ExtensionBridge::<u32>::response_to_value(failed).unwrap_err(),
        GatewayError::Extension("GROUP_NOT_FOUND".to_string())
    );
    assert_eq!(
        ExtensionBridge::<u32>::response_to_value(response("x", false)).unwrap_err(),
        GatewayError::Extension("Unknown error".to_string())
    );
}
