use fgp_browser::error::GatewayError;
use fgp_browser::models::LocalStorageState;
use fgp_browser::scripts::{
    check_script, file_input_check_script, screenshot_result, scroll_script, select_script,
    storage_restore_script, upload_plan,
};
use fgp_browser::selector::resolve_selector;

#[test]
fn selector_references_are_rewritten() {
    assert_eq!(resolve_selector("@e7"), "[data-fgp-ref='e7']");
    assert_eq!(resolve_selector("@e12"), "[data-fgp-ref='e12']");
}

#[test]
fn raw_selectors_pass_through() {
    assert_eq!(resolve_selector("anyRawSelector"), "anyRawSelector");
    assert_eq!(resolve_selector("#login > button"), "#login > button");
    assert_eq!(resolve_selector("@"), "@");
    assert_eq!(resolve_selector(""), "");
}

#[test]
fn select_script_quotes_its_inputs() {
    let s = select_script("[data-fgp-ref='e1']", "it's \"x\"");
    assert!(s.contains("const sel = \"[data-fgp-ref='e1']\";"));
    assert!(s.contains("const val = \"it's \\\"x\\\"\";"));
    assert!(s.contains("dispatchEvent(new Event('change'"));
}

#[test]
fn check_script_embeds_state() {
    let s = check_script("#agree", false);
    assert!(s.contains("const sel = \"#agree\";"));
    assert!(s.contains("el.checked !== false"));
    assert!(check_script("#agree", true).contains("el.checked !== true"));
}

#[test]
fn scroll_scripts() {
    assert_eq!(scroll_script(None, 0, -250), "window.scrollBy(0, -250)");
    assert_eq!(
        scroll_script(None, -2147483648, 2147483647),
        "window.scrollBy(-2147483648, 2147483647)"
    );
    let s = scroll_script(Some("#end"), 5, 5);
    assert!(s.contains("const sel = \"#end\";"));
    assert!(s.contains("scrollIntoView"));
}

#[test]
fn upload_target_is_validated() {
    let s = file_input_check_script("input[type=file]");
    assert!(s.contains("const sel = \"input[type=file]\";"));
    assert!(s.contains("el.type !== 'file'"));
}

#[test]
fn storage_restore_clears_then_sets() {
    let st = LocalStorageState {
        origin: "https://a.org".to_string(),
        items: vec![
            ("token".to_string(), "abc".to_string()),
            ("q\"uote".to_string(), "1".to_string()),
        ],
    };
    let s = storage_restore_script(&st);
    assert!(s.starts_with("(function() { const items = {\"token\":\"abc\",\"q\\\"uote\":\"1\"};"));
    let clear = s.find("localStorage.clear()").unwrap();
    let set = s.find("localStorage.setItem(k, v)").unwrap();
    assert!(clear < set);
    let empty = LocalStorageState { origin: String::new(), items: vec![] };
    assert!(storage_restore_script(&empty).contains("const items = {};"));
}

#[test]
fn screenshot_in_base64_or_on_disk() {
    let r = screenshot_result(&vec![1, 2, 3], None);
    assert_eq!(r.data.as_deref(), Some("AQID"));
    assert_eq!(r.path, None);
    assert_eq!((r.width, r.height), (1920, 1080));
    let hello = screenshot_result(&b"hello".to_vec(), None);
    assert_eq!(hello.data.as_deref(), Some("aGVsbG8="));
    let on_disk = screenshot_result(&vec![9], Some("/tmp/shot.png".to_string()));
    assert_eq!(on_disk.data, None);
    assert_eq!(on_disk.path.as_deref(), Some("/tmp/shot.png"));
}

#[test]
fn upload_of_missing_file_fails_first() {
    assert_eq!(
        upload_plan("#f", "/no/such/file.txt", false),
        Err(GatewayError::FileNotFound("/no/such/file.txt".to_string()))
    );
    let s = upload_plan("#f", "/tmp/a.txt", true).unwrap();
    assert!(s.contains("const sel = \"#f\";"));
}
