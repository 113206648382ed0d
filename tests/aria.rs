use fgp_browser::aria::{
    absent_if_empty, convert_node_ref, extract_aria_tree, extract_dom_interactives,
    has_role_or_name, is_focusable, is_interactive_node, is_interactive_role, json_as_bool,
    json_as_str, normalize_text, ref_id, AxJson, AxNodeData, AxProperty, AxPropertyName,
    DomSnapshotNode, ExtractionStep,
};
use fgp_browser::aria::{native_tag_plan, ref_marker};
use fgp_browser::models::{count_nodes, AriaNode};

fn text(s: &str) -> Option<AxJson> {
    Some(AxJson::Str(s.to_string()))
}

fn flag(name: AxPropertyName, b: bool) -> AxProperty {
    AxProperty { name, value: Some(AxJson::Bool(b)) }
}

fn ax(role: Option<AxJson>, name: Option<AxJson>, props: Option<Vec<AxProperty>>) -> AxNodeData {
    AxNodeData { role, name, value: None, properties: props, backend_node_id: None }
}

fn dom(role: &str, name: Option<&str>, value: Option<&str>) -> DomSnapshotNode {
    DomSnapshotNode {
        role: role.to_string(),
        name: name.map(|s| s.to_string()),
        value: value.map(|s| s.to_string()),
        focusable: true,
        focused: false,
    }
}

#[test]
fn test_interactive_roles() {
    let interactive_roles = vec![
        "button",
        "link",
        "textbox",
        "checkbox",
        "radio",
        "combobox",
        "listbox",
        "menuitem",
        "tab",
        "slider",
        "searchbox",
        "spinbutton",
        "switch",
        "option",
        "menuitemcheckbox",
        "menuitemradio",
        "treeitem",
        "heading",
        "img",
        "navigation",
        "main",
        "article",
        "section",
    ];
    for role in interactive_roles {
        assert!(is_interactive_role(role), "Role '{}' should be considered interactive", role);
    }
    let non_interactive = vec!["generic", "group", "document", "application"];
    for role in non_interactive {
        assert!(!is_interactive_role(role), "Role '{}' should NOT be considered interactive", role);
    }
}

#[test]
fn test_ref_id_generation() {
    let mut counter = 0usize;
    counter += 1;
    assert_eq!(ref_id(counter), "@e1");
    counter += 1;
    assert_eq!(ref_id(counter), "@e2");
    counter += 1;
    assert_eq!(ref_id(counter), "@e3");
}

#[test]
fn ref_ids_of_larger_numbers() {
    assert_eq!(ref_id(10), "@e10");
    assert_eq!(ref_id(907), "@e907");
    assert_eq!(ref_id(0), "@e0");
}

#[test]
fn test_json_as_str() {
    assert_eq!(json_as_str(&AxJson::Str("hello".to_string())), Some("hello"));
    assert_eq!(json_as_str(&AxJson::Other), None);
    assert_eq!(json_as_str(&AxJson::Bool(true)), None);
    assert_eq!(json_as_str(&AxJson::Other), None);
}

#[test]
fn test_json_as_bool() {
    assert_eq!(json_as_bool(&AxJson::Bool(true)), Some(true));
    assert_eq!(json_as_bool(&AxJson::Bool(false)), Some(false));
    assert_eq!(json_as_bool(&AxJson::Str("true".to_string())), None);
    assert_eq!(json_as_bool(&AxJson::Other), None);
    assert_eq!(json_as_bool(&AxJson::Other), None);
}

#[test]
fn node_classification() {
    let button = ax(text("button"), None, None);
    assert!(is_interactive_node(&button));
    let generic = ax(text("generic"), None, None);
    assert!(!is_interactive_node(&generic));
    assert!(has_role_or_name(&generic));
    assert!(!has_role_or_name(&ax(text(""), text(""), None)));
    assert!(!has_role_or_name(&ax(Some(AxJson::Other), Some(AxJson::Bool(true)), None)));
    let focusable = ax(None, None, Some(vec![flag(AxPropertyName::Focusable, true)]));
    assert!(is_focusable(&focusable));
    assert!(is_interactive_node(&focusable));
    assert!(!has_role_or_name(&focusable));
    let not_focusable = ax(None, None, Some(vec![flag(AxPropertyName::Focusable, false)]));
    assert!(!is_focusable(&not_focusable));
    let empty = ax(None, None, None);
    assert!(!is_interactive_node(&empty) && !has_role_or_name(&empty));
}

#[test]
fn convert_numbers_and_reads_fields() {
    let node = AxNodeData {
        role: Some(AxJson::Other),
        name: text("Search"),
        value: text("abc"),
        properties: Some(vec![
            flag(AxPropertyName::Focused, true),
            flag(AxPropertyName::Focusable, true),
        ]),
        backend_node_id: Some(17),
    };
    let mut counter = 4usize;
    let out = convert_node_ref(&node, &mut counter);
    assert_eq!(counter, 5);
    assert_eq!(out.ref_id, "@e5");
    assert_eq!(out.role, "unknown");
    assert_eq!(out.name.as_deref(), Some("Search"));
    assert_eq!(out.value.as_deref(), Some("abc"));
    assert!(out.focusable && out.focused);
    assert!(out.children.is_empty());
}

#[test]
fn native_pass_keeps_and_numbers_from_one() {
    let nodes = vec![
        ax(None, None, None),
        ax(text("link"), text("More information"), None),
        ax(None, None, Some(vec![flag(AxPropertyName::Other, true)])),
        ax(text("generic"), None, None),
    ];
    match extract_aria_tree(Some(&nodes)) {
        ExtractionStep::Done(out) => {
            assert_eq!(out.len(), 2);
            assert_eq!(out[0].ref_id, "@e1");
            assert_eq!(out[0].role, "link");
            assert_eq!(out[0].name.as_deref(), Some("More information"));
            assert_eq!(out[1].ref_id, "@e2");
            assert_eq!(out[1].role, "generic");
        }
        ExtractionStep::WalkDom => panic!("expected nodes"),
    }
}

#[test]
fn native_pass_falls_back_when_empty_or_missing() {
    assert!(matches!(extract_aria_tree(None), ExtractionStep::WalkDom));
    let nodes = vec![ax(None, None, None)];
    assert!(matches!(extract_aria_tree(Some(&nodes)), ExtractionStep::WalkDom));
    assert!(matches!(extract_aria_tree(Some(&vec![])), ExtractionStep::WalkDom));
}

#[test]
fn dom_pass_trims_and_drops_roleless() {
    let nodes = vec![
        dom("button", Some("  Submit Form \n"), None),
        dom("", Some("ignored"), None),
        dom("textbox", Some("   "), Some(" typed ")),
    ];
    let out = extract_dom_interactives(&nodes);
    assert_eq!(out.len(), 2);
    assert_eq!(out[0].ref_id, "@e1");
    assert_eq!(out[0].name.as_deref(), Some("Submit Form"));
    assert_eq!(out[0].value, None);
    assert!(out[0].focusable);
    assert_eq!(out[1].ref_id, "@e2");
    assert_eq!(out[1].role, "textbox");
    assert_eq!(out[1].name, None);
    assert_eq!(out[1].value.as_deref(), Some("typed"));
}

#[test]
fn snapshot_refs_unique_and_start_at_one() {
    let nodes: Vec<DomSnapshotNode> = (0..25).map(|_| dom("link", Some("x"), None)).collect();
    let out = extract_dom_interactives(&nodes);
    assert_eq!(out[0].ref_id, "@e1");
    let mut seen = std::collections::HashSet::new();
    for n in &out {
        assert!(seen.insert(n.ref_id.clone()));
    }
    assert_eq!(seen.len(), 25);
}

#[test]
fn text_normalisation() {
    assert_eq!(absent_if_empty(""), None);
    assert_eq!(absent_if_empty("a b"), Some("a b".to_string()));
    assert_eq!(normalize_text(&Some("  hi  ".to_string())), Some("hi".to_string()));
    assert_eq!(normalize_text(&Some("\t\n".to_string())), None);
    assert_eq!(normalize_text(&None), None);
}

#[test]
fn count_nodes_includes_children() {
    let leaf = |r: &str| AriaNode {
        ref_id: r.to_string(),
        role: "link".to_string(),
        name: None,
        value: None,
        focusable: false,
        focused: false,
        children: vec![],
    };
    let mut parent = leaf("@e1");
    parent.children = vec![leaf("@e2"), leaf("@e3")];
    let nodes = vec![parent, leaf("@e4")];
    assert_eq!(count_nodes(&nodes), 4);
    assert_eq!(count_nodes(&[]), 0);
}

#[test]
fn link_reference_resolves_and_numbering_restarts() {
    let page = vec![
        ax(text("RootWebArea"), text("Example Domain"), None),
        ax(text("link"), text("More information..."), None),
    ];
    let first = match extract_aria_tree(Some(&page)) {
        ExtractionStep::Done(out) => out,
        ExtractionStep::WalkDom => panic!("expected nodes"),
    };
    let link = first.iter().find(|n| n.role == "link").unwrap();
    assert!(link.name.as_deref().map_or(false, |n| !n.is_empty()));
    assert_eq!(link.ref_id, "@e2");
    assert_eq!(fgp_browser::selector::resolve_selector(&link.ref_id), "[data-fgp-ref='e2']");
    let after_click = vec![ax(text("heading"), text("IANA"), None)];
    let second = match extract_aria_tree(Some(&after_click)) {
        ExtractionStep::Done(out) => out,
        ExtractionStep::WalkDom => panic!("expected nodes"),
    };
    assert_eq!(second.len(), 1);
    assert_eq!(second[0].ref_id, "@e1");
    assert_eq!(second[0].role, "heading");
}

#[test]
fn snapshot_counts_its_nodes() {
    let nodes = extract_dom_interactives(&vec![dom("link", None, None), dom("button", None, None)]);
    let snap = fgp_browser::models::AriaSnapshot::new(
        "https://example.com/".to_string(),
        "Example Domain".to_string(),
        nodes,
    );
    assert_eq!(snap.element_count, 2);
    assert_eq!(snap.nodes.len(), 2);
    assert_eq!(snap.url, "https://example.com/");
}

#[test]
fn dom_walk_tags_what_references_resolve_to() {
    let script = fgp_browser::aria::DOM_WALK_SCRIPT;
    assert!(script.contains("setAttribute('data-fgp-ref', 'e' + nodes.length)"));
    assert!(script.contains("removeAttribute('data-fgp-ref')"));
}

#[test]
fn native_empty_texts_are_absent_and_do_not_count() {
    let only_empty_role = vec![ax(text(""), None, None)];
    assert!(matches!(extract_aria_tree(Some(&only_empty_role)), ExtractionStep::WalkDom));
    let nodes = vec![AxNodeData {
        role: text("button"),
        name: text(""),
        value: text(""),
        properties: None,
        backend_node_id: None,
    }];
    match extract_aria_tree(Some(&nodes)) {
        ExtractionStep::Done(out) => {
            assert_eq!(out[0].name, None);
            assert_eq!(out[0].value, None);
            assert_eq!(out[0].role, "button");
        }
        ExtractionStep::WalkDom => panic!("expected nodes"),
    }
}

#[test]
fn native_nodes_are_tagged_in_reference_order() {
    let mut kept = ax(text("link"), text("a"), None);
    kept.backend_node_id = Some(40);
    let mut dropped = ax(None, None, None);
    dropped.backend_node_id = Some(41);
    let second = ax(text("button"), None, None);
    let plan = native_tag_plan(&vec![kept, dropped, second]);
    assert_eq!(plan, vec![Some(40), None]);
    assert_eq!(ref_marker(1), "e1");
    assert_eq!(ref_marker(12), "e12");
}
