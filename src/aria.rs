//! Accessibility snapshot extraction.
//!
//! Two strategies are tried in order. The first reads the browser's native
//! accessibility tree; when that is unavailable or keeps no node, the second
//! walks the DOM with a script. Either way the output is a flat list whose
//! nodes are numbered `@e1`, `@e2`, ... in order; numbering restarts with
//! every extraction.

use vstd::prelude::*;

use crate::models::AriaNode;
use crate::text::{decimal_digits, decimal_string, lemma_decimal_injective, str_eq};

verus! {

/// A property value of the native accessibility tree, reduced to what the
/// extractor reads.
#[derive(Debug, Clone)]
pub enum AxJson {
    Str(String),
    Bool(bool),
    /// Any other JSON value (number, null, array, object).
    Other,
}

/// The names of native node properties that the extractor reads.
#[derive(Debug, Clone, Copy, PartialEq, Eq, Structural)]
pub enum AxPropertyName {
    Focusable,
    Focused,
    Other,
}

/// One property of a native accessibility node.
#[derive(Debug, Clone)]
pub struct AxProperty {
    pub name: AxPropertyName,
    pub value: Option<AxJson>,
}

/// A node of the native accessibility tree: each field holds the JSON value
/// that the protocol delivered for it, if any.
#[derive(Debug, Clone)]
pub struct AxNodeData {
    pub role: Option<AxJson>,
    pub name: Option<AxJson>,
    pub value: Option<AxJson>,
    pub properties: Option<Vec<AxProperty>>,
    /// The DOM node the accessibility node stands for, when it has one.
    pub backend_node_id: Option<i64>,
}

/// An element found by the DOM walk.
#[derive(Debug, Clone)]
pub struct DomSnapshotNode {
    pub role: String,
    pub name: Option<String>,
    pub value: Option<String>,
    pub focusable: bool,
    pub focused: bool,
}

/// The reference identifier `@e<n>`.
pub open spec fn ref_id_text(n: nat) -> Seq<char> {
    "@e"@ + decimal_digits(n)
}

/// Distinct counters give distinct reference identifiers.
pub proof fn lemma_ref_ids_distinct(a: nat, b: nat)
    requires
        a != b,
    ensures
        ref_id_text(a) != ref_id_text(b),
{
    reveal_strlit("@e");
    if ref_id_text(a) == ref_id_text(b) {
        let (x, y) = (ref_id_text(a), ref_id_text(b));
        assert(x.subrange(2, x.len() as int) =~= decimal_digits(a));
        assert(y.subrange(2, y.len() as int) =~= decimal_digits(b));
        lemma_decimal_injective(a, b);
    }
}

/// Writes the reference identifier for counter value `n`.
pub fn ref_id(n: usize) -> (r: String)
    ensures
        r@ == ref_id_text(n as nat),
{
    let mut r = String::from_str("@e");
    let digits = decimal_string(n);
    r.append(digits.as_str());
    r
}

/// The roles that always make a native node part of the snapshot.
pub open spec fn interactive_role(r: Seq<char>) -> bool {
    r == "button"@ || r == "link"@ || r == "textbox"@ || r == "checkbox"@ || r == "radio"@
        || r == "combobox"@ || r == "listbox"@ || r == "menuitem"@ || r == "tab"@ || r
        == "slider"@ || r == "searchbox"@ || r == "spinbutton"@ || r == "switch"@ || r
        == "option"@ || r == "menuitemcheckbox"@ || r == "menuitemradio"@ || r == "treeitem"@
        || r == "heading"@ || r == "img"@ || r == "navigation"@ || r == "main"@ || r
        == "article"@ || r == "section"@
}

/// Tests a role against the allow-list of interactive and landmark roles.
pub fn is_interactive_role(role: &str) -> (r: bool)
    ensures
        r == interactive_role(role@),
{
    str_eq(role, "button") || str_eq(role, "link") || str_eq(role, "textbox") || str_eq(
        role,
        "checkbox",
    ) || str_eq(role, "radio") || str_eq(role, "combobox") || str_eq(role, "listbox") || str_eq(
        role,
        "menuitem",
    ) || str_eq(role, "tab") || str_eq(role, "slider") || str_eq(role, "searchbox") || str_eq(
        role,
        "spinbutton",
    ) || str_eq(role, "switch") || str_eq(role, "option") || str_eq(role, "menuitemcheckbox")
        || str_eq(role, "menuitemradio") || str_eq(role, "treeitem") || str_eq(role, "heading")
        || str_eq(role, "img") || str_eq(role, "navigation") || str_eq(role, "main") || str_eq(
        role,
        "article",
    ) || str_eq(role, "section")
}

/// The text of a JSON value, when it is a string.
pub open spec fn json_text(v: Option<AxJson>) -> Option<Seq<char>> {
    match v {
        Some(AxJson::Str(s)) => Some(s@),
        _ => None,
    }
}

/// Reads a JSON value as a string.
pub fn json_as_str(v: &AxJson) -> (r: Option<&str>)
    ensures
        r matches Some(s) ==> json_text(Some(*v)) == Some(s@),
        r is None ==> json_text(Some(*v)) is None,
{
    match v {
        AxJson::Str(s) => Some(s.as_str()),
        _ => None,
    }
}

/// Reads a JSON value as a boolean.
pub fn json_as_bool(v: &AxJson) -> (r: Option<bool>)
    ensures
        r == (match *v {
            AxJson::Bool(b) => Some(b),
            _ => None,
        }),
{
    match v {
        AxJson::Bool(b) => Some(*b),
        _ => None,
    }
}

/// Whether a property list holds the named property with the value `true`.
pub open spec fn has_true_property(props: Option<Vec<AxProperty>>, which: AxPropertyName) -> bool {
    match props {
        Some(ps) => exists|i: int|
            0 <= i < ps@.len() && (#[trigger] ps@[i]).name == which && ps@[i].value
                == Some(AxJson::Bool(true)),
        None => false,
    }
}

fn property_is_true(props: &Option<Vec<AxProperty>>, which: AxPropertyName) -> (r: bool)
    ensures
        r == has_true_property(*props, which),
{
    match props {
        None => false,
        Some(ps) => {
            let mut i: usize = 0;
            while i < ps.len()
                invariant
                    i <= ps@.len(),
                    *props == Some(*ps),
                    forall|k: int|
                        0 <= k < i ==> !((#[trigger] ps@[k]).name == which && ps@[k].value
                            == Some(AxJson::Bool(true))),
                decreases ps.len() - i,
            {
                let p = &ps[i];
                if p.name == which {
                    match &p.value {
                        Some(v) => {
                            if json_as_bool(v) == Some(true) {
                                assert(ps@[i as int].value == Some(AxJson::Bool(true)));
                                return true;
                            }
                        },
                        None => {},
                    }
                }
                i = i + 1;
            }
            false
        },
    }
}

/// Whether the native tree marks a node focusable.
pub open spec fn focusable_spec(node: AxNodeData) -> bool {
    has_true_property(node.properties, AxPropertyName::Focusable)
}

/// Whether a native node has an interactive role or is focusable.
pub open spec fn interactive_node(node: AxNodeData) -> bool {
    (match json_text(node.role) {
        Some(r) => interactive_role(r),
        None => false,
    }) || focusable_spec(node)
}

/// Whether a JSON value is a non-empty string.
pub open spec fn nonempty_text(v: Option<AxJson>) -> bool {
    json_text(v) matches Some(t) && t.len() > 0
}

/// Whether a native node exposes a non-empty role, name or value.
pub open spec fn exposes_role_or_name(node: AxNodeData) -> bool {
    nonempty_text(node.role) || nonempty_text(node.name) || nonempty_text(node.value)
}

/// Whether the native pass keeps a node.
pub open spec fn keeps_node(node: AxNodeData) -> bool {
    interactive_node(node) || exposes_role_or_name(node)
}

/// Tests whether the native tree marks a node focusable.
pub fn is_focusable(node: &AxNodeData) -> (r: bool)
    ensures
        r == focusable_spec(*node),
{
    property_is_true(&node.properties, AxPropertyName::Focusable)
}

/// Tests whether a native node has an interactive role or is focusable.
pub fn is_interactive_node(node: &AxNodeData) -> (r: bool)
    ensures
        r == interactive_node(*node),
{
    let role_match = match &node.role {
        Some(v) => match json_as_str(v) {
            Some(s) => is_interactive_role(s),
            None => false,
        },
        None => false,
    };
    role_match || is_focusable(node)
}

/// Tests whether a native node exposes a role, a name or a value.
pub fn has_role_or_name(node: &AxNodeData) -> (r: bool)
    ensures
        r == exposes_role_or_name(*node),
{
    has_text(&node.role) || has_text(&node.name) || has_text(&node.value)
}

fn has_text(v: &Option<AxJson>) -> (r: bool)
    ensures
        r == nonempty_text(*v),
{
    match v {
        Some(j) => match json_as_str(j) {
            Some(s) => s.unicode_len() > 0,
            None => false,
        },
        None => false,
    }
}

/// Optional text with empty text made absent.
pub open spec fn present_opt(o: Option<Seq<char>>) -> Option<Seq<char>> {
    match o {
        Some(t) => present_text(t),
        None => None,
    }
}

/// The view of an optional string.
pub open spec fn opt_text(o: Option<String>) -> Option<Seq<char>> {
    match o {
        Some(s) => Some(s@),
        None => None,
    }
}

/// The role reported for a native node: its role text, or `unknown`.
pub open spec fn role_or_unknown(node: AxNodeData) -> Seq<char> {
    match json_text(node.role) {
        Some(r) => r,
        None => "unknown"@,
    }
}

/// `out` is the snapshot node for native node `node` under number `n`.
pub open spec fn converts_to(node: AxNodeData, n: nat, out: AriaNode) -> bool {
    &&& out.ref_id@ == ref_id_text(n)
    &&& out.role@ == role_or_unknown(node)
    &&& opt_text(out.name) == present_opt(json_text(node.name))
    &&& opt_text(out.value) == present_opt(json_text(node.value))
    &&& out.focusable == has_true_property(node.properties, AxPropertyName::Focusable)
    &&& out.focused == has_true_property(node.properties, AxPropertyName::Focused)
    &&& out.children@.len() == 0
}

fn json_string(v: &Option<AxJson>) -> (r: Option<String>)
    ensures
        opt_text(r) == present_opt(json_text(*v)),
{
    match v {
        Some(j) => match json_as_str(j) {
            Some(s) => absent_if_empty(s),
            None => None,
        },
        None => None,
    }
}

/// Converts a native node into a snapshot node, taking the next number.
pub fn convert_node_ref(node: &AxNodeData, counter: &mut usize) -> (r: AriaNode)
    requires
        *old(counter) < usize::MAX,
    ensures
        *final(counter) == *old(counter) + 1,
        converts_to(*node, *final(counter) as nat, r),
{
    *counter = *counter + 1;
    let ref_id = ref_id(*counter);
    let role = match &node.role {
        Some(j) => match json_as_str(j) {
            Some(s) => String::from_str(s),
            None => String::from_str("unknown"),
        },
        None => String::from_str("unknown"),
    };
    let name = json_string(&node.name);
    let value = json_string(&node.value);
    let focusable = property_is_true(&node.properties, AxPropertyName::Focusable);
    let focused = property_is_true(&node.properties, AxPropertyName::Focused);
    AriaNode { ref_id, role, name, value, focusable, focused, children: Vec::new() }
}

/// The native nodes that the first strategy keeps, in order.
pub open spec fn kept_nodes(nodes: Seq<AxNodeData>) -> Seq<AxNodeData> {
    nodes.filter(|n: AxNodeData| keeps_node(n))
}

/// Every reference identifier of `out` is its position plus one; so they
/// are distinct and the first is `@e1`.
pub open spec fn numbered_in_order(out: Seq<AriaNode>) -> bool {
    forall|k: int| 0 <= k < out.len() ==> (#[trigger] out[k]).ref_id@ == ref_id_text((k + 1) as nat)
}

/// Reference identifiers numbered in order are distinct within the snapshot.
pub proof fn lemma_numbered_refs_unique(out: Seq<AriaNode>)
    requires
        numbered_in_order(out),
    ensures
        forall|i: int, j: int|
            0 <= i < out.len() && 0 <= j < out.len() && i != j ==> (#[trigger] out[i]).ref_id@
                != (#[trigger] out[j]).ref_id@,
        out.len() > 0 ==> out[0].ref_id@ == ref_id_text(1),
{
    assert forall|i: int, j: int|
        0 <= i < out.len() && 0 <= j < out.len() && i != j implies (#[trigger] out[i]).ref_id@
        != (#[trigger] out[j]).ref_id@ by {
        lemma_ref_ids_distinct((i + 1) as nat, (j + 1) as nat);
    }
}

/// What the first strategy produces from a native tree.
pub open spec fn native_result(nodes: Seq<AxNodeData>, out: Seq<AriaNode>) -> bool {
    let kept = kept_nodes(nodes);
    &&& out.len() == kept.len()
    &&& forall|k: int| 0 <= k < out.len() ==> converts_to(kept[k], (k + 1) as nat, #[trigger] out[k])
}

/// The marker attribute value of the element numbered `n`: the reference
/// `@e<n>` without its `@`, which is what a reference selector queries.
pub open spec fn marker_text(n: nat) -> Seq<char> {
    "e"@ + decimal_digits(n)
}

/// Writes the marker attribute value for number `n`.
pub fn ref_marker(n: usize) -> (r: String)
    ensures
        r@ == marker_text(n as nat),
        ref_id_text(n as nat).subrange(1, ref_id_text(n as nat).len() as int) == r@,
{
    proof {
        reveal_strlit("@e");
        reveal_strlit("e");
        assert(ref_id_text(n as nat).subrange(1, ref_id_text(n as nat).len() as int) =~= marker_text(
            n as nat,
        ));
    }
    let mut r = String::from_str("e");
    r.append(decimal_string(n).as_str());
    r
}

/// Which DOM nodes the native pass must tag, in the order of the kept
/// nodes: entry `k` is the DOM node of the node numbered `k + 1`, when it
/// has one, and is to carry `ref_marker(k + 1)`.
pub fn native_tag_plan(nodes: &Vec<AxNodeData>) -> (r: Vec<Option<i64>>)
    ensures
        r@ == kept_nodes(nodes@).map_values(|n: AxNodeData| n.backend_node_id),
{
    let mut out: Vec<Option<i64>> = Vec::new();
    let mut i: usize = 0;
    while i < nodes.len()
        invariant
            i <= nodes@.len(),
            out@ == kept_nodes(nodes@.subrange(0, i as int)).map_values(
                |n: AxNodeData| n.backend_node_id,
            ),
        decreases nodes.len() - i,
    {
        proof {
            let pre = nodes@.subrange(0, i as int);
            let next = nodes@.subrange(0, i + 1);
            assert(next.drop_last() =~= pre);
            reveal(Seq::filter);
        }
        let node = &nodes[i];
        if is_interactive_node(node) || has_role_or_name(node) {
            out.push(node.backend_node_id);
        }
        proof {
            assert(out@ =~= kept_nodes(nodes@.subrange(0, i + 1)).map_values(
                |n: AxNodeData| n.backend_node_id,
            ));
        }
        i = i + 1;
    }
    proof {
        assert(nodes@.subrange(0, nodes@.len() as int) =~= nodes@);
    }
    out
}

/// The next step of an extraction.
#[derive(Debug)]
pub enum ExtractionStep {
    /// The native tree gave these nodes; the snapshot is complete.
    Done(Vec<AriaNode>),
    /// The native tree was unavailable or kept no node: walk the DOM.
    WalkDom,
}

/// First strategy: keeps the native nodes that are interactive or expose a
/// role, a name or a value, numbering them from `@e1`. `None` stands for a
/// native tree that could not be read.
pub fn extract_aria_tree(native: Option<&Vec<AxNodeData>>) -> (r: ExtractionStep)
    ensures
        native is None ==> r is WalkDom,
        native matches Some(ns) ==> (kept_nodes(ns@).len() == 0 <==> r is WalkDom),
        native matches Some(ns) ==> (r matches ExtractionStep::Done(out) ==> native_result(
            ns@,
            out@,
        ) && numbered_in_order(out@)),
{
    match native {
        None => ExtractionStep::WalkDom,
        Some(nodes) => {
            let mut counter: usize = 0;
            let mut out: Vec<AriaNode> = Vec::new();
            let mut i: usize = 0;
            while i < nodes.len()
                invariant
                    i <= nodes@.len(),
                    counter == out@.len(),
                    counter <= i,
                    native_result(nodes@.subrange(0, i as int), out@),
                decreases nodes.len() - i,
            {
                proof {
                    let pre = nodes@.subrange(0, i as int);
                    let next = nodes@.subrange(0, i + 1);
                    assert(next.drop_last() =~= pre);
                    reveal(Seq::filter);
                }
                let node = &nodes[i];
                if is_interactive_node(node) || has_role_or_name(node) {
                    let converted = convert_node_ref(node, &mut counter);
                    out.push(converted);
                }
                i = i + 1;
            }
            proof {
                assert(nodes@.subrange(0, nodes@.len() as int) =~= nodes@);
            }
            if out.len() == 0 {
                ExtractionStep::WalkDom
            } else {
                ExtractionStep::Done(out)
            }
        },
    }
}

/// The page script of the DOM walk. It lists the elements that match a
/// fixed set of interactive tags and attributes, once each, with a role
/// (explicit `role`, else one derived from the tag, else `textbox` for
/// editable content), a name (`aria-label`, `alt`, `title` or the trimmed
/// text), the value of input-like elements, focusability (tab index at
/// least zero) and focus. Each listed element is tagged with the marker
/// attribute that a reference `@eN` resolves to, numbered as
/// `extract_dom_interactives` numbers it.
pub const DOM_WALK_SCRIPT: &'static str = "(() => { const roleFor = (el) => { const explicit = el.getAttribute && el.getAttribute('role'); if (explicit) return explicit; const tag = el.tagName ? el.tagName.toLowerCase() : ''; if (tag === 'a') return 'link'; if (tag === 'button') return 'button'; if (tag === 'img') return 'img'; if (tag === 'nav') return 'navigation'; if (tag === 'main') return 'main'; if (tag === 'article') return 'article'; if (tag === 'section') return 'section'; if (tag === 'option') return 'option'; if (tag === 'select') return 'combobox'; if (tag === 'textarea') return 'textbox'; if (tag === 'input') { const t = (el.getAttribute('type') || 'text').toLowerCase(); if (t === 'checkbox') return 'checkbox'; if (t === 'radio') return 'radio'; if (t === 'range') return 'slider'; if (t === 'search') return 'searchbox'; if (t === 'number') return 'spinbutton'; return 'textbox'; } if (tag && tag.startsWith('h')) return 'heading'; if (el.isContentEditable) return 'textbox'; return null; }; const nameFor = (el) => { const label = el.getAttribute && el.getAttribute('aria-label'); if (label) return label; const alt = el.getAttribute && el.getAttribute('alt'); if (alt) return alt; const title = el.getAttribute && el.getAttribute('title'); if (title) return title; const text = (el.textContent || '').trim(); return text.length ? text : null; }; const selector = ['a', 'button', 'input', 'select', 'textarea', 'option', '[role]', 'img', 'nav', 'main', 'article', 'section', 'h1', 'h2', 'h3', 'h4', 'h5', 'h6', '[contenteditable]'].join(','); for (const old of document.querySelectorAll('[data-fgp-ref]')) { old.removeAttribute('data-fgp-ref'); } const nodes = []; const seen = new Set(); for (const el of document.querySelectorAll(selector)) { if (seen.has(el)) continue; seen.add(el); const role = roleFor(el); if (!role) continue; const name = nameFor(el); const value = 'value' in el ? el.value : null; nodes.push({ role, name, value, focusable: el.tabIndex >= 0, focused: document.activeElement === el }); el.setAttribute('data-fgp-ref', 'e' + nodes.length); } return nodes; })()";

/// What `str::trim` leaves of a text.
pub uninterp spec fn trim_of(s: Seq<char>) -> Seq<char>;

/// Relies on `str::trim`: the text without its leading and trailing
/// whitespace.
#[verifier::external_body]
fn trim_text(s: &str) -> (r: &str)
    ensures
        r@ == trim_of(s@),
{
    s.trim()
}

/// Text that is present only when it is not empty.
pub open spec fn present_text(t: Seq<char>) -> Option<Seq<char>> {
    if t.len() == 0 {
        None
    } else {
        Some(t)
    }
}

/// A trimmed optional text, with empty text made absent.
pub open spec fn normalized_text(o: Option<Seq<char>>) -> Option<Seq<char>> {
    match o {
        Some(t) => present_text(trim_of(t)),
        None => None,
    }
}

/// Turns text that has already been trimmed into an optional value: empty
/// text is absent.
pub fn absent_if_empty(trimmed: &str) -> (r: Option<String>)
    ensures
        opt_text(r) == present_text(trimmed@),
{
    if trimmed.unicode_len() == 0 {
        None
    } else {
        Some(String::from_str(trimmed))
    }
}

/// Trims an optional text and makes it absent when nothing is left.
pub fn normalize_text(o: &Option<String>) -> (r: Option<String>)
    ensures
        opt_text(r) == normalized_text(opt_text(*o)),
{
    match o {
        Some(t) => absent_if_empty(trim_text(t.as_str())),
        None => None,
    }
}

/// `out` is the snapshot node for DOM element `node` under number `n`.
pub open spec fn dom_converts_to(node: DomSnapshotNode, n: nat, out: AriaNode) -> bool {
    &&& out.ref_id@ == ref_id_text(n)
    &&& out.role@ == node.role@
    &&& opt_text(out.name) == normalized_text(opt_text(node.name))
    &&& opt_text(out.value) == normalized_text(opt_text(node.value))
    &&& out.focusable == node.focusable
    &&& out.focused == node.focused
    &&& out.children@.len() == 0
}

/// The DOM elements that the second strategy keeps: those with a role.
pub open spec fn kept_dom_nodes(nodes: Seq<DomSnapshotNode>) -> Seq<DomSnapshotNode> {
    nodes.filter(|n: DomSnapshotNode| n.role@.len() > 0)
}

/// What the second strategy produces from the elements of a DOM walk.
pub open spec fn dom_result(nodes: Seq<DomSnapshotNode>, out: Seq<AriaNode>) -> bool {
    let kept = kept_dom_nodes(nodes);
    &&& out.len() == kept.len()
    &&& forall|k: int|
        0 <= k < out.len() ==> dom_converts_to(kept[k], (k + 1) as nat, #[trigger] out[k])
}

/// Second strategy: turns the elements of a DOM walk into snapshot nodes,
/// dropping those without a role and numbering the rest from `@e1`.
pub fn extract_dom_interactives(nodes: &Vec<DomSnapshotNode>) -> (r: Vec<AriaNode>)
    ensures
        dom_result(nodes@, r@),
        numbered_in_order(r@),
{
    let mut counter: usize = 0;
    let mut out: Vec<AriaNode> = Vec::new();
    let mut i: usize = 0;
    while i < nodes.len()
        invariant
            i <= nodes@.len(),
            counter == out@.len(),
            counter <= i,
            dom_result(nodes@.subrange(0, i as int), out@),
        decreases nodes.len() - i,
    {
        proof {
            let pre = nodes@.subrange(0, i as int);
            let next = nodes@.subrange(0, i + 1);
            assert(next.drop_last() =~= pre);
            reveal(Seq::filter);
        }
        let node = &nodes[i];
        if node.role.as_str().unicode_len() > 0 {
            counter = counter + 1;
            let converted = AriaNode {
                ref_id: ref_id(counter),
                role: String::from_str(node.role.as_str()),
                name: normalize_text(&node.name),
                value: normalize_text(&node.value),
                focusable: node.focusable,
                focused: node.focused,
                children: Vec::new(),
            };
            out.push(converted);
        }
        i = i + 1;
    }
    proof {
        assert(nodes@.subrange(0, nodes@.len() as int) =~= nodes@);
    }
    out
}

} // verus!
