//! Values that the gateway hands to its callers.

use vstd::prelude::*;

verus! {

/// An element of an accessibility snapshot, with its `@eN` reference.
#[derive(Debug)]
pub struct AriaNode {
    /// Reference identifier (`@e1`, `@e2`, ...), unique within one snapshot.
    pub ref_id: String,
    /// Role (`button`, `textbox`, `link`, ...).
    pub role: String,
    /// Accessible name.
    pub name: Option<String>,
    /// Current value (for inputs).
    pub value: Option<String>,
    /// Whether the element can take focus.
    pub focusable: bool,
    /// Whether the element has focus.
    pub focused: bool,
    /// Child nodes; snapshots deliver a flat list, so this stays empty there.
    pub children: Vec<AriaNode>,
}

/// Number of nodes in a forest, children included.
pub open spec fn forest_size(nodes: Seq<AriaNode>) -> nat
    decreases nodes,
{
    if nodes.len() == 0 {
        0
    } else {
        forest_size(nodes.subrange(0, nodes.len() - 1)) + 1 + forest_size(
            nodes[nodes.len() - 1].children@,
        )
    }
}

/// Dropping nodes from the end never grows the forest.
pub proof fn lemma_forest_prefix(nodes: Seq<AriaNode>, k: int)
    requires
        0 <= k <= nodes.len(),
    ensures
        forest_size(nodes.subrange(0, k)) <= forest_size(nodes),
    decreases nodes.len() - k,
{
    if k == nodes.len() {
        assert(nodes.subrange(0, k) =~= nodes);
    } else {
        lemma_forest_prefix(nodes, k + 1);
        let longer = nodes.subrange(0, k + 1);
        assert(longer.subrange(0, k) =~= nodes.subrange(0, k));
    }
}

/// Counts the nodes of a forest, children included.
pub fn count_nodes(nodes: &[AriaNode]) -> (r: usize)
    requires
        forest_size(nodes@) <= usize::MAX,
    ensures
        r == forest_size(nodes@),
    decreases nodes@,
{
    let mut total: usize = 0;
    let mut i: usize = 0;
    while i < nodes.len()
        invariant
            i <= nodes.len(),
            total == forest_size(nodes@.subrange(0, i as int)),
            forest_size(nodes@) <= usize::MAX,
        decreases nodes.len() - i,
    {
        proof {
            lemma_forest_prefix(nodes@, i + 1);
            let longer = nodes@.subrange(0, i + 1);
            assert(longer.subrange(0, i as int) =~= nodes@.subrange(0, i as int));
            assert(decreases_to!(nodes@ => nodes@[i as int]));
        }
        let inner = count_nodes(nodes[i].children.as_slice());
        total = total + 1 + inner;
        i = i + 1;
    }
    assert(nodes@.subrange(0, nodes.len() as int) =~= nodes@);
    total
}

/// A snapshot of one page's accessibility tree.
#[derive(Debug)]
pub struct AriaSnapshot {
    /// Page URL.
    pub url: String,
    /// Page title.
    pub title: String,
    /// The nodes, as a flat list.
    pub nodes: Vec<AriaNode>,
    /// Total number of nodes.
    pub element_count: usize,
}

/// A flat forest has as many nodes as entries.
pub proof fn lemma_flat_forest_size(nodes: Seq<AriaNode>)
    requires
        forall|i: int| 0 <= i < nodes.len() ==> (#[trigger] nodes[i]).children@.len() == 0,
    ensures
        forest_size(nodes) == nodes.len(),
    decreases nodes.len(),
{
    if nodes.len() > 0 {
        let prefix = nodes.subrange(0, nodes.len() - 1);
        assert forall|i: int| 0 <= i < prefix.len() implies (#[trigger] prefix[i]).children@.len()
            == 0 by {
            assert(prefix[i] == nodes[i]);
        }
        lemma_flat_forest_size(prefix);
        let last_children = nodes[nodes.len() - 1].children@;
        assert(last_children.len() == 0);
        assert(forest_size(last_children) == 0);
        assert(forest_size(nodes) == forest_size(prefix) + 1 + forest_size(last_children));
    }
}

impl AriaSnapshot {
    /// A snapshot of a page from the flat node list of an extraction.
    pub fn new(url: String, title: String, nodes: Vec<AriaNode>) -> (r: Self)
        requires
            forall|i: int| 0 <= i < nodes@.len() ==> (#[trigger] nodes@[i]).children@.len() == 0,
        ensures
            r.url == url,
            r.title == title,
            r.nodes == nodes,
            r.element_count == nodes@.len(),
            r.element_count == forest_size(nodes@),
    {
        let len = nodes.len();
        proof {
            lemma_flat_forest_size(nodes@);
        }
        let all = nodes.as_slice();
        assert(all@ == nodes@);
        let element_count = count_nodes(all);
        assert(element_count == len);
        AriaSnapshot { url, title, nodes, element_count }
    }
}

/// A captured screenshot.
#[derive(Debug, Clone)]
pub struct ScreenshotResult {
    /// The PNG image in base64, when no file path was given.
    pub data: Option<String>,
    /// The file the image was written to, when one was given.
    pub path: Option<String>,
    /// Image width.
    pub width: u32,
    /// Image height.
    pub height: u32,
}

/// Where a navigation ended.
#[derive(Debug, Clone)]
pub struct NavigationResult {
    /// Final URL after navigation.
    pub url: String,
    /// Page title.
    pub title: String,
    /// HTTP status code, when known.
    pub status: Option<u16>,
}

/// A session as listed to callers.
#[derive(Debug, Clone)]
pub struct SessionInfo {
    /// Session identifier.
    pub id: String,
    /// Current URL.
    pub url: Option<String>,
    /// Whether this is the active session.
    pub active: bool,
}

/// Summary of one saved authentication state.
#[derive(Debug, Clone)]
pub struct SavedState {
    /// The name it was saved under.
    pub name: String,
    /// The distinct cookie domains, in order of first appearance.
    pub domains: Vec<String>,
    /// When it was saved (RFC 3339).
    pub saved_at: String,
}

/// The SameSite attribute of a cookie.
#[derive(Debug, Clone, Copy, PartialEq, Eq, Structural)]
pub enum SameSite {
    Strict,
    Lax,
    /// `SameSite=None`: sent on cross-site requests too.
    CrossSite,
}

/// A cookie as it is saved and restored.
#[derive(Debug, Clone)]
pub struct SerializableCookie {
    pub name: String,
    pub value: String,
    pub domain: String,
    pub path: String,
    /// Expiry in seconds since the Unix epoch, held as the bit pattern of the
    /// protocol's IEEE-754 double so that it survives a round trip exactly;
    /// `None` for a session cookie.
    pub expires_bits: Option<u64>,
    pub secure: bool,
    pub http_only: bool,
    pub same_site: Option<SameSite>,
}

/// The local storage of one origin, as key/value pairs with distinct keys.
#[derive(Debug, Clone)]
pub struct LocalStorageState {
    pub origin: String,
    pub items: Vec<(String, String)>,
}

/// Cookies and local storage captured from a session at one moment.
#[derive(Debug, Clone)]
pub struct AuthState {
    pub cookies: Vec<SerializableCookie>,
    pub local_storage: LocalStorageState,
    /// When it was captured (RFC 3339).
    pub saved_at: String,
}

/// Outcome of a click.
#[derive(Debug, Clone)]
pub struct ClickResult {
    /// Whether the click was performed.
    pub success: bool,
    /// The selector that was clicked.
    pub element: Option<String>,
}

/// Outcome of filling an input.
#[derive(Debug, Clone)]
pub struct FillResult {
    /// Whether the input was filled.
    pub success: bool,
    /// The text that was typed.
    pub value: String,
}

} // verus!
