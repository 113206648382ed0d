//! Element selectors: snapshot references (`@eN`) and raw CSS selectors.

use vstd::prelude::*;

use crate::text::{has_prefix, starts_with};

verus! {

/// Whether a selector is a snapshot reference (it begins with `@e`).
pub open spec fn is_ref_selector(s: Seq<char>) -> bool {
    has_prefix(s, "@e"@)
}

/// The CSS query that a selector stands for: a reference `@eN` becomes a
/// query on the hidden marker attribute that the snapshot tagged the element
/// with; any other selector is used as it is.
pub open spec fn resolved_selector(s: Seq<char>) -> Seq<char> {
    if is_ref_selector(s) {
        "[data-fgp-ref='"@ + s.subrange(1, s.len() as int) + "']"@
    } else {
        s
    }
}

/// Resolves a selector to the CSS query to run against the page.
pub fn resolve_selector(selector: &str) -> (r: String)
    ensures
        r@ == resolved_selector(selector@),
{
    if starts_with(selector, "@e") {
        proof {
            reveal_strlit("@e");
        }
        let n = selector.unicode_len();
        let mut out = String::from_str("[data-fgp-ref='");
        out.append(selector.substring_char(1, n));
        out.append("']");
        out
    } else {
        String::from_str(selector)
    }
}

} // verus!
