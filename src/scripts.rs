//! Page scripts for the interactions that run as JavaScript, and the
//! screenshot result. Every text that goes into a script is embedded as a
//! JSON string literal.

use vstd::prelude::*;

use crate::error::GatewayError;
use crate::json::{json_quote, json_quoted};
use crate::models::{LocalStorageState, ScreenshotResult};
use crate::text::{decimal_digits, decimal_string};

verus! {

fn quote(s: &str) -> (r: String)
    ensures
        r@ == json_quoted(s@),
{
    match json_quote(s) {
        Ok(t) => t,
        Err(_) => String::new(),
    }
}

fn join3(a: &str, b: &str, c: &str) -> (r: String)
    ensures
        r@ == a@ + b@ + c@,
{
    let mut r = String::from_str(a);
    r.append(b);
    r.append(c);
    r
}

/// The script that sets a select element's value and fires `change`.
pub open spec fn select_script_text(sel: Seq<char>, val: Seq<char>) -> Seq<char> {
    "(() => { const sel = "@ + sel + "; const val = "@ + val
        + "; const el = document.querySelector(sel); if (!el) throw new Error('Element not found: ' + sel); el.value = val; el.dispatchEvent(new Event('change', { bubbles: true })); return true; })()"@
}

/// Builds the script that selects `value` in the element `css_selector`.
pub fn select_script(css_selector: &str, value: &str) -> (r: String)
    ensures
        r@ == select_script_text(json_quoted(css_selector@), json_quoted(value@)),
{
    let sel = quote(css_selector);
    let val = quote(value);
    let mut r = join3("(() => { const sel = ", sel.as_str(), "; const val = ");
    r.append(val.as_str());
    r.append(
        "; const el = document.querySelector(sel); if (!el) throw new Error('Element not found: ' + sel); el.value = val; el.dispatchEvent(new Event('change', { bubbles: true })); return true; })()",
    );
    r
}

/// The text of a boolean in a script.
pub open spec fn bool_text(b: bool) -> Seq<char> {
    if b {
        "true"@
    } else {
        "false"@
    }
}

/// The script that clicks a checkbox or radio button unless it already
/// has the wanted state.
pub open spec fn check_script_text(sel: Seq<char>, checked: bool) -> Seq<char> {
    "(() => { const sel = "@ + sel
        + "; const el = document.querySelector(sel); if (!el) throw new Error('Element not found: ' + sel); if (el.checked !== "@
        + bool_text(checked) + ") { el.click(); } return el.checked; })()"@
}

/// Builds the script that sets the checked state of `css_selector`.
pub fn check_script(css_selector: &str, checked: bool) -> (r: String)
    ensures
        r@ == check_script_text(json_quoted(css_selector@), checked),
{
    let sel = quote(css_selector);
    let mut r = join3(
        "(() => { const sel = ",
        sel.as_str(),
        "; const el = document.querySelector(sel); if (!el) throw new Error('Element not found: ' + sel); if (el.checked !== ",
    );
    r.append(if checked { "true" } else { "false" });
    r.append(") { el.click(); } return el.checked; })()");
    r
}

/// A signed integer in decimal.
pub open spec fn signed_digits(x: int) -> Seq<char> {
    if x < 0 {
        "-"@ + decimal_digits((-x) as nat)
    } else {
        decimal_digits(x as nat)
    }
}

fn signed_string(x: i32) -> (r: String)
    ensures
        r@ == signed_digits(x as int),
{
    if x < 0 {
        let magnitude: usize = (-(x as i64)) as usize;
        let mut r = String::from_str("-");
        r.append(decimal_string(magnitude).as_str());
        r
    } else {
        decimal_string(x as usize)
    }
}

/// The script of a scroll: the element into view, or the window by an
/// offset when no element is given.
pub open spec fn scroll_script_text(sel: Option<Seq<char>>, x: i32, y: i32) -> Seq<char> {
    match sel {
        Some(s) => "(() => { const sel = "@ + s
            + "; const el = document.querySelector(sel); if (el) el.scrollIntoView({ behavior: 'instant', block: 'center' }); })()"@,
        None => "window.scrollBy("@ + signed_digits(x as int) + ", "@ + signed_digits(y as int)
            + ")"@,
    }
}

/// Builds the script that scrolls `css_selector` into view, or the window
/// by `(x, y)` when no selector is given.
pub fn scroll_script(css_selector: Option<&str>, x: i32, y: i32) -> (r: String)
    ensures
        css_selector is None ==> r@ == scroll_script_text(None, x, y),
        css_selector matches Some(c) ==> r@ == scroll_script_text(Some(json_quoted(c@)), x, y),
{
    match css_selector {
        Some(c) => {
            let sel = quote(c);
            join3(
                "(() => { const sel = ",
                sel.as_str(),
                "; const el = document.querySelector(sel); if (el) el.scrollIntoView({ behavior: 'instant', block: 'center' }); })()",
            )
        },
        None => {
            let mut r = join3("window.scrollBy(", signed_string(x).as_str(), ", ");
            r.append(signed_string(y).as_str());
            r.append(")");
            r
        },
    }
}

/// The script that checks that a selector names a file input.
pub open spec fn file_input_check_text(sel: Seq<char>) -> Seq<char> {
    "(() => { const sel = "@ + sel
        + "; const el = document.querySelector(sel); if (!el) throw new Error('Element not found: ' + sel); if (el.tagName !== 'INPUT' || el.type !== 'file') { throw new Error('Element is not a file input: ' + sel); } return true; })()"@
}

/// Builds the script that validates an upload target before any file is
/// handed to it.
pub fn file_input_check_script(css_selector: &str) -> (r: String)
    ensures
        r@ == file_input_check_text(json_quoted(css_selector@)),
{
    let sel = quote(css_selector);
    join3(
        "(() => { const sel = ",
        sel.as_str(),
        "; const el = document.querySelector(sel); if (!el) throw new Error('Element not found: ' + sel); if (el.tagName !== 'INPUT' || el.type !== 'file') { throw new Error('Element is not a file input: ' + sel); } return true; })()",
    )
}

/// Plans an upload: a source file that does not exist is `FileNotFound`,
/// decided before the page is touched; otherwise the script that
/// validates the target comes first, and the file is handed over only
/// once it passed.
pub fn upload_plan(css_selector: &str, absolute_path: &str, file_exists: bool) -> (r: Result<
    String,
    GatewayError,
>)
    ensures
        !file_exists ==> (r matches Err(GatewayError::FileNotFound(p)) && p@ == absolute_path@),
        file_exists ==> (r matches Ok(s) && s@ == file_input_check_text(
            json_quoted(css_selector@),
        )),
{
    if !file_exists {
        return Err(GatewayError::FileNotFound(String::from_str(absolute_path)));
    }
    Ok(file_input_check_script(css_selector))
}

/// The JSON object text of key/value pairs, in order.
pub open spec fn object_body(items: Seq<(Seq<char>, Seq<char>)>) -> Seq<char>
    decreases items.len(),
{
    if items.len() == 0 {
        Seq::empty()
    } else {
        let member = json_quoted(items.last().0) + ":"@ + json_quoted(items.last().1);
        if items.len() == 1 {
            member
        } else {
            object_body(items.drop_last()) + ","@ + member
        }
    }
}

/// The script that replaces an origin's local storage: it clears it, then
/// writes every saved entry, ignoring entries the page refuses.
pub open spec fn storage_restore_text(items: Seq<(Seq<char>, Seq<char>)>) -> Seq<char> {
    "(function() { const items = {"@ + object_body(items)
        + "}; try { localStorage.clear(); } catch (_) {} for (const [k, v] of Object.entries(items)) { try { localStorage.setItem(k, v); } catch (_) {} } })()"@
}

/// Builds the script that restores a saved local storage.
pub fn storage_restore_script(state: &LocalStorageState) -> (r: String)
    ensures
        r@ == storage_restore_text(
            state.items@.map_values(|e: (String, String)| (e.0@, e.1@)),
        ),
{
    let ghost items = state.items@.map_values(|e: (String, String)| (e.0@, e.1@));
    let mut body = String::new();
    let mut i: usize = 0;
    while i < state.items.len()
        invariant
            i <= state.items@.len(),
            items == state.items@.map_values(|e: (String, String)| (e.0@, e.1@)),
            body@ == object_body(items.subrange(0, i as int)),
        decreases state.items.len() - i,
    {
        let k = quote(state.items[i].0.as_str());
        let v = quote(state.items[i].1.as_str());
        proof {
            assert(items.subrange(0, i + 1).drop_last() =~= items.subrange(0, i as int));
        }
        if i > 0 {
            body.append(",");
        }
        body.append(k.as_str());
        body.append(":");
        body.append(v.as_str());
        proof {
            if i == 0 {
                assert(body@ =~= object_body(items.subrange(0, i + 1)));
            } else {
                assert(body@ =~= object_body(items.subrange(0, i + 1)));
            }
        }
        i = i + 1;
    }
    proof {
        assert(items.subrange(0, i as int) =~= items);
    }
    let r = join3(
        "(function() { const items = {",
        body.as_str(),
        "}; try { localStorage.clear(); } catch (_) {} for (const [k, v] of Object.entries(items)) { try { localStorage.setItem(k, v); } catch (_) {} } })()",
    );
    r
}

/// The standard base64 text of some bytes.
pub uninterp spec fn base64_of(b: Seq<u8>) -> Seq<char>;

/// Relies on `base64`'s standard engine `encode`: padded base64 with the
/// standard alphabet. Its size computation cannot overflow for an input
/// under half the address space.
#[verifier::external_body]
fn encode_base64(bytes: &[u8]) -> (r: String)
    requires
        bytes@.len() < usize::MAX / 2,
    ensures
        r@ == base64_of(bytes@),
{
    base64::Engine::encode(&base64::engine::general_purpose::STANDARD, bytes)
}

/// Width reported for screenshots.
pub const SCREENSHOT_WIDTH: u32 = 1920;

/// Height reported for screenshots.
pub const SCREENSHOT_HEIGHT: u32 = 1080;

/// The result of a screenshot: the file path when the image was written to
/// one, else the image itself in base64.
pub fn screenshot_result(png: &Vec<u8>, path: Option<String>) -> (r: ScreenshotResult)
    requires
        png@.len() < usize::MAX / 2,
    ensures
        r.width == SCREENSHOT_WIDTH,
        r.height == SCREENSHOT_HEIGHT,
        path is Some ==> r.path == path && r.data is None,
        path is None ==> r.path is None && (r.data matches Some(d) && d@ == base64_of(png@)),
{
    match path {
        Some(p) => ScreenshotResult {
            data: None,
            path: Some(p),
            width: SCREENSHOT_WIDTH,
            height: SCREENSHOT_HEIGHT,
        },
        None => ScreenshotResult {
            data: Some(encode_base64(png.as_slice())),
            path: None,
            width: SCREENSHOT_WIDTH,
            height: SCREENSHOT_HEIGHT,
        },
    }
}

} // verus!
