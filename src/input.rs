//! Keyboard input: single key presses and key combinations with modifiers.

use vstd::prelude::*;

use crate::text::str_eq;

verus! {

/// What `str::to_lowercase` makes of a text.
pub uninterp spec fn lower_of(s: Seq<char>) -> Seq<char>;

/// Relies on `str::to_lowercase`: the lowercase form of a text, which
/// depends on its characters alone.
#[verifier::external_body]
fn lowercase(s: &str) -> (r: String)
    ensures
        r@ == lower_of(s@),
{
    s.to_lowercase()
}

/// The modifier bit of a lowercase modifier name: Ctrl 1, Shift 2, Alt 4,
/// Meta 8; any other name contributes nothing.
pub open spec fn modifier_value(name: Seq<char>) -> i64 {
    if name == "ctrl"@ || name == "control"@ {
        1
    } else if name == "shift"@ {
        2
    } else if name == "alt"@ {
        4
    } else if name == "meta"@ || name == "cmd"@ || name == "command"@ {
        8
    } else {
        0
    }
}

/// The bit of an already lowercased modifier name.
pub fn modifier_bit(lowered: &str) -> (r: i64)
    ensures
        r == modifier_value(lowered@),
{
    if str_eq(lowered, "ctrl") || str_eq(lowered, "control") {
        1
    } else if str_eq(lowered, "shift") {
        2
    } else if str_eq(lowered, "alt") {
        4
    } else if str_eq(lowered, "meta") || str_eq(lowered, "cmd") || str_eq(lowered, "command") {
        8
    } else {
        0
    }
}

/// Whether some name of the list, lowercased, stands for the modifier `bit`.
pub open spec fn names_modifier(mods: Seq<Seq<char>>, bit: i64) -> bool {
    exists|i: int| 0 <= i < mods.len() && modifier_value(lower_of(#[trigger] mods[i])) == bit
}

/// The combined modifier mask of a list of modifier names (case does not
/// matter; unknown names are ignored).
pub open spec fn mask_of(mods: Seq<Seq<char>>) -> i64 {
    ((if names_modifier(mods, 1) {
        1i64
    } else {
        0i64
    }) + (if names_modifier(mods, 2) {
        2i64
    } else {
        0i64
    }) + (if names_modifier(mods, 4) {
        4i64
    } else {
        0i64
    }) + (if names_modifier(mods, 8) {
        8i64
    } else {
        0i64
    })) as i64
}

/// The views of a list of strings.
pub open spec fn texts(v: Seq<String>) -> Seq<Seq<char>> {
    v.map_values(|s: String| s@)
}

/// A mask is non-zero as soon as one name is a known modifier.
pub proof fn lemma_mask_nonzero(mods: Seq<Seq<char>>, i: int)
    requires
        0 <= i < mods.len(),
        modifier_value(lower_of(mods[i])) != 0,
    ensures
        mask_of(mods) != 0,
        1 <= mask_of(mods) <= 15,
{
    let v = modifier_value(lower_of(mods[i]));
    assert(names_modifier(mods, v));
}

/// Computes the combined modifier mask of a list of modifier names.
pub fn modifier_mask(modifiers: &Vec<String>) -> (r: i64)
    ensures
        r == mask_of(texts(modifiers@)),
{
    let ghost mods = texts(modifiers@);
    let mut ctrl = false;
    let mut shift = false;
    let mut alt = false;
    let mut meta = false;
    let mut i: usize = 0;
    while i < modifiers.len()
        invariant
            i <= modifiers@.len(),
            mods == texts(modifiers@),
            ctrl == exists|k: int| 0 <= k < i && modifier_value(lower_of(#[trigger] mods[k])) == 1,
            shift == exists|k: int| 0 <= k < i && modifier_value(lower_of(#[trigger] mods[k])) == 2,
            alt == exists|k: int| 0 <= k < i && modifier_value(lower_of(#[trigger] mods[k])) == 4,
            meta == exists|k: int| 0 <= k < i && modifier_value(lower_of(#[trigger] mods[k])) == 8,
        decreases modifiers.len() - i,
    {
        let lowered = lowercase(modifiers[i].as_str());
        let bit = modifier_bit(lowered.as_str());
        proof {
            assert(mods[i as int] == modifiers@[i as int]@);
        }
        if bit == 1 {
            ctrl = true;
        } else if bit == 2 {
            shift = true;
        } else if bit == 4 {
            alt = true;
        } else if bit == 8 {
            meta = true;
        }
        i = i + 1;
    }
    let mut mask: i64 = 0;
    if ctrl {
        mask = mask + 1;
    }
    if shift {
        mask = mask + 2;
    }
    if alt {
        mask = mask + 4;
    }
    if meta {
        mask = mask + 8;
    }
    mask
}

/// Whether a key event presses or releases its key.
#[derive(Debug, Clone, Copy, PartialEq, Eq, Structural)]
pub enum KeyEventKind {
    KeyDown,
    KeyUp,
}

/// One key event to dispatch to the page.
#[derive(Debug, Clone)]
pub struct KeyEvent {
    pub kind: KeyEventKind,
    pub key: String,
    /// The modifier mask, when the event carries one.
    pub modifiers: Option<i64>,
}

/// `events` is a key-down then a key-up of `key`, both with `modifiers`.
pub open spec fn is_press_pair(events: Seq<KeyEvent>, key: Seq<char>, modifiers: Option<i64>) -> bool {
    &&& events.len() == 2
    &&& events[0].kind == KeyEventKind::KeyDown
    &&& events[1].kind == KeyEventKind::KeyUp
    &&& events[0].key@ == key
    &&& events[1].key@ == key
    &&& events[0].modifiers == modifiers
    &&& events[1].modifiers == modifiers
}

fn press_pair(key: &str, modifiers: Option<i64>) -> (r: Vec<KeyEvent>)
    ensures
        is_press_pair(r@, key@, modifiers),
{
    let mut events = Vec::new();
    events.push(KeyEvent { kind: KeyEventKind::KeyDown, key: String::from_str(key), modifiers });
    events.push(KeyEvent { kind: KeyEventKind::KeyUp, key: String::from_str(key), modifiers });
    events
}

/// The events of a plain key press: key-down then key-up, no modifiers.
pub fn press_events(key: &str) -> (r: Vec<KeyEvent>)
    ensures
        is_press_pair(r@, key@, None),
{
    press_pair(key, None)
}

/// The events of a key combination: key-down then key-up of `key`, both
/// carrying the combined mask of `modifiers`.
pub fn press_combo_events(modifiers: &Vec<String>, key: &str) -> (r: Vec<KeyEvent>)
    ensures
        is_press_pair(r@, key@, Some(mask_of(texts(modifiers@)))),
{
    let mask = modifier_mask(modifiers);
    press_pair(key, Some(mask))
}

} // verus!
