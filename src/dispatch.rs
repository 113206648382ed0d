//! Request dispatch: the parameters of a request, and the command that a
//! method name and its parameters stand for.
//!
//! Extension-only methods are recognised before anything else, so that
//! they never touch a browser session.

use vstd::prelude::*;

use crate::bridge::{extension_method, is_extension_method};
use crate::error::GatewayError;
use crate::text::str_eq;

verus! {

/// A request parameter, reduced to what the gateway reads.
#[derive(Debug)]
pub enum ParamValue {
    Str(String),
    Bool(bool),
    /// An integer that fits in 64 signed bits.
    Int(i64),
    Array(Vec<ParamValue>),
    /// Anything else (null, other numbers, objects).
    Other,
}

/// Request parameters by name; a later entry under a name replaces an
/// earlier one.
#[derive(Debug)]
pub struct Params {
    entries: Vec<(String, ParamValue)>,
}

/// The value under `key` in a list of entries: the last one wins.
pub open spec fn lookup_in(entries: Seq<(String, ParamValue)>, key: Seq<char>) -> Option<
    ParamValue,
>
    decreases entries.len(),
{
    if entries.len() == 0 {
        None
    } else if entries.last().0@ == key {
        Some(entries.last().1)
    } else {
        lookup_in(entries.drop_last(), key)
    }
}

impl Params {
    /// The value under a name.
    pub closed spec fn lookup(&self, key: Seq<char>) -> Option<ParamValue> {
        lookup_in(self.entries@, key)
    }

    /// No parameters.
    pub fn new() -> (r: Self)
        ensures
            forall|k: Seq<char>| #[trigger] r.lookup(k) is None,
    {
        Params { entries: Vec::new() }
    }

    /// Sets the value under a name.
    pub fn insert(&mut self, key: String, value: ParamValue)
        ensures
            final(self).lookup(key@) == Some(value),
            forall|k: Seq<char>| k != key@ ==> #[trigger] final(self).lookup(k) == old(self).lookup(k),
    {
        let ghost k0 = key@;
        let ghost v0 = value;
        self.entries.push((key, value));
        proof {
            assert(self.entries@.drop_last() =~= old(self).entries@);
            assert(self.entries@.last().0@ == k0);
        }
    }

    /// The value under a name, if any.
    pub fn get(&self, key: &str) -> (r: Option<&ParamValue>)
        ensures
            r matches Some(v) ==> self.lookup(key@) == Some(*v),
            r is None ==> self.lookup(key@) is None,
    {
        let mut i: usize = self.entries.len();
        proof {
            assert(self.entries@.subrange(0, i as int) =~= self.entries@);
        }
        while i > 0
            invariant
                i <= self.entries@.len(),
                lookup_in(self.entries@.subrange(0, i as int), key@) == self.lookup(key@),
            decreases i,
        {
            let ghost pre = self.entries@.subrange(0, i as int);
            proof {
                assert(pre.drop_last() =~= self.entries@.subrange(0, i - 1));
            }
            if str_eq(self.entries[i - 1].0.as_str(), key) {
                return Some(&self.entries[i - 1].1);
            }
            i = i - 1;
        }
        None
    }
}

/// The string under a name, when the value there is a string.
pub open spec fn str_param(p: Params, key: Seq<char>) -> Option<String> {
    match p.lookup(key) {
        Some(ParamValue::Str(s)) => Some(s),
        _ => None,
    }
}

/// The value under `first`, or under `second` when there is none under
/// `first`, when that value is a string.
pub open spec fn str_param_either(p: Params, first: Seq<char>, second: Seq<char>) -> Option<
    String,
> {
    let v = match p.lookup(first) {
        Some(v) => Some(v),
        None => p.lookup(second),
    };
    match v {
        Some(ParamValue::Str(s)) => Some(s),
        _ => None,
    }
}

/// The session a request names: `session_id`, or its alias `session`.
pub open spec fn session_param(p: Params) -> Option<String> {
    str_param_either(p, "session_id"@, "session"@)
}

fn string_value(v: Option<&ParamValue>) -> (r: Option<String>)
    ensures
        r == (match v {
            Some(ParamValue::Str(s)) => Some(*s),
            _ => None,
        }),
{
    match v {
        Some(ParamValue::Str(s)) => Some(s.clone()),
        _ => None,
    }
}

fn string_either(params: &Params, first: &str, second: &str) -> (r: Option<String>)
    ensures
        r == str_param_either(*params, first@, second@),
{
    let v = match params.get(first) {
        Some(v) => Some(v),
        None => params.get(second),
    };
    string_value(v)
}

/// The session identifier a request names, if any: `session_id`, else
/// `session`; a value that is not a string names none.
pub fn get_session_id(params: &Params) -> (r: Option<String>)
    ensures
        r == session_param(*params),
{
    string_either(params, "session_id", "session")
}

/// The strings of a list of values, in order, skipping other values.
pub open spec fn strings_of(vs: Seq<ParamValue>) -> Seq<String>
    decreases vs.len(),
{
    if vs.len() == 0 {
        Seq::empty()
    } else {
        match vs.last() {
            ParamValue::Str(s) => strings_of(vs.drop_last()).push(s),
            _ => strings_of(vs.drop_last()),
        }
    }
}

/// The modifier names of a request: the strings of its `modifiers` list.
pub open spec fn modifiers_param(p: Params) -> Seq<String> {
    match p.lookup("modifiers"@) {
        Some(ParamValue::Array(vs)) => strings_of(vs@),
        _ => Seq::empty(),
    }
}

fn modifier_names(params: &Params) -> (r: Vec<String>)
    ensures
        r@ == modifiers_param(*params),
{
    let mut out: Vec<String> = Vec::new();
    match params.get("modifiers") {
        Some(ParamValue::Array(vs)) => {
            let mut i: usize = 0;
            while i < vs.len()
                invariant
                    i <= vs@.len(),
                    out@ == strings_of(vs@.subrange(0, i as int)),
                decreases vs.len() - i,
            {
                proof {
                    assert(vs@.subrange(0, i + 1).drop_last() =~= vs@.subrange(0, i as int));
                }
                match &vs[i] {
                    ParamValue::Str(s) => out.push(s.clone()),
                    _ => {},
                }
                i = i + 1;
            }
            proof {
                assert(vs@.subrange(0, vs@.len() as int) =~= vs@);
            }
        },
        _ => {},
    }
    out
}

/// The integer under a name, or zero, cut to 32 bits.
pub open spec fn offset_param(p: Params, key: Seq<char>) -> i32 {
    match p.lookup(key) {
        Some(ParamValue::Int(n)) => n as i32,
        _ => 0,
    }
}

fn offset_value(params: &Params, key: &str) -> (r: i32)
    ensures
        r == offset_param(*params, key@),
{
    match params.get(key) {
        Some(ParamValue::Int(n)) => *n as i32,
        _ => 0,
    }
}

/// The `checked` flag of a request; a check sets the box unless told
/// otherwise.
pub open spec fn checked_param(p: Params) -> bool {
    match p.lookup("checked"@) {
        Some(ParamValue::Bool(b)) => b,
        _ => true,
    }
}

fn checked_value(params: &Params) -> (r: bool)
    ensures
        r == checked_param(*params),
{
    match params.get("checked") {
        Some(ParamValue::Bool(b)) => *b,
        _ => true,
    }
}

/// One operation, with the parameters it reads.
#[derive(Debug)]
pub enum Command {
    /// Goes to the extension endpoint under this method name.
    Extension { method: String },
    Health,
    Open { url: String, session_id: Option<String> },
    Snapshot { session_id: Option<String> },
    Screenshot { path: Option<String>, session_id: Option<String> },
    Click { selector: String, session_id: Option<String> },
    Fill { selector: String, value: String, session_id: Option<String> },
    Press { key: String, session_id: Option<String> },
    Select { selector: String, value: String, session_id: Option<String> },
    Check { selector: String, checked: bool, session_id: Option<String> },
    Hover { selector: String, session_id: Option<String> },
    Scroll { selector: Option<String>, x: i32, y: i32, session_id: Option<String> },
    PressCombo { key: String, modifiers: Vec<String>, session_id: Option<String> },
    Upload { selector: String, path: String, session_id: Option<String> },
    StateSave { name: String, session_id: Option<String> },
    StateLoad { name: String, session_id: Option<String> },
    StateList,
    SessionNew { id: String },
    SessionList,
    SessionClose { id: String },
}

/// `r` is the failure for a missing parameter `name`.
pub open spec fn missing(r: Result<Command, GatewayError>, name: Seq<char>) -> bool {
    r matches Err(GatewayError::MissingParameter(m)) && m@ == name
}

/// `r` requires the string parameter `name`: it is missing, or it is `v`
/// and `then(v)` holds.
pub open spec fn needs(
    r: Result<Command, GatewayError>,
    p: Params,
    name: Seq<char>,
    then: spec_fn(String) -> bool,
) -> bool {
    match str_param(p, name) {
        Some(v) => then(v),
        None => missing(r, name),
    }
}

/// What `parse_command` makes of a method and its parameters.
pub open spec fn parsed(method: Seq<char>, p: Params, r: Result<Command, GatewayError>) -> bool {
    let sid = session_param(p);
    if extension_method(method) {
        r matches Ok(Command::Extension { method: m }) && m@ == method
    } else if method == "health"@ {
        r == Ok::<Command, GatewayError>(Command::Health)
    } else if method == "browser.open"@ || method == "open"@ {
        needs(r, p, "url"@, |url: String| r == Ok::<Command, GatewayError>(Command::Open { url, session_id: sid }))
    } else if method == "browser.snapshot"@ || method == "snapshot"@ {
        r == Ok::<Command, GatewayError>(Command::Snapshot { session_id: sid })
    } else if method == "browser.screenshot"@ || method == "screenshot"@ {
        r == Ok::<Command, GatewayError>(Command::Screenshot { path: str_param(p, "path"@), session_id: sid })
    } else if method == "browser.click"@ || method == "click"@ {
        needs(r, p, "selector"@, |selector: String| r == Ok::<Command, GatewayError>(Command::Click { selector, session_id: sid }))
    } else if method == "browser.fill"@ || method == "fill"@ {
        needs(r, p, "selector"@, |selector: String| needs(r, p, "value"@, |value: String| r == Ok::<Command, GatewayError>(Command::Fill { selector, value, session_id: sid })))
    } else if method == "browser.press"@ || method == "press"@ {
        needs(r, p, "key"@, |key: String| r == Ok::<Command, GatewayError>(Command::Press { key, session_id: sid }))
    } else if method == "browser.select"@ || method == "select"@ {
        needs(r, p, "selector"@, |selector: String| needs(r, p, "value"@, |value: String| r == Ok::<Command, GatewayError>(Command::Select { selector, value, session_id: sid })))
    } else if method == "browser.check"@ || method == "check"@ {
        needs(r, p, "selector"@, |selector: String| r == Ok::<Command, GatewayError>(Command::Check { selector, checked: checked_param(p), session_id: sid }))
    } else if method == "browser.hover"@ || method == "hover"@ {
        needs(r, p, "selector"@, |selector: String| r == Ok::<Command, GatewayError>(Command::Hover { selector, session_id: sid }))
    } else if method == "browser.scroll"@ || method == "scroll"@ {
        r matches Ok(Command::Scroll { selector, x, y, session_id }) && selector == str_param(p, "selector"@)
            && x == offset_param(p, "x"@) && y == offset_param(p, "y"@) && session_id == sid
    } else if method == "browser.press_combo"@ || method == "press_combo"@ {
        needs(r, p, "key"@, |key: String| r matches Ok(Command::PressCombo { key: k, modifiers, session_id }) && k == key
            && modifiers@ == modifiers_param(p) && session_id == sid)
    } else if method == "browser.upload"@ || method == "upload"@ {
        needs(r, p, "selector"@, |selector: String| needs(r, p, "path"@, |path: String| r == Ok::<Command, GatewayError>(Command::Upload { selector, path, session_id: sid })))
    } else if method == "browser.state.save"@ || method == "state.save"@ {
        needs(r, p, "name"@, |name: String| r == Ok::<Command, GatewayError>(Command::StateSave { name, session_id: sid }))
    } else if method == "browser.state.load"@ || method == "state.load"@ {
        needs(r, p, "name"@, |name: String| r == Ok::<Command, GatewayError>(Command::StateLoad { name, session_id: sid }))
    } else if method == "browser.state.list"@ || method == "state.list"@ {
        r == Ok::<Command, GatewayError>(Command::StateList)
    } else if method == "browser.session.new"@ || method == "session.new"@ {
        match str_param_either(p, "id"@, "session_id"@) {
            Some(id) => r == Ok::<Command, GatewayError>(Command::SessionNew { id }),
            None => missing(r, "id"@),
        }
    } else if method == "browser.session.list"@ || method == "session.list"@ {
        r == Ok::<Command, GatewayError>(Command::SessionList)
    } else if method == "browser.session.close"@ || method == "session.close"@ {
        match str_param_either(p, "id"@, "session_id"@) {
            Some(id) => r == Ok::<Command, GatewayError>(Command::SessionClose { id }),
            None => missing(r, "id"@),
        }
    } else {
        r matches Err(GatewayError::UnknownMethod(m)) && m@ == method
    }
}

fn required(params: &Params, name: &str) -> (r: Result<String, GatewayError>)
    ensures
        match str_param(*params, name@) {
            Some(v) => r == Ok::<String, GatewayError>(v),
            None => r matches Err(GatewayError::MissingParameter(m)) && m@ == name@,
        },
{
    match string_value(params.get(name)) {
        Some(v) => Ok(v),
        None => Err(GatewayError::MissingParameter(String::from_str(name))),
    }
}

fn named(method: &str, full: &str, short: &str) -> (r: bool)
    ensures
        r == (method@ == full@ || method@ == short@),
{
    str_eq(method, full) || str_eq(method, short)
}

/// Decides what a request asks for: extension-only methods first, then
/// the browser methods (each under its `browser.` name or its short name)
/// with the parameters they need; an absent required parameter is
/// `MissingParameter`, an unknown method `UnknownMethod`.
#[verifier::rlimit(50)]
pub fn parse_command(method: &str, params: &Params) -> (r: Result<Command, GatewayError>)
    ensures
        parsed(method@, *params, r),
{
    if is_extension_method(method) {
        return Ok(Command::Extension { method: String::from_str(method) });
    }
    let session_id = get_session_id(params);
    if str_eq(method, "health") {
        Ok(Command::Health)
    } else if named(method, "browser.open", "open") {
        let url = required(params, "url")?;
        Ok(Command::Open { url, session_id })
    } else if named(method, "browser.snapshot", "snapshot") {
        Ok(Command::Snapshot { session_id })
    } else if named(method, "browser.screenshot", "screenshot") {
        let path = string_value(params.get("path"));
        Ok(Command::Screenshot { path, session_id })
    } else if named(method, "browser.click", "click") {
        let selector = required(params, "selector")?;
        Ok(Command::Click { selector, session_id })
    } else if named(method, "browser.fill", "fill") {
        let selector = required(params, "selector")?;
        let value = required(params, "value")?;
        Ok(Command::Fill { selector, value, session_id })
    } else if named(method, "browser.press", "press") {
        let key = required(params, "key")?;
        Ok(Command::Press { key, session_id })
    } else if named(method, "browser.select", "select") {
        let selector = required(params, "selector")?;
        let value = required(params, "value")?;
        Ok(Command::Select { selector, value, session_id })
    } else if named(method, "browser.check", "check") {
        let selector = required(params, "selector")?;
        let checked = checked_value(params);
        Ok(Command::Check { selector, checked, session_id })
    } else if named(method, "browser.hover", "hover") {
        let selector = required(params, "selector")?;
        Ok(Command::Hover { selector, session_id })
    } else if named(method, "browser.scroll", "scroll") {
        let selector = string_value(params.get("selector"));
        let x = offset_value(params, "x");
        let y = offset_value(params, "y");
        Ok(Command::Scroll { selector, x, y, session_id })
    } else if named(method, "browser.press_combo", "press_combo") {
        let key = required(params, "key")?;
        let modifiers = modifier_names(params);
        Ok(Command::PressCombo { key, modifiers, session_id })
    } else if named(method, "browser.upload", "upload") {
        let selector = required(params, "selector")?;
        let path = required(params, "path")?;
        Ok(Command::Upload { selector, path, session_id })
    } else if named(method, "browser.state.save", "state.save") {
        let name = required(params, "name")?;
        Ok(Command::StateSave { name, session_id })
    } else if named(method, "browser.state.load", "state.load") {
        let name = required(params, "name")?;
        Ok(Command::StateLoad { name, session_id })
    } else if named(method, "browser.state.list", "state.list") {
        Ok(Command::StateList)
    } else if named(method, "browser.session.new", "session.new") {
        match string_either(params, "id", "session_id") {
            Some(id) => Ok(Command::SessionNew { id }),
            None => Err(GatewayError::MissingParameter(String::from_str("id"))),
        }
    } else if named(method, "browser.session.list", "session.list") {
        Ok(Command::SessionList)
    } else if named(method, "browser.session.close", "session.close") {
        match string_either(params, "id", "session_id") {
            Some(id) => Ok(Command::SessionClose { id }),
            None => Err(GatewayError::MissingParameter(String::from_str("id"))),
        }
    } else {
        Err(GatewayError::UnknownMethod(String::from_str(method)))
    }
}

} // verus!
