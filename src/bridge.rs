//! The extension bridge: routing of extension-only methods and the
//! correlation of requests with responses.
//!
//! Each request sent to the extension endpoint carries a fresh identifier
//! and registers a completion slot under it. A response is handed to the
//! slot registered under its identifier; a response that matches no slot
//! (late or unsolicited) is dropped. A request that finds no connection
//! fails at once; one whose response does not come within the timeout has
//! its slot removed.

use std::collections::HashMap;

use vstd::prelude::*;

use crate::error::GatewayError;
use crate::text::{has_prefix, lemma_remove_value_unique, starts_with, str_eq};

verus! {

/// The default port of the extension endpoint.
pub const DEFAULT_WS_PORT: u16 = 9223;

/// How long a request waits for its response, in seconds.
pub const REQUEST_TIMEOUT_SECS: u64 = 30;

/// The methods that go to the extension endpoint instead of the browser.
pub open spec fn extension_method(m: Seq<char>) -> bool {
    m == "browser.tabs.create"@ || m == "browser.tabs.query"@ || m == "browser.tabs.group"@ || m
        == "browser.tabs.ungroup"@ || m == "browser.tabGroups.update"@ || m
        == "browser.tabGroups.query"@ || m == "browser.tabGroups.collapse"@ || m
        == "browser.cookies.get"@ || m == "browser.cookies.getAll"@ || m == "browser.cookies.set"@
        || m == "browser.notifications.create"@ || m == "browser.storage.get"@ || m
        == "browser.storage.set"@ || m == "browser.version"@
}

/// Tests whether a method goes to the extension endpoint.
pub fn is_extension_method(method: &str) -> (r: bool)
    ensures
        r == extension_method(method@),
{
    str_eq(method, "browser.tabs.create") || str_eq(method, "browser.tabs.query") || str_eq(
        method,
        "browser.tabs.group",
    ) || str_eq(method, "browser.tabs.ungroup") || str_eq(method, "browser.tabGroups.update")
        || str_eq(method, "browser.tabGroups.query") || str_eq(
        method,
        "browser.tabGroups.collapse",
    ) || str_eq(method, "browser.cookies.get") || str_eq(method, "browser.cookies.getAll")
        || str_eq(method, "browser.cookies.set") || str_eq(method, "browser.notifications.create")
        || str_eq(method, "browser.storage.get") || str_eq(method, "browser.storage.set") || str_eq(
        method,
        "browser.version",
    )
}

/// The extension's own name for a method: without the `browser.` prefix.
pub open spec fn extension_name(m: Seq<char>) -> Seq<char> {
    if has_prefix(m, "browser."@) {
        m.subrange(8, m.len() as int)
    } else {
        m
    }
}

/// Strips the `browser.` prefix from a method name, if it has one.
pub fn extension_method_name(method: &str) -> (r: &str)
    ensures
        r@ == extension_name(method@),
{
    proof {
        reveal_strlit("browser.");
    }
    if starts_with(method, "browser.") {
        method.substring_char(8, method.unicode_len())
    } else {
        method
    }
}

/// Whether an extension endpoint is attached.
#[derive(Debug, Clone, Copy, PartialEq, Eq, Structural)]
pub enum ConnectionState {
    Disconnected,
    Connected,
}

/// A request to the extension endpoint.
#[derive(Debug)]
pub struct ExtensionRequest {
    pub id: String,
    pub method: String,
    pub params: HashMap<String, serde_json::Value>,
}

/// A response from the extension endpoint.
#[derive(Debug)]
pub struct ExtensionResponse {
    pub id: String,
    pub ok: bool,
    pub result: Option<serde_json::Value>,
    pub error: Option<String>,
}

/// Relies on `serde_json::Value::Null`, the JSON null.
#[verifier::external_body]
fn json_null() -> serde_json::Value {
    serde_json::Value::Null
}

/// Relies on `uuid::Uuid::new_v4` and its hyphenated text form: a random
/// identifier of 36 characters.
#[verifier::external_body]
fn new_request_id() -> (r: String)
    ensures
        r@.len() == 36,
{
    uuid::Uuid::new_v4().to_string()
}

/// Bridge state: the connection and the slots that await a response, each
/// under its request identifier. `S` is the completion slot.
#[derive(Debug)]
pub struct ExtensionBridge<S> {
    state: ConnectionState,
    pending: Vec<(String, S)>,
    port: u16,
}

/// The slots left when the slot under `id` (if any) is taken out.
pub open spec fn slots_without<S>(ids: Seq<Seq<char>>, slots: Seq<S>, id: Seq<char>) -> Seq<S> {
    if ids.contains(id) {
        slots.remove(ids.index_of_first(id)->Some_0)
    } else {
        slots
    }
}

/// A response with its completion slot.
pub type Delivery<S> = (S, ExtensionResponse);

/// Timing a request out and then looking at the table: the identifier is
/// gone and the rest of the table is as before the request.
pub proof fn lemma_timeout_leaves_no_entry(ids: Seq<Seq<char>>, id: Seq<char>)
    requires
        ids.no_duplicates(),
    ensures
        !ids.remove_value(id).push(id).remove_value(id).contains(id),
        ids.remove_value(id).push(id).remove_value(id) == ids.remove_value(id),
{
    lemma_remove_value_unique(ids, id);
    let base = ids.remove_value(id);
    let pushed = base.push(id);
    pushed.index_of_first_ensures(id);
    assert(pushed[base.len() as int] == id);
    let i = pushed.index_of_first(id)->Some_0;
    if i < base.len() {
        assert(base.contains(base[i]));
    }
    assert(pushed.remove(base.len() as int) =~= base);
}

/// A request that `call` registered under a fresh identifier and that then
/// timed out leaves the table exactly as it was before the request.
pub proof fn lemma_call_then_expire_restores<S>(
    ids: Seq<Seq<char>>,
    slots: Seq<S>,
    id: Seq<char>,
    slot: S,
)
    requires
        ids.no_duplicates(),
        !ids.contains(id),
        slots.len() == ids.len(),
    ensures
        ids.push(id).remove_value(id) == ids,
        slots_without(ids.push(id), slots.push(slot), id) == slots,
{
    let pushed = ids.push(id);
    pushed.index_of_first_ensures(id);
    assert(pushed[ids.len() as int] == id);
    assert(pushed.contains(id));
    let i = pushed.index_of_first(id)->Some_0;
    if i < ids.len() {
        assert(ids[i] == id);
        assert(ids.contains(id));
    }
    assert(pushed.remove(ids.len() as int) =~= ids);
    assert(slots.push(slot).remove(ids.len() as int) =~= slots);
}

impl<S> ExtensionBridge<S> {
    /// The waiting entries: request identifier and slot, in order of
    /// registration.
    pub closed spec fn entries(&self) -> Seq<(String, S)> {
        self.pending@
    }

    /// The identifiers that have a slot waiting, in order of registration.
    pub open spec fn pending_ids(&self) -> Seq<Seq<char>> {
        self.entries().map_values(|e: (String, S)| e.0@)
    }

    /// The waiting slots, in order of registration.
    pub open spec fn pending_slots(&self) -> Seq<S> {
        self.entries().map_values(|e: (String, S)| e.1)
    }

    /// The connection state.
    pub closed spec fn state_spec(&self) -> ConnectionState {
        self.state
    }

    /// The port of the endpoint.
    pub closed spec fn port_spec(&self) -> u16 {
        self.port
    }

    /// At most one slot waits under each identifier.
    pub open spec fn wf(&self) -> bool {
        self.pending_ids().no_duplicates()
    }

    /// A disconnected bridge with no waiting slot, on the given port or the
    /// default one.
    pub fn new(port: Option<u16>) -> (r: Self)
        ensures
            r.wf(),
            r.state_spec() == ConnectionState::Disconnected,
            r.pending_ids().len() == 0,
            r.port_spec() == (match port {
                Some(p) => p,
                None => DEFAULT_WS_PORT,
            }),
    {
        let port = match port {
            Some(p) => p,
            None => DEFAULT_WS_PORT,
        };
        let r = ExtensionBridge { state: ConnectionState::Disconnected, pending: Vec::new(), port };
        proof {
            assert(r.pending_ids() =~= Seq::<Seq<char>>::empty());
        }
        r
    }

    /// The port of the endpoint.
    pub fn port(&self) -> (r: u16)
        ensures
            r == self.port_spec(),
    {
        self.port
    }

    /// The connection state.
    pub fn connection_state(&self) -> (r: ConnectionState)
        ensures
            r == self.state_spec(),
    {
        self.state
    }

    /// Whether an endpoint is attached.
    pub fn is_connected(&self) -> (r: bool)
        ensures
            r == (self.state_spec() == ConnectionState::Connected),
    {
        self.state == ConnectionState::Connected
    }

    /// An endpoint attached.
    pub fn on_connected(&mut self)
        ensures
            final(self).state_spec() == ConnectionState::Connected,
            final(self).pending_ids() == old(self).pending_ids(),
            final(self).pending_slots() == old(self).pending_slots(),
            final(self).port_spec() == old(self).port_spec(),
            final(self).wf() == old(self).wf(),
    {
        self.state = ConnectionState::Connected;
    }

    /// The endpoint's read or write loop ended.
    pub fn on_disconnected(&mut self)
        ensures
            final(self).state_spec() == ConnectionState::Disconnected,
            final(self).pending_ids() == old(self).pending_ids(),
            final(self).pending_slots() == old(self).pending_slots(),
            final(self).port_spec() == old(self).port_spec(),
            final(self).wf() == old(self).wf(),
    {
        self.state = ConnectionState::Disconnected;
    }

    fn find(&self, id: &str) -> (r: Option<usize>)
        requires
            self.wf(),
        ensures
            r matches Some(i) ==> i < self.pending_ids().len() && self.pending_ids().index_of_first(
                id@,
            ) == Some(i as int),
            r is None ==> !self.pending_ids().contains(id@),
    {
        let mut i: usize = 0;
        while i < self.pending.len()
            invariant
                i <= self.pending@.len(),
                forall|k: int| 0 <= k < i ==> self.pending_ids()[k] != id@,
            decreases self.pending.len() - i,
        {
            if str_eq(self.pending[i].0.as_str(), id) {
                proof {
                    assert(self.pending_ids()[i as int] == self.pending@[i as int].0@);
                    assert(self.pending_ids().contains(id@));
                    self.pending_ids().index_of_first_ensures(id@);
                }
                return Some(i);
            }
            i = i + 1;
        }
        None
    }

    fn take(&mut self, id: &str) -> (r: Option<S>)
        requires
            old(self).wf(),
        ensures
            final(self).wf(),
            final(self).pending_ids() == old(self).pending_ids().remove_value(id@),
            final(self).state_spec() == old(self).state_spec(),
            final(self).port_spec() == old(self).port_spec(),
            old(self).pending_ids().contains(id@) ==> r == Some(
                old(self).pending_slots()[old(self).pending_ids().index_of_first(id@)->Some_0],
            ),
            old(self).pending_ids().contains(id@) ==> final(self).pending_slots() == old(
                self,
            ).pending_slots().remove(old(self).pending_ids().index_of_first(id@)->Some_0),
            !old(self).pending_ids().contains(id@) ==> r is None,
            !old(self).pending_ids().contains(id@) ==> final(self).pending_slots() == old(
                self,
            ).pending_slots(),
    {
        proof {
            old(self).pending_ids().index_of_first_ensures(id@);
            lemma_remove_value_unique(old(self).pending_ids(), id@);
        }
        match self.find(id) {
            None => None,
            Some(i) => {
                let entry = self.pending.remove(i);
                proof {
                    assert(self.pending_ids() =~= old(self).pending_ids().remove(i as int));
                    assert(self.pending_slots() =~= old(self).pending_slots().remove(i as int));
                }
                Some(entry.1)
            },
        }
    }

    /// Whether a slot waits under an identifier.
    pub fn is_pending(&self, id: &str) -> (r: bool)
        requires
            self.wf(),
        ensures
            r == self.pending_ids().contains(id@),
    {
        proof {
            self.pending_ids().index_of_first_ensures(id@);
        }
        self.find(id).is_some()
    }

    /// Starts a request: with no endpoint attached it fails at once with
    /// `NotConnected` and registers nothing; otherwise it registers `slot`
    /// under `id` (replacing any slot under the same identifier) and returns
    /// the request to send.
    pub fn begin_call(
        &mut self,
        id: String,
        method: &str,
        params: HashMap<String, serde_json::Value>,
        slot: S,
    ) -> (r: Result<ExtensionRequest, GatewayError>)
        requires
            old(self).wf(),
        ensures
            final(self).wf(),
            final(self).state_spec() == old(self).state_spec(),
            final(self).port_spec() == old(self).port_spec(),
            old(self).state_spec() == ConnectionState::Disconnected ==> r == Err::<
                ExtensionRequest,
                GatewayError,
            >(GatewayError::NotConnected),
            old(self).state_spec() == ConnectionState::Disconnected ==> final(self).pending_ids()
                == old(self).pending_ids() && final(self).pending_slots() == old(self).pending_slots(),
            old(self).state_spec() == ConnectionState::Connected ==> (r matches Ok(req) && req.id@
                == id@ && req.method@ == method@ && req.params == params),
            old(self).state_spec() == ConnectionState::Connected ==> final(self).pending_ids()
                == old(self).pending_ids().remove_value(id@).push(id@),
            old(self).state_spec() == ConnectionState::Connected ==> final(self).pending_slots()
                == slots_without(old(self).pending_ids(), old(self).pending_slots(), id@).push(slot),
    {
        if self.state == ConnectionState::Disconnected {
            return Err(GatewayError::NotConnected);
        }
        let _ = self.take(id.as_str());
        let request_id = String::from_str(id.as_str());
        let ghost before = self.pending_ids();
        let ghost before_slots = self.pending_slots();
        proof {
            lemma_remove_value_unique(old(self).pending_ids(), id@);
        }
        self.pending.push((id, slot));
        proof {
            assert(self.pending_ids() =~= before.push(request_id@));
            assert(self.pending_slots() =~= before_slots.push(slot));
            assert forall|a: int, b: int|
                0 <= a < self.pending_ids().len() && 0 <= b < self.pending_ids().len() && a != b implies self.pending_ids()[a]
                != self.pending_ids()[b] by {
                if a < before.len() && b < before.len() {
                } else if a < before.len() {
                    assert(before.contains(self.pending_ids()[a]));
                } else {
                    assert(before.contains(self.pending_ids()[b]));
                }
            }
        }
        Ok(ExtensionRequest { id: request_id, method: String::from_str(method), params })
    }

    /// Starts a request under a fresh random identifier; see `begin_call`.
    /// An identifier that is already waiting is drawn again once; should
    /// the second draw collide too, the request fails with `Protocol` and
    /// nothing is registered.
    pub fn call(
        &mut self,
        method: &str,
        params: HashMap<String, serde_json::Value>,
        slot: S,
    ) -> (r: Result<ExtensionRequest, GatewayError>)
        requires
            old(self).wf(),
        ensures
            final(self).wf(),
            final(self).state_spec() == old(self).state_spec(),
            final(self).port_spec() == old(self).port_spec(),
            old(self).state_spec() == ConnectionState::Disconnected ==> r == Err::<
                ExtensionRequest,
                GatewayError,
            >(GatewayError::NotConnected),
            r is Err ==> final(self).pending_ids() == old(self).pending_ids()
                && final(self).pending_slots() == old(self).pending_slots(),
            old(self).state_spec() == ConnectionState::Connected ==> (r is Ok || r matches Err(
                GatewayError::Protocol(_),
            )),
            r matches Ok(req) ==> old(self).state_spec() == ConnectionState::Connected
                && req.method@ == method@ && req.params == params && req.id@.len() == 36
                && !old(self).pending_ids().contains(req.id@)
                && final(self).pending_ids() == old(self).pending_ids().push(req.id@)
                && final(self).pending_slots() == old(self).pending_slots().push(slot),
    {
        if self.state == ConnectionState::Disconnected {
            return Err(GatewayError::NotConnected);
        }
        let mut id = new_request_id();
        if self.is_pending(id.as_str()) {
            id = new_request_id();
        }
        if self.is_pending(id.as_str()) {
            return Err(GatewayError::Protocol(String::from_str("no fresh request identifier")));
        }
        proof {
            old(self).pending_ids().index_of_first_ensures(id@);
        }
        self.begin_call(id, method, params, slot)
    }

    /// Routes a response to the slot waiting under its identifier and
    /// removes that slot; a response that no slot waits for is dropped.
    pub fn complete(&mut self, response: ExtensionResponse) -> (r: Option<Delivery<S>>)
        requires
            old(self).wf(),
        ensures
            final(self).wf(),
            final(self).state_spec() == old(self).state_spec(),
            final(self).pending_ids() == old(self).pending_ids().remove_value(response.id@),
            old(self).pending_ids().contains(response.id@) ==> r == Some(
                (
                    old(self).pending_slots()[old(self).pending_ids().index_of_first(
                        response.id@,
                    )->Some_0],
                    response,
                ),
            ),
            !old(self).pending_ids().contains(response.id@) ==> r is None,
            final(self).pending_slots() == slots_without(
                old(self).pending_ids(),
                old(self).pending_slots(),
                response.id@,
            ),
    {
        match self.take(response.id.as_str()) {
            Some(slot) => Some((slot, response)),
            None => None,
        }
    }

    /// Gives up on a request whose response did not come in time: its slot
    /// is removed and the outcome is `RequestTimeout`.
    pub fn expire(&mut self, id: &str) -> (r: GatewayError)
        requires
            old(self).wf(),
        ensures
            final(self).wf(),
            final(self).state_spec() == old(self).state_spec(),
            final(self).pending_ids() == old(self).pending_ids().remove_value(id@),
            !final(self).pending_ids().contains(id@),
            final(self).pending_slots() == slots_without(
                old(self).pending_ids(),
                old(self).pending_slots(),
                id@,
            ),
            r == GatewayError::RequestTimeout,
    {
        proof {
            lemma_remove_value_unique(old(self).pending_ids(), id@);
        }
        let _ = self.take(id);
        GatewayError::RequestTimeout
    }

    /// The outcome of a response for the caller: its result (JSON null when
    /// it carries none) when it succeeded, else `Extension` with its error
    /// text or `Unknown error`.
    pub fn response_to_value(response: ExtensionResponse) -> (r: Result<
        serde_json::Value,
        GatewayError,
    >)
        ensures
            response.ok && response.result is Some ==> r == Ok::<serde_json::Value, GatewayError>(
                response.result->Some_0,
            ),
            response.ok ==> r is Ok,
            !response.ok && response.error is Some ==> r == Err::<serde_json::Value, GatewayError>(
                GatewayError::Extension(response.error->Some_0),
            ),
            !response.ok && response.error is None ==> (r matches Err(GatewayError::Extension(m))
                && m@ == "Unknown error"@),
    {
        if response.ok {
            match response.result {
                Some(v) => Ok(v),
                None => Ok(json_null()),
            }
        } else {
            match response.error {
                Some(e) => Err(GatewayError::Extension(e)),
                None => Err(GatewayError::Extension(String::from_str("Unknown error"))),
            }
        }
    }
}

} // verus!
