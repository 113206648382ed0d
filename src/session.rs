//! The session registry: one isolated browsing context per session
//! identifier, with a default session that always exists.
//!
//! The registry holds what the browser handed out for each session (the
//! isolated context's identifier and the page handle) and decides every
//! create, close and lookup. Allocating and disposing contexts is the
//! browser's work; the registry says when it is needed and records what
//! came back.

use vstd::prelude::*;

use crate::error::GatewayError;
use crate::text::{lemma_remove_value_unique, str_eq};

verus! {

/// The identifier of the session that exists from the start and cannot be
/// closed.
pub open spec fn default_id() -> Seq<char> {
    "default"@
}

/// One isolated automation context.
#[derive(Debug)]
pub struct BrowserSession<C, P> {
    /// The session identifier.
    pub id: String,
    /// The isolated browsing context; `None` for the browser's own context.
    pub context_id: Option<C>,
    /// The session's page.
    pub page: P,
}

/// The sessions of one browser, keyed by identifier.
#[derive(Debug)]
pub struct SessionRegistry<C, P> {
    sessions: Vec<BrowserSession<C, P>>,
}

/// What a create request needs.
#[derive(Debug, Clone, PartialEq, Eq)]
pub enum CreatePlan {
    /// The session exists already: its identifier is returned unchanged.
    Existing(String),
    /// A new isolated context and page must be allocated for this identifier.
    Allocate(String),
}

/// The identifiers after a create of `id`.
pub open spec fn ids_after_create(ids: Seq<Seq<char>>, id: Seq<char>) -> Seq<Seq<char>> {
    if ids.contains(id) {
        ids
    } else {
        ids.push(id)
    }
}

/// The identifiers after a close of `id`.
pub open spec fn ids_after_close(ids: Seq<Seq<char>>, id: Seq<char>) -> Seq<Seq<char>> {
    if id == default_id() {
        ids
    } else {
        ids.remove_value(id)
    }
}

/// Creating a session a second time allocates nothing and changes nothing;
/// closing a session a second time is a no-op; after a close of any other
/// session than the default, the identifier is gone.
pub proof fn lemma_create_close_idempotent(ids: Seq<Seq<char>>, id: Seq<char>)
    requires
        ids.no_duplicates(),
    ensures
        ids_after_create(ids, id).contains(id),
        ids_after_create(ids_after_create(ids, id), id) == ids_after_create(ids, id),
        id != default_id() ==> !ids_after_close(ids, id).contains(id),
        ids_after_close(ids_after_close(ids, id), id) == ids_after_close(ids, id),
{
    assert(ids.push(id)[ids.len() as int] == id);
    if id != default_id() {
        lemma_remove_value_unique(ids, id);
        let once = ids_after_close(ids, id);
        once.index_of_first_ensures(id);
    }
}

impl<C, P> SessionRegistry<C, P> {
    /// The session records, in order of creation.
    pub closed spec fn records(&self) -> Seq<BrowserSession<C, P>> {
        self.sessions@
    }

    /// The session identifiers, in order of creation.
    pub open spec fn ids(&self) -> Seq<Seq<char>> {
        self.records().map_values(|s: BrowserSession<C, P>| s.id@)
    }

    /// Identifiers are distinct and the default session comes first, in the
    /// browser's own context.
    pub open spec fn wf(&self) -> bool {
        &&& self.records().len() > 0
        &&& self.records()[0].id@ == default_id()
        &&& self.records()[0].context_id is None
        &&& self.ids().no_duplicates()
    }

    /// Starts a registry that holds the default session on the given page.
    pub fn new(default_page: P) -> (r: Self)
        ensures
            r.wf(),
            r.ids() == seq![default_id()],
            r.records().len() == 1,
            r.records()[0].id@ == default_id(),
            r.records()[0].context_id is None,
            r.records()[0].page == default_page,
    {
        let default_session = BrowserSession {
            id: String::from_str("default"),
            context_id: None,
            page: default_page,
        };
        let mut sessions = Vec::new();
        sessions.push(default_session);
        let r = SessionRegistry { sessions };
        proof {
            reveal_strlit("default");
            assert(r.ids() =~= seq![default_id()]);
        }
        r
    }

    /// Whether an identifier names the default session.
    pub fn is_default_session_id(session_id: &str) -> (r: bool)
        ensures
            r == (session_id@ == default_id()),
    {
        proof {
            reveal_strlit("default");
        }
        str_eq(session_id, "default")
    }

    /// The identifier of the default session.
    pub fn default_session_id(&self) -> (r: &str)
        ensures
            r@ == default_id(),
    {
        proof {
            reveal_strlit("default");
        }
        "default"
    }

    fn find(&self, id: &str) -> (r: Option<usize>)
        requires
            self.wf(),
        ensures
            r matches Some(i) ==> i < self.ids().len() && self.ids()[i as int] == id@
                && self.ids().index_of_first(id@) == Some(i as int),
            r is None ==> !self.ids().contains(id@),
    {
        let mut i: usize = 0;
        while i < self.sessions.len()
            invariant
                i <= self.sessions@.len(),
                forall|k: int| 0 <= k < i ==> self.ids()[k] != id@,
            decreases self.sessions.len() - i,
        {
            if str_eq(self.sessions[i].id.as_str(), id) {
                proof {
                    assert(self.ids()[i as int] == self.sessions@[i as int].id@);
                    assert(self.ids().contains(id@));
                    self.ids().index_of_first_ensures(id@);
                }
                return Some(i);
            }
            i = i + 1;
        }
        None
    }

    /// Whether a session has the identifier.
    pub fn contains(&self, id: &str) -> (r: bool)
        requires
            self.wf(),
        ensures
            r == self.ids().contains(id@),
    {
        self.find(id).is_some()
    }

    /// Decides a create request: an existing identifier is returned as it
    /// is; an unknown one needs a new isolated context.
    pub fn begin_create(&self, session_id: &str) -> (r: CreatePlan)
        requires
            self.wf(),
        ensures
            self.ids().contains(session_id@) ==> (r matches CreatePlan::Existing(id) && id@
                == session_id@),
            !self.ids().contains(session_id@) ==> (r matches CreatePlan::Allocate(id) && id@
                == session_id@),
    {
        if self.contains(session_id) {
            CreatePlan::Existing(String::from_str(session_id))
        } else {
            CreatePlan::Allocate(String::from_str(session_id))
        }
    }

    /// Records the outcome of allocating a context for a new session: on
    /// success the session is registered and its identifier returned; a
    /// failed allocation is `ContextCreation` and changes nothing.
    pub fn finish_create(&mut self, session_id: String, allocated: Result<(C, P), String>) -> (r:
        Result<String, GatewayError>)
        requires
            old(self).wf(),
            !old(self).ids().contains(session_id@),
        ensures
            final(self).wf(),
            allocated is Ok ==> (r matches Ok(id) && id@ == session_id@),
            allocated is Ok ==> final(self).ids() == ids_after_create(old(self).ids(), session_id@),
            allocated matches Ok(cp) ==> final(self).records().last().context_id == Some(cp.0)
                && final(self).records().last().page == cp.1,
            allocated matches Err(e) ==> r == Err::<String, GatewayError>(
                GatewayError::ContextCreation(e),
            ),
            allocated is Err ==> final(self).ids() == old(self).ids(),
            old(self).records().is_prefix_of(final(self).records()),
    {
        match allocated {
            Ok((context_id, page)) => {
                let id = String::from_str(session_id.as_str());
                let session = BrowserSession { id: session_id, context_id: Some(context_id), page };
                self.sessions.push(session);
                proof {
                    assert(self.ids() =~= old(self).ids().push(id@));
                    assert forall|a: int, b: int|
                        0 <= a < self.ids().len() && 0 <= b < self.ids().len() && a != b implies self.ids()[a]
                        != self.ids()[b] by {
                        if a < old(self).ids().len() && b < old(self).ids().len() {
                        } else if a < old(self).ids().len() {
                            assert(old(self).ids().contains(self.ids()[a]));
                        } else {
                            assert(old(self).ids().contains(self.ids()[b]));
                        }
                    }
                    assert(old(self).records() =~= self.records().subrange(0, old(self).records().len() as int));
                }
                Ok(id)
            },
            Err(e) => {
                proof {
                    assert(old(self).records() =~= self.records().subrange(0, old(self).records().len() as int));
                }
                Err(GatewayError::ContextCreation(e))
            },
        }
    }

    /// Closes a session. The default session cannot be closed
    /// (`ProtectedSession`). Any other identifier is removed if present and
    /// its isolated context handed back for disposal; closing an identifier
    /// that is not registered (for instance a second time) does nothing.
    pub fn close_session(&mut self, session_id: &str) -> (r: Result<Option<C>, GatewayError>)
        requires
            old(self).wf(),
        ensures
            final(self).wf(),
            final(self).ids() == ids_after_close(old(self).ids(), session_id@),
            session_id@ == default_id() || !old(self).ids().contains(session_id@) ==> final(self).records() == old(self).records(),
            session_id@ != default_id() && old(self).ids().contains(session_id@) ==> final(self).records() == old(self).records().remove(
                old(self).ids().index_of_first(session_id@)->Some_0,
            ),
            session_id@ == default_id() ==> (r matches Err(GatewayError::ProtectedSession(id))
                && id@ == session_id@),
            session_id@ != default_id() ==> r is Ok,
            session_id@ != default_id() && !old(self).ids().contains(session_id@) ==> r == Ok::<
                Option<C>,
                GatewayError,
            >(None),
            session_id@ != default_id() && old(self).ids().contains(session_id@) ==> r == Ok::<
                Option<C>,
                GatewayError,
            >(old(self).records()[old(self).ids().index_of_first(session_id@)->Some_0].context_id),
    {
        if str_eq(session_id, self.default_session_id()) {
            return Err(GatewayError::ProtectedSession(String::from_str(session_id)));
        }
        proof {
            old(self).ids().index_of_first_ensures(session_id@);
        }
        match self.find(session_id) {
            None => Ok(None),
            Some(i) => {
                proof {
                    reveal_strlit("default");
                    assert(i != 0);
                    lemma_remove_value_unique(old(self).ids(), session_id@);
                }
                let removed = self.sessions.remove(i);
                proof {
                    assert(self.ids() =~= old(self).ids().remove(i as int));
                }
                Ok(removed.context_id)
            },
        }
    }

    /// The session an operation runs against: the named one, or the default
    /// session when none is named. An unknown identifier is
    /// `SessionNotFound`.
    pub fn resolve(&self, session_id: Option<&str>) -> (r: Result<
        &BrowserSession<C, P>,
        GatewayError,
    >)
        requires
            self.wf(),
        ensures
            session_id is None ==> (r matches Ok(s) && *s == self.records()[0] && s.id@
                == default_id()),
            session_id matches Some(id) ==> (r is Ok <==> self.ids().contains(id@)),
            session_id matches Some(id) ==> (r matches Ok(s) ==> *s == self.records()[self.ids().index_of_first(id@)->Some_0] && s.id@ == id@),
            session_id matches Some(id) ==> (r matches Err(e) ==> e matches GatewayError::SessionNotFound(m) && m@ == id@),
    {
        match session_id {
            None => Ok(&self.sessions[0]),
            Some(id) => match self.find(id) {
                Some(i) => Ok(&self.sessions[i]),
                None => Err(GatewayError::SessionNotFound(String::from_str(id))),
            },
        }
    }

    /// The session identifiers, in order of creation.
    pub fn list_sessions(&self) -> (r: Vec<String>)
        requires
            self.wf(),
        ensures
            r@.map_values(|s: String| s@) == self.ids(),
    {
        let mut out: Vec<String> = Vec::new();
        let mut i: usize = 0;
        while i < self.sessions.len()
            invariant
                i <= self.sessions@.len(),
                out@.len() == i,
                forall|k: int| 0 <= k < i ==> (#[trigger] out@[k])@ == self.ids()[k],
            decreases self.sessions.len() - i,
        {
            out.push(String::from_str(self.sessions[i].id.as_str()));
            i = i + 1;
        }
        proof {
            assert(out@.map_values(|s: String| s@) =~= self.ids());
        }
        out
    }
}

} // verus!
