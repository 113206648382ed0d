//! Saved authentication state: cookies and one origin's local storage.
//!
//! Saving captures the session's cookies as they are and its local
//! storage; loading sets the same cookies again and replaces the local
//! storage, which is cleared before the saved entries are written.

use vstd::prelude::*;

use crate::models::{AuthState, LocalStorageState, SameSite, SavedState, SerializableCookie};
use crate::text::str_eq;

verus! {

/// A cookie as the browser reports it.
#[derive(Debug, Clone)]
pub struct ProtocolCookie {
    pub name: String,
    pub value: String,
    pub domain: String,
    pub path: String,
    /// Expiry, as the bit pattern of the protocol's double; meaningless
    /// for a session cookie.
    pub expires_bits: u64,
    /// Whether the cookie lives only as long as the browser session.
    pub session: bool,
    pub secure: bool,
    pub http_only: bool,
    pub same_site: Option<SameSite>,
}

/// A cookie to set in the browser.
#[derive(Debug, Clone)]
pub struct CookieParam {
    pub name: String,
    pub value: String,
    pub domain: Option<String>,
    pub path: Option<String>,
    pub secure: Option<bool>,
    pub http_only: Option<bool>,
    pub same_site: Option<SameSite>,
    /// Expiry, as the bit pattern of the protocol's double.
    pub expires_bits: Option<u64>,
}

/// How a browser cookie is saved: a session cookie has no expiry.
pub open spec fn saved_cookie(c: ProtocolCookie) -> SerializableCookie {
    SerializableCookie {
        name: c.name,
        value: c.value,
        domain: c.domain,
        path: c.path,
        expires_bits: if c.session {
            None
        } else {
            Some(c.expires_bits)
        },
        secure: c.secure,
        http_only: c.http_only,
        same_site: c.same_site,
    }
}

/// How a saved cookie is set again.
pub open spec fn restore_param(c: SerializableCookie) -> CookieParam {
    CookieParam {
        name: c.name,
        value: c.value,
        domain: Some(c.domain),
        path: Some(c.path),
        secure: Some(c.secure),
        http_only: Some(c.http_only),
        same_site: c.same_site,
        expires_bits: c.expires_bits,
    }
}

/// Saves one browser cookie.
pub fn capture_cookie(c: &ProtocolCookie) -> (r: SerializableCookie)
    ensures
        r == saved_cookie(*c),
{
    SerializableCookie {
        name: c.name.clone(),
        value: c.value.clone(),
        domain: c.domain.clone(),
        path: c.path.clone(),
        expires_bits: if c.session {
            None
        } else {
            Some(c.expires_bits)
        },
        secure: c.secure,
        http_only: c.http_only,
        same_site: c.same_site,
    }
}

/// Saves the cookies of a session, in the order the browser reports them.
pub fn capture_cookies(cookies: &Vec<ProtocolCookie>) -> (r: Vec<SerializableCookie>)
    ensures
        r@ == cookies@.map_values(|c: ProtocolCookie| saved_cookie(c)),
{
    let mut out: Vec<SerializableCookie> = Vec::new();
    let mut i: usize = 0;
    while i < cookies.len()
        invariant
            i <= cookies@.len(),
            out@ == cookies@.subrange(0, i as int).map_values(|c: ProtocolCookie| saved_cookie(c)),
        decreases cookies.len() - i,
    {
        out.push(capture_cookie(&cookies[i]));
        proof {
            assert(out@ =~= cookies@.subrange(0, i + 1).map_values(|c: ProtocolCookie| saved_cookie(c)));
        }
        i = i + 1;
    }
    proof {
        assert(cookies@.subrange(0, i as int) =~= cookies@);
    }
    out
}

/// Turns one saved cookie into the cookie to set.
pub fn cookie_param(c: &SerializableCookie) -> (r: CookieParam)
    ensures
        r == restore_param(*c),
{
    CookieParam {
        name: c.name.clone(),
        value: c.value.clone(),
        domain: Some(c.domain.clone()),
        path: Some(c.path.clone()),
        secure: Some(c.secure),
        http_only: Some(c.http_only),
        same_site: c.same_site,
        expires_bits: c.expires_bits,
    }
}

/// Turns saved cookies into the cookies to set, in order.
pub fn cookie_params(cookies: &Vec<SerializableCookie>) -> (r: Vec<CookieParam>)
    ensures
        r@ == cookies@.map_values(|c: SerializableCookie| restore_param(c)),
{
    let mut out: Vec<CookieParam> = Vec::new();
    let mut i: usize = 0;
    while i < cookies.len()
        invariant
            i <= cookies@.len(),
            out@ == cookies@.subrange(0, i as int).map_values(
                |c: SerializableCookie| restore_param(c),
            ),
        decreases cookies.len() - i,
    {
        out.push(cookie_param(&cookies[i]));
        proof {
            assert(out@ =~= cookies@.subrange(0, i + 1).map_values(
                |c: SerializableCookie| restore_param(c),
            ));
        }
        i = i + 1;
    }
    proof {
        assert(cookies@.subrange(0, i as int) =~= cookies@);
    }
    out
}

/// Saving a session's cookies and loading them again sets every cookie
/// with the name, value, domain, path, flags and expiry it had, one for
/// one and in the same order; a session cookie comes back without expiry.
pub proof fn lemma_cookie_round_trip(cookies: Seq<ProtocolCookie>)
    ensures
        ({
            let restored = cookies.map_values(|c: ProtocolCookie| saved_cookie(c)).map_values(
                |c: SerializableCookie| restore_param(c),
            );
            &&& restored.len() == cookies.len()
            &&& forall|i: int|
                0 <= i < cookies.len() ==> {
                    let (p, c) = (#[trigger] restored[i], cookies[i]);
                    &&& p.name == c.name
                    &&& p.value == c.value
                    &&& p.domain == Some(c.domain)
                    &&& p.path == Some(c.path)
                    &&& p.secure == Some(c.secure)
                    &&& p.http_only == Some(c.http_only)
                    &&& p.same_site == c.same_site
                    &&& p.expires_bits == (if c.session {
                        None
                    } else {
                        Some(c.expires_bits)
                    })
                }
        }),
{
}

/// The view of a list of key/value pairs.
pub open spec fn pair_texts(items: Seq<(String, String)>) -> Seq<(Seq<char>, Seq<char>)> {
    items.map_values(|e: (String, String)| (e.0@, e.1@))
}

/// The local storage of an origin as key/value pairs, a later entry for a
/// key replacing an earlier one.
pub open spec fn storage_map(items: Seq<(Seq<char>, Seq<char>)>) -> Map<Seq<char>, Seq<char>>
    decreases items.len(),
{
    if items.len() == 0 {
        Map::empty()
    } else {
        storage_map(items.drop_last()).insert(items.last().0, items.last().1)
    }
}

/// The keys of a list of pairs.
pub open spec fn pair_keys(items: Seq<(Seq<char>, Seq<char>)>) -> Seq<Seq<char>> {
    items.map_values(|e: (Seq<char>, Seq<char>)| e.0)
}

/// A local storage state holds each key once.
pub open spec fn storage_wf(s: LocalStorageState) -> bool {
    pair_keys(pair_texts(s.items@)).no_duplicates()
}

/// Captures an origin's local storage from its entries: each key once,
/// with its last value, in order of first appearance.
pub fn storage_state(origin: String, entries: &Vec<(String, String)>) -> (r: LocalStorageState)
    ensures
        r.origin == origin,
        storage_map(pair_texts(r.items@)) == storage_map(pair_texts(entries@)),
        storage_wf(r),
{
    let mut items: Vec<(String, String)> = Vec::new();
    let mut i: usize = 0;
    while i < entries.len()
        invariant
            i <= entries@.len(),
            storage_map(pair_texts(items@)) == storage_map(pair_texts(entries@.subrange(0, i as int))),
            pair_keys(pair_texts(items@)).no_duplicates(),
        decreases entries.len() - i,
    {
        let key = &entries[i].0;
        let value = &entries[i].1;
        let ghost before = items@;
        let mut j: usize = 0;
        let mut found = false;
        while j < items.len() && !found
            invariant
                j <= items@.len(),
                items@ == before,
                found ==> j < items@.len() && items@[j as int].0@ == key@,
                forall|k: int| 0 <= k < j ==> (#[trigger] items@[k]).0@ != key@,
            decreases items.len() - j + (if found {
                0int
            } else {
                1int
            }),
        {
            if str_eq(items[j].0.as_str(), key.as_str()) {
                found = true;
            } else {
                j = j + 1;
            }
        }
        proof {
            assert(pair_texts(entries@.subrange(0, i + 1)).drop_last() =~= pair_texts(
                entries@.subrange(0, i as int),
            ));
        }
        if found {
            items.set(j, (key.clone(), value.clone()));
            proof {
                lemma_storage_map_update(before, j as int, items@);
            }
        } else {
            items.push((key.clone(), value.clone()));
            proof {
                assert(pair_texts(items@).drop_last() =~= pair_texts(before));
                assert forall|a: int, b: int|
                    0 <= a < items@.len() && 0 <= b < items@.len() && a != b implies pair_keys(
                    pair_texts(items@),
                )[a] != pair_keys(pair_texts(items@))[b] by {
                    if a < before.len() {
                        assert(pair_keys(pair_texts(items@))[a] == pair_keys(pair_texts(before))[a]);
                        assert(pair_keys(pair_texts(before))[a] == before[a].0@);
                    }
                    if b < before.len() {
                        assert(pair_keys(pair_texts(items@))[b] == pair_keys(pair_texts(before))[b]);
                        assert(pair_keys(pair_texts(before))[b] == before[b].0@);
                    }
                }
            }
        }
        i = i + 1;
    }
    proof {
        assert(entries@.subrange(0, i as int) =~= entries@);
    }
    LocalStorageState { origin, items }
}

proof fn lemma_storage_map_update(
    before: Seq<(String, String)>,
    j: int,
    after: Seq<(String, String)>,
)
    requires
        0 <= j < before.len(),
        after.len() == before.len(),
        after[j].0@ == before[j].0@,
        forall|k: int| 0 <= k < before.len() && k != j ==> after[k] == before[k],
        pair_keys(pair_texts(before)).no_duplicates(),
    ensures
        storage_map(pair_texts(after)) == storage_map(pair_texts(before)).insert(
            after[j].0@,
            after[j].1@,
        ),
        pair_keys(pair_texts(after)).no_duplicates(),
    decreases before.len(),
{
    let (pb, pa) = (pair_texts(before), pair_texts(after));
    assert forall|a: int, b: int|
        0 <= a < after.len() && 0 <= b < after.len() && a != b implies pair_keys(pa)[a]
        != pair_keys(pa)[b] by {
        assert(pair_keys(pb)[a] != pair_keys(pb)[b]);
    }
    if j == before.len() - 1 {
        assert(pa.drop_last() =~= pb.drop_last());
        assert(storage_map(pa) =~= storage_map(pb).insert(after[j].0@, after[j].1@));
    } else {
        let (b2, a2) = (before.drop_last(), after.drop_last());
        assert(pair_texts(b2) =~= pb.drop_last());
        assert(pair_texts(a2) =~= pa.drop_last());
        assert forall|a: int, b: int|
            0 <= a < b2.len() && 0 <= b < b2.len() && a != b implies pair_keys(pair_texts(b2))[a]
            != pair_keys(pair_texts(b2))[b] by {
            assert(pair_keys(pb)[a] != pair_keys(pb)[b]);
        }
        lemma_storage_map_update(b2, j, a2);
        assert(pb.last().0 != after[j].0@) by {
            assert(pair_keys(pb)[before.len() - 1] != pair_keys(pb)[j]);
        }
        assert(storage_map(pa) =~= storage_map(pb).insert(after[j].0@, after[j].1@));
    }
}

/// The distinct cookie domains, in order of first appearance.
pub open spec fn distinct_domains(cookies: Seq<SerializableCookie>) -> Seq<Seq<char>>
    decreases cookies.len(),
{
    if cookies.len() == 0 {
        Seq::empty()
    } else {
        let d = distinct_domains(cookies.drop_last());
        if d.contains(cookies.last().domain@) {
            d
        } else {
            d.push(cookies.last().domain@)
        }
    }
}

/// Summarises a saved state for listing: its name, its distinct cookie
/// domains in order of first appearance, and when it was saved. A record
/// that could not be read is listed with no domain and no time.
pub fn summarize_state(name: String, state: Option<&AuthState>) -> (r: SavedState)
    ensures
        r.name == name,
        state is None ==> r.domains@.len() == 0 && r.saved_at@.len() == 0,
        state matches Some(s) ==> r.domains@.map_values(|d: String| d@) == distinct_domains(
            s.cookies@,
        ) && r.saved_at == s.saved_at,
{
    match state {
        None => SavedState { name, domains: Vec::new(), saved_at: String::new() },
        Some(s) => {
            let mut domains: Vec<String> = Vec::new();
            let mut i: usize = 0;
            while i < s.cookies.len()
                invariant
                    i <= s.cookies@.len(),
                    domains@.map_values(|d: String| d@) == distinct_domains(
                        s.cookies@.subrange(0, i as int),
                    ),
                decreases s.cookies.len() - i,
            {
                let domain = &s.cookies[i].domain;
                let ghost seen = domains@.map_values(|d: String| d@);
                let mut j: usize = 0;
                let mut found = false;
                while j < domains.len()
                    invariant
                        j <= domains@.len(),
                        seen == domains@.map_values(|d: String| d@),
                        !found ==> forall|k: int| 0 <= k < j ==> seen[k] != domain@,
                        found ==> seen.contains(domain@),
                    decreases domains.len() - j,
                {
                    if str_eq(domains[j].as_str(), domain.as_str()) {
                        found = true;
                        proof {
                            assert(seen[j as int] == domain@);
                        }
                    }
                    j = j + 1;
                }
                proof {
                    assert(s.cookies@.subrange(0, i + 1).drop_last() =~= s.cookies@.subrange(
                        0,
                        i as int,
                    ));
                }
                if !found {
                    domains.push(domain.clone());
                    proof {
                        assert(domains@.map_values(|d: String| d@) =~= seen.push(domain@));
                    }
                }
                i = i + 1;
            }
            proof {
                assert(s.cookies@.subrange(0, i as int) =~= s.cookies@);
            }
            SavedState { name, domains, saved_at: s.saved_at.clone() }
        },
    }
}

/// Relies on `chrono::Utc::now` and `DateTime::to_rfc3339`: the current
/// time in RFC 3339 form.
#[verifier::external_body]
fn now_rfc3339() -> String {
    chrono::Utc::now().to_rfc3339()
}

/// Captures a session's authentication state, stamped with the current time.
pub fn capture_auth_state(
    cookies: Vec<SerializableCookie>,
    local_storage: LocalStorageState,
) -> (r: AuthState)
    ensures
        r.cookies == cookies,
        r.local_storage == local_storage,
{
    AuthState { cookies, local_storage, saved_at: now_rfc3339() }
}

/// The file name a state is saved under.
pub fn state_file_name(name: &str) -> (r: String)
    ensures
        r@ == name@ + ".json"@,
{
    let mut r = String::from_str(name);
    r.append(".json");
    r
}

} // verus!
