use fgp_browser::auth::{
    capture_auth_state, capture_cookie, capture_cookies, cookie_params, state_file_name,
    storage_state, summarize_state, ProtocolCookie,
};
use fgp_browser::models::{AuthState, LocalStorageState, SameSite, SerializableCookie};

fn cookie(name: &str, domain: &str, session: bool) -> ProtocolCookie {
    ProtocolCookie {
        name: name.to_string(),
        value: format!("{}-value", name),
        domain: domain.to_string(),
        path: "/".to_string(),
        expires_bits: 1735689600.5f64.to_bits(),
        session,
        secure: true,
        http_only: false,
        same_site: Some(SameSite::Lax),
    }
}

#[test]
fn session_cookies_are_saved_without_expiry() {
    let saved = capture_cookie(&cookie("sid", ".example.com", true));
    assert_eq!(saved.expires_bits, None);
    let kept = capture_cookie(&cookie("pref", ".example.com", false));
    assert_eq!(kept.expires_bits.map(f64::from_bits), Some(1735689600.5));
    assert_eq!(kept.value, "pref-value");
}

#[test]
fn cookies_round_trip_through_save_and_load() {
    let browser = vec![cookie("a", ".x.com", false), cookie("b", "y.org", true)];
    let saved = capture_cookies(&browser);
    let params = cookie_params(&saved);
    assert_eq!(params.len(), 2);
    for (p, c) in params.iter().zip(browser.iter()) {
        assert_eq!(p.name, c.name);
        assert_eq!(p.value, c.value);
        assert_eq!(p.domain.as_deref(), Some(c.domain.as_str()));
        assert_eq!(p.path.as_deref(), Some("/"));
        assert_eq!(p.secure, Some(true));
        assert_eq!(p.http_only, Some(false));
        assert_eq!(p.same_site, Some(SameSite::Lax));
    }
    assert_eq!(params[0].expires_bits, Some(1735689600.5f64.to_bits()));
    assert_eq!(params[1].expires_bits, None);
}

#[test]
fn storage_keeps_last_value_per_key() {
    let entries = vec![
        ("token".to_string(), "1".to_string()),
        ("theme".to_string(), "dark".to_string()),
        ("token".to_string(), "2".to_string()),
    ];
    let st = storage_state("https://example.com".to_string(), &entries);
    assert_eq!(st.origin, "https://example.com");
    assert_eq!(
        st.items,
        vec![("token".to_string(), "2".to_string()), ("theme".to_string(), "dark".to_string())]
    );
}

fn saved(domain: &str) -> SerializableCookie {
    capture_cookie(&cookie("c", domain, false))
}

#[test]
fn listing_summarises_distinct_domains() {
    let state = AuthState {
        cookies: vec![saved(".x.com"), saved("a.org"), saved(".x.com"), saved("b.net")],
        local_storage: LocalStorageState { origin: String::new(), items: vec![] },
        saved_at: "2026-01-15T10:00:00+00:00".to_string(),
    };
    let summary = summarize_state("work".to_string(), Some(&state));
    assert_eq!(summary.name, "work");
    assert_eq!(summary.domains, vec![".x.com", "a.org", "b.net"]);
    assert_eq!(summary.saved_at, "2026-01-15T10:00:00+00:00");
    let unreadable = summarize_state("broken".to_string(), None);
    assert!(unreadable.domains.is_empty());
    assert_eq!(unreadable.saved_at, "");
}

#[test]
fn captured_state_is_stamped() {
    let st = capture_auth_state(
        vec![saved("a.org")],
        LocalStorageState { origin: "https://a.org".to_string(), items: vec![] },
    );
    assert_eq!(st.cookies.len(), 1);
    assert_eq!(st.local_storage.origin, "https://a.org");
    assert!(st.saved_at.contains('T'));
    assert!(st.saved_at.starts_with("20"));
}

#[test]
fn state_files_are_json() {
    assert_eq!(state_file_name("github"), "github.json");
}
