use token_manager::exchange::{code_exchange_form, refresh_exchange_form, refresh_reply, RefreshReply};
use token_manager::expiry::{
    compute_expiry, expiry_in_range, needs_refresh, SAFETY_MARGIN,
};
use token_manager::refresh::{refresh_answer, RefreshCoordinator, RefreshStep, TokenRead};
use token_manager::token::{
    callback_code, complete_exchange, AuthError, CodeLedger, ProviderToken,
    TokenRecord,
};
use token_manager::url::{
    build_authorization_url, callback_uri, escape_component, join_scope_list, ClientCredentials,
};

const T: i64 = 1_700_000_000;

fn provider_token(access: &str, refresh: Option<&str>, expires_in: u64) -> ProviderToken {
    ProviderToken {
        access_token: access.to_string(),
        token_type: "Bearer".to_string(),
        expires_in,
        refresh_token: refresh.map(|r| r.to_string()),
    }
}

fn record(access: &str, refresh: &str, expires_at: i64) -> TokenRecord {
    TokenRecord {
        access_token: access.to_string(),
        refresh_token: refresh.to_string(),
        token_type: "Bearer".to_string(),
        expires_at,
    }
}

#[test]
fn expiry_subtracts_margin() {
    assert_eq!(SAFETY_MARGIN, 450);
    assert_eq!(compute_expiry(T, 3600), T + 3150);
    assert_eq!(compute_expiry(0, 450), 0);
    assert_eq!(compute_expiry(1000, 1000), 1550);
}

#[test]
fn short_lifetime_is_already_expired() {
    assert!(compute_expiry(T, 0) < T);
    assert!(compute_expiry(T, 449) < T);
    assert_eq!(compute_expiry(T, 100), T - 350);
}

#[test]
fn expiry_range_edges() {
    assert!(expiry_in_range(i64::MAX - 1000, 1000));
    assert!(!expiry_in_range(i64::MAX, 451));
    assert!(expiry_in_range(i64::MAX, 450));
    assert!(!expiry_in_range(i64::MIN, 0));
    assert!(!expiry_in_range(0, u64::MAX));
}

#[test]
fn refresh_due_within_one_tick() {
    assert!(needs_refresh(T, T, 0));
    assert!(needs_refresh(T - 1, T, 0));
    assert!(needs_refresh(T + 60, T, 60));
    assert!(!needs_refresh(T + 61, T, 60));
    assert!(needs_refresh(i64::MAX, i64::MAX, u64::MAX));
}

#[test]
fn code_exchange_scenario() {
    let token = provider_token("AT1", Some("RT1"), 3600);
    let r = complete_exchange(200, Some(token), "{}".to_string(), T).unwrap();
    assert_eq!(r, record("AT1", "RT1", T + 3150));
}

#[test]
fn code_exchange_rejected_by_provider() {
    let payload = "{\"error\":\"invalid_grant\"}".to_string();
    let token = provider_token("AT1", Some("RT1"), 3600);
    let r = complete_exchange(400, Some(token), payload.clone(), T);
    assert_eq!(r, Err(AuthError::Exchange(payload)));
}

#[test]
fn code_exchange_malformed_body() {
    let r = complete_exchange(200, None, "not json".to_string(), T);
    assert_eq!(r, Err(AuthError::Exchange("not json".to_string())));
    let token = provider_token("AT1", None, 3600);
    let r = complete_exchange(200, Some(token), "{}".to_string(), T);
    assert_eq!(r, Err(AuthError::Exchange("{}".to_string())));
    let token = provider_token("AT1", Some("RT1"), u64::MAX);
    let r = complete_exchange(200, Some(token), "{}".to_string(), T);
    assert_eq!(r, Err(AuthError::Exchange("{}".to_string())));
}

#[test]
fn callback_takes_code_or_error() {
    assert_eq!(callback_code(Some("abc123".to_string()), None), Ok("abc123".to_string()));
    assert_eq!(
        callback_code(Some("abc123".to_string()), Some("access_denied".to_string())),
        Err(AuthError::Denied("access_denied".to_string()))
    );
    assert_eq!(callback_code(None, None), Err(AuthError::MissingCode));
}

#[test]
fn code_is_redeemed_once() {
    let mut ledger = CodeLedger::new();
    let code = "abc123".to_string();
    assert!(!ledger.is_redeemed(&code));
    assert!(ledger.claim(code.clone()));
    assert!(ledger.is_redeemed(&code));
    assert!(!ledger.claim(code.clone()));
    assert!(!ledger.is_redeemed(&"other".to_string()));
}

#[test]
fn exchange_then_read_round_trip() {
    let token = provider_token("AT1", Some("RT1"), 3600);
    let rec = complete_exchange(200, Some(token), "{}".to_string(), T).unwrap();
    let mut c = RefreshCoordinator::new(None);
    c.release_startup_guard();
    assert_eq!(c.read_token(), TokenRead::Ready(None));
    assert_eq!(c.install(rec), Ok(()));
    assert_eq!(c.read_token(), TokenRead::Ready(Some("AT1".to_string())));
    let kept = c.record().clone().unwrap();
    assert_eq!(kept.refresh_token, "RT1");
    assert_eq!(kept.token_type, "Bearer");
    assert_eq!(kept.expires_at, T + 3150);
    assert_ne!(kept.expires_at, 3600);
}

#[test]
fn readers_wait_at_startup() {
    let mut c = RefreshCoordinator::new(Some(record("AT0", "RT0", T)));
    assert!(c.is_refreshing());
    assert_eq!(c.read_token(), TokenRead::Wait);
    c.release_startup_guard();
    assert!(!c.is_refreshing());
    assert_eq!(c.read_token(), TokenRead::Ready(Some("AT0".to_string())));
}

#[test]
fn readers_wait_during_refresh_then_see_new_token() {
    let mut c = RefreshCoordinator::new(Some(record("AT0", "RT0", T)));
    c.release_startup_guard();
    assert_eq!(c.begin_refresh(T, 60), RefreshStep::Exchange("RT0".to_string()));
    assert_eq!(c.read_token(), TokenRead::Wait);
    assert_eq!(c.read_token(), TokenRead::Wait);
    assert_eq!(c.begin_refresh(T, 60), RefreshStep::Idle);
    let stored = c.finish_refresh(Some(provider_token("AT2", None, 3600)), T + 5);
    assert_eq!(stored, Some(record("AT2", "RT0", T + 5 + 3150)));
    assert_eq!(c.read_token(), TokenRead::Ready(Some("AT2".to_string())));
    assert_eq!(c.read_token(), TokenRead::Ready(Some("AT2".to_string())));
}

#[test]
fn refresh_replaces_refresh_token_when_given() {
    let mut c = RefreshCoordinator::new(Some(record("AT0", "RT0", T)));
    c.release_startup_guard();
    assert_eq!(c.begin_refresh(T, 0), RefreshStep::Exchange("RT0".to_string()));
    let stored = c.finish_refresh(Some(provider_token("AT2", Some("RT2"), 3600)), T);
    assert_eq!(stored, Some(record("AT2", "RT2", T + 3150)));
    assert_eq!(c.record(), &Some(record("AT2", "RT2", T + 3150)));
}

#[test]
fn failed_refresh_keeps_record_and_releases_guard() {
    let before = record("AT0", "RT0", T);
    let mut c = RefreshCoordinator::new(Some(before.clone()));
    c.release_startup_guard();
    assert_eq!(c.begin_refresh(T + 10, 0), RefreshStep::Exchange("RT0".to_string()));
    assert_eq!(c.finish_refresh(None, T + 10), None);
    assert!(!c.is_refreshing());
    assert_eq!(c.record(), &Some(before));
    assert_eq!(c.read_token(), TokenRead::Ready(Some("AT0".to_string())));
}

#[test]
fn refresh_not_due_stays_idle() {
    let mut c = RefreshCoordinator::new(Some(record("AT0", "RT0", T + 1000)));
    c.release_startup_guard();
    assert_eq!(c.begin_refresh(T, 60), RefreshStep::Idle);
    assert!(!c.is_refreshing());
    let mut empty = RefreshCoordinator::new(None);
    empty.release_startup_guard();
    assert_eq!(empty.begin_refresh(T, 60), RefreshStep::Idle);
}

#[test]
fn on_demand_refresh_provider_error() {
    let body = "{\"error\":\"invalid_grant\",\"error_description\":\"Invalid refresh token\"}";
    let reply = refresh_reply(Ok((400, body.to_string())));
    assert_eq!(reply.status(), 400);
    match reply {
        RefreshReply::Error(m) => assert!(m.contains("invalid_grant")),
        RefreshReply::Token(_) => panic!("expected an error reply"),
    }
}

#[test]
fn on_demand_refresh_success_and_failure() {
    let body = "{\"access_token\":\"AT9\"}".to_string();
    let reply = refresh_reply(Ok((200, body.clone())));
    assert_eq!(reply.status(), 200);
    assert_eq!(reply, RefreshReply::Token(body));
    let reply = refresh_reply(Err("connection refused".to_string()));
    assert_eq!(reply, RefreshReply::Error("connection refused".to_string()));
    assert_eq!(reply.status(), 400);
}

#[test]
fn exchange_forms() {
    let f = code_exchange_form("abc123", "http://127.0.0.1:8080/callback");
    assert_eq!(
        f,
        vec![
            ("grant_type".to_string(), "authorization_code".to_string()),
            ("code".to_string(), "abc123".to_string()),
            ("redirect_uri".to_string(), "http://127.0.0.1:8080/callback".to_string()),
        ]
    );
    let f = refresh_exchange_form("RT1");
    assert_eq!(
        f,
        vec![
            ("grant_type".to_string(), "refresh_token".to_string()),
            ("refresh_token".to_string(), "RT1".to_string()),
        ]
    );
}

#[test]
fn escape_redirect_uri() {
    assert_eq!(
        escape_component("http://127.0.0.1:8080/callback"),
        "http%3A%2F%2F127.0.0.1%3A8080%2Fcallback"
    );
    assert_eq!(escape_component(""), "");
    assert_eq!(escape_component("a-b_c.d~e"), "a-b_c.d~e");
    assert_eq!(escape_component("a b&c=d"), "a%20b%26c%3Dd");
    assert_eq!(escape_component("é"), "%C3%A9");
    assert_eq!(escape_component("€"), "%E2%82%AC");
    assert_eq!(escape_component("😀"), "%F0%9F%98%80");
}

#[test]
fn join_scopes_in_order() {
    assert_eq!(join_scope_list(&vec![]), "");
    assert_eq!(join_scope_list(&vec!["user-read-private".to_string()]), "user-read-private");
    assert_eq!(
        join_scope_list(&vec!["b".to_string(), "a".to_string(), "c".to_string()]),
        "b%20a%20c"
    );
}

#[test]
fn authorization_url_is_exact() {
    let creds = ClientCredentials {
        client_id: "cid".to_string(),
        client_secret: "SECRET-REDACTED".to_string(),
        scopes: vec!["user-read-private".to_string(), "user-read-email".to_string()],
    };
    let redirect = callback_uri("127.0.0.1:8080");
    assert_eq!(redirect, "http://127.0.0.1:8080/callback");
    assert_eq!(
        build_authorization_url(&creds, &redirect),
        "https://accounts.spotify.com/authorize?client_id=cid&response_type=code\
         &redirect_uri=http%3A%2F%2F127.0.0.1%3A8080%2Fcallback\
         &scope=user-read-private%20user-read-email"
    );
}

#[test]
fn refresh_persisted_before_install() {
    let before = record("AT0", "RT0", T);
    let mut c = RefreshCoordinator::new(Some(before.clone()));
    c.release_startup_guard();
    assert_eq!(c.begin_refresh(T, 0), RefreshStep::Exchange("RT0".to_string()));
    let fresh = c.refreshed_record(Some(provider_token("AT2", None, 3600)), T);
    assert_eq!(fresh, Some(record("AT2", "RT0", T + 3150)));
    assert_eq!(c.read_token(), TokenRead::Wait);
    assert_eq!(c.record(), &Some(before.clone()));
    c.end_refresh(fresh);
    assert_eq!(c.read_token(), TokenRead::Ready(Some("AT2".to_string())));
}

#[test]
fn unpersisted_refresh_keeps_record() {
    let before = record("AT0", "RT0", T);
    let mut c = RefreshCoordinator::new(Some(before.clone()));
    c.release_startup_guard();
    assert_eq!(c.begin_refresh(T, 0), RefreshStep::Exchange("RT0".to_string()));
    c.end_refresh(None);
    assert!(!c.is_refreshing());
    assert_eq!(c.record(), &Some(before));
}

#[test]
fn refresh_answer_needs_success_status() {
    let t = provider_token("AT2", None, 3600);
    assert_eq!(refresh_answer(200, Some(t.clone())), Some(t.clone()));
    assert_eq!(refresh_answer(400, Some(t)), None);
    assert_eq!(refresh_answer(200, None), None);
}

#[test]
fn short_lifetime_exchange_succeeds_already_due() {
    let token = provider_token("AT1", Some("RT1"), 100);
    let r = complete_exchange(200, Some(token), "{}".to_string(), T).unwrap();
    assert_eq!(r.expires_at, T - 350);
    assert!(needs_refresh(r.expires_at, T, 0));
}

#[test]
fn install_refused_while_refreshing() {
    let mut c = RefreshCoordinator::new(None);
    let rec = record("AT1", "RT1", T);
    assert_eq!(c.install(rec.clone()), Err(rec.clone()));
    assert_eq!(c.record(), &None);
    c.release_startup_guard();
    assert_eq!(c.install(rec.clone()), Ok(()));
    assert_eq!(c.begin_refresh(T, 0), RefreshStep::Exchange("RT1".to_string()));
    let other = record("AT9", "RT9", T);
    assert_eq!(c.install(other.clone()), Err(other));
    assert_eq!(c.record(), &Some(rec));
}

#[test]
fn refreshed_record_has_no_effect_without_record() {
    let empty = RefreshCoordinator::new(None);
    assert_eq!(empty.refreshed_record(Some(provider_token("AT2", None, 3600)), T), None);
    let c = RefreshCoordinator::new(Some(record("AT0", "RT0", T)));
    assert_eq!(c.refreshed_record(None, T), None);
    assert_eq!(c.refreshed_record(Some(provider_token("AT2", None, u64::MAX)), T), None);
}
