use fxa_client::{
    AccessTokenStep, AccountSnapshot, AccountState, Device, DeviceCapability, FirefoxAccount, FxaError,
    IncomingDeviceCommand, MigrationFailure, MigrationState, ScopedKey, SendOutcome, TokenGrant, TokenResponse,
    TransportError, SAFETY_MARGIN_SECS,
};

fn scopes(list: &[&str]) -> Vec<String> {
    list.iter().map(|s| s.to_string()).collect()
}

fn fresh() -> FirefoxAccount {
    FirefoxAccount::new("https://accounts.example.com", "client123", "https://app.example.com/cb", &None)
}

fn key(scope: &str, k: &str) -> ScopedKey {
    ScopedKey { scope: scope.to_string(), kid: format!("kid-{}", k), k: k.to_string() }
}

fn grant(refresh: &str, keys: Vec<ScopedKey>) -> TokenGrant {
    TokenGrant { refresh_token: refresh.to_string(), session_token: None, uid: "uid1".to_string(), scoped_keys: keys }
}

fn connected() -> FirefoxAccount {
    let mut a = fresh();
    a.begin_oauth_flow(&scopes(&["profile"]), "test", "nonce1", "verifier1", "challenge1", 100);
    a.complete_oauth_flow("nonce1", Ok(grant("refresh1", vec![]))).unwrap();
    a
}

fn pending_id(a: &FirefoxAccount) -> u64 {
    a.refreshing.pending.last().expect("a refresh is outstanding").id
}

fn refresh_request_token(step: &AccessTokenStep) -> String {
    match step {
        AccessTokenStep::Refresh(req) => req.refresh_token.clone(),
        other => panic!("expected a refresh, got {:?}", other),
    }
}

#[test]
fn new_account_is_signed_out() {
    let a = FirefoxAccount::new("https://accounts.example.com", "id", "https://r", &Some("https://tok".to_string()));
    assert!(matches!(a.state, AccountState::SignedOut));
    assert_eq!(a.client_id, "id");
    assert_eq!(a.token_server_url_override, Some("https://tok".to_string()));
    assert!(a.access_tokens.is_empty());
    assert_eq!(a.migration, MigrationState::NotStarted);
}

#[test]
fn oauth_flow_scenario() {
    let mut a = fresh();
    let url = a.begin_oauth_flow(&scopes(&["profile"]), "home", "st8-nonce", "ver", "chal", 10);
    assert!(url.contains("st8-nonce"));
    assert!(matches!(a.state, AccountState::Connecting(_)));
    let ex = a.oauth_code_exchange("st8-nonce", "code42").unwrap();
    assert_eq!(ex.code, "code42");
    assert_eq!(ex.code_verifier, "ver");
    assert_eq!(a.complete_oauth_flow("wrong", Ok(grant("r", vec![]))), Err(FxaError::FlowMismatch));
    assert!(matches!(a.state, AccountState::Connecting(_)));
    assert_eq!(a.complete_oauth_flow("st8-nonce", Ok(grant("r", vec![]))), Ok(()));
    match &a.state {
        AccountState::Connected { credentials, flow } => {
            assert_eq!(credentials.refresh_token, "r");
            assert!(flow.is_none());
        }
        _ => panic!("not connected"),
    }
}

#[test]
fn authorization_url_is_exact() {
    let mut a = fresh();
    let url = a.begin_oauth_flow(&scopes(&["profile", "sync"]), "menu", "abc", "v", "xyz", 0);
    assert_eq!(
        url,
        "https://accounts.example.com/authorization?client_id=client123&redirect_uri=https://app.example.com/cb\
         &scope=profile+sync&state=abc&code_challenge_method=S256&code_challenge=xyz&access_type=offline&entrypoint=menu"
    );
}

#[test]
fn pairing_url_is_exact() {
    let mut a = fresh();
    let url = a.begin_pairing_flow("https://pair.example.com/x", &scopes(&["profile"]), "p", "n", "v", "c", 0);
    assert_eq!(
        url,
        "https://pair.example.com/x#client_id=client123&redirect_uri=https://app.example.com/cb\
         &scope=profile&state=n&code_challenge_method=S256&code_challenge=c&access_type=offline&entrypoint=p"
    );
    assert_eq!(a.complete_oauth_flow("n", Ok(grant("r", vec![]))), Ok(()));
}

#[test]
fn complete_without_flow_is_flow_mismatch() {
    let mut a = fresh();
    assert_eq!(a.complete_oauth_flow("x", Ok(grant("r", vec![]))), Err(FxaError::FlowMismatch));
    assert!(matches!(a.state, AccountState::SignedOut));
    assert_eq!(a.oauth_code_exchange("x", "c"), Err(FxaError::FlowMismatch));
}

#[test]
fn new_flow_supersedes_old_one() {
    let mut a = fresh();
    a.begin_oauth_flow(&scopes(&["profile"]), "e", "first", "v1", "c1", 0);
    a.begin_oauth_flow(&scopes(&["profile"]), "e", "second", "v2", "c2", 0);
    assert_eq!(a.complete_oauth_flow("first", Ok(grant("r", vec![]))), Err(FxaError::FlowMismatch));
    assert_eq!(a.complete_oauth_flow("second", Ok(grant("r", vec![]))), Ok(()));
}

#[test]
fn failed_exchange_changes_nothing() {
    let mut a = fresh();
    a.begin_oauth_flow(&scopes(&["profile"]), "e", "n", "v", "c", 0);
    assert_eq!(a.complete_oauth_flow("n", Err(TransportError::Network)), Err(FxaError::Transient));
    assert_eq!(a.complete_oauth_flow("n", Err(TransportError::InvalidGrant)), Err(FxaError::AuthenticationError));
    assert!(matches!(a.state, AccountState::Connecting(_)));
}

#[test]
fn access_token_needs_connection() {
    let mut a = fresh();
    assert_eq!(a.begin_access_token(&scopes(&["profile"]), 0).unwrap_err(), FxaError::NotAuthenticated);
    assert_eq!(
        a.finish_access_token(0, 0, Ok(TokenResponse { access_token: "t".to_string(), expires_in: 3600 }))
            .unwrap_err(),
        FxaError::NotAuthenticated
    );
}

#[test]
fn refresh_then_cached() {
    let mut a = connected();
    let s = scopes(&["profile"]);
    let step = a.begin_access_token(&s, 1000).unwrap();
    assert_eq!(refresh_request_token(&step), "refresh1");
    let t = a
        .finish_access_token(pending_id(&a), 1000, Ok(TokenResponse { access_token: "tok1".to_string(), expires_in: 3600 }))
        .unwrap();
    assert_eq!(t.token, "tok1");
    assert_eq!(t.expires_at, 4600);
    assert!(t.expires_at > 1000 + SAFETY_MARGIN_SECS);
    match a.begin_access_token(&s, 2000).unwrap() {
        AccessTokenStep::Cached(c) => assert_eq!(c.token, "tok1"),
        other => panic!("expected the cached token, got {:?}", other),
    }
    assert!(a.refreshing.pending.is_empty());
}

#[test]
fn cached_token_within_margin_is_not_served() {
    let mut a = connected();
    let s = scopes(&["profile"]);
    a.begin_access_token(&s, 0).unwrap();
    a.finish_access_token(pending_id(&a), 0, Ok(TokenResponse { access_token: "tok".to_string(), expires_in: 100 })).unwrap();
    // 100 - 60 = 40: served before 40, not at 40.
    assert!(matches!(a.begin_access_token(&s, 39).unwrap(), AccessTokenStep::Cached(_)));
    assert!(matches!(a.begin_access_token(&s, 40).unwrap(), AccessTokenStep::Refresh(_)));
}

#[test]
fn expired_token_triggers_one_refresh() {
    let mut a = connected();
    let s = scopes(&["profile"]);
    a.begin_access_token(&s, 0).unwrap();
    a.finish_access_token(pending_id(&a), 0, Ok(TokenResponse { access_token: "old".to_string(), expires_in: 3600 })).unwrap();
    let now = 10_000;
    let step = a.begin_access_token(&s, now).unwrap();
    assert_eq!(refresh_request_token(&step), "refresh1");
    assert!(matches!(a.begin_access_token(&s, now).unwrap(), AccessTokenStep::Wait(_)));
    let t = a
        .finish_access_token(pending_id(&a), now, Ok(TokenResponse { access_token: "new".to_string(), expires_in: 3600 }))
        .unwrap();
    assert_eq!(t.token, "new");
    assert!(t.expires_at > now + SAFETY_MARGIN_SECS);
    assert_eq!(a.access_tokens.len(), 1);
    match a.begin_access_token(&s, now).unwrap() {
        AccessTokenStep::Cached(c) => assert_eq!(c.token, "new"),
        other => panic!("expected the new token, got {:?}", other),
    }
}

#[test]
fn single_flight_per_scope_set() {
    let mut a = connected();
    let s = scopes(&["profile", "sync"]);
    assert!(matches!(a.begin_access_token(&s, 5).unwrap(), AccessTokenStep::Refresh(_)));
    // The same set in another order waits; another set refreshes on its own.
    assert!(matches!(a.begin_access_token(&scopes(&["sync", "profile"]), 5).unwrap(), AccessTokenStep::Wait(_)));
    assert!(matches!(a.begin_access_token(&scopes(&["profile"]), 5).unwrap(), AccessTokenStep::Refresh(_)));
    assert_eq!(a.refreshing.pending.len(), 2);
}

#[test]
fn superset_is_not_a_match() {
    let mut a = connected();
    let big = scopes(&["profile", "sync"]);
    a.begin_access_token(&big, 0).unwrap();
    a.finish_access_token(pending_id(&a), 0, Ok(TokenResponse { access_token: "big".to_string(), expires_in: 3600 })).unwrap();
    assert!(matches!(a.begin_access_token(&scopes(&["profile"]), 0).unwrap(), AccessTokenStep::Refresh(_)));
    assert!(matches!(a.begin_access_token(&scopes(&["sync", "profile", "sync"]), 0).unwrap(), AccessTokenStep::Cached(_)));
}

#[test]
fn invalid_grant_is_authentication_error_and_sticky() {
    let mut a = connected();
    let s = scopes(&["profile"]);
    a.begin_access_token(&s, 0).unwrap();
    a.finish_access_token(pending_id(&a), 0, Ok(TokenResponse { access_token: "tok".to_string(), expires_in: 100 })).unwrap();
    assert!(matches!(a.begin_access_token(&s, 50).unwrap(), AccessTokenStep::Refresh(_)));
    assert_eq!(a.finish_access_token(pending_id(&a), 50, Err(TransportError::InvalidGrant)).unwrap_err(), FxaError::AuthenticationError);
    assert!(a.access_tokens.is_empty());
    assert_eq!(a.begin_access_token(&s, 51).unwrap_err(), FxaError::AuthenticationError);
    assert_eq!(a.begin_access_token(&scopes(&["other"]), 51).unwrap_err(), FxaError::AuthenticationError);
}

#[test]
fn transient_refresh_failure_keeps_cache() {
    let mut a = connected();
    let s = scopes(&["profile"]);
    a.begin_access_token(&s, 0).unwrap();
    assert_eq!(a.finish_access_token(pending_id(&a), 0, Err(TransportError::ServerError)).unwrap_err(), FxaError::Transient);
    a.begin_access_token(&s, 0).unwrap();
    assert_eq!(a.finish_access_token(pending_id(&a), 0, Err(TransportError::RateLimited)).unwrap_err(), FxaError::Transient);
    assert!(a.refreshing.pending.is_empty());
    assert!(matches!(a.begin_access_token(&s, 0).unwrap(), AccessTokenStep::Refresh(_)));
}

#[test]
fn expiry_saturates() {
    let mut a = connected();
    let s = scopes(&["profile"]);
    a.begin_access_token(&s, 10).unwrap();
    let t = a.finish_access_token(pending_id(&a), 10, Ok(TokenResponse { access_token: "t".to_string(), expires_in: u64::MAX })).unwrap();
    assert_eq!(t.expires_at, u64::MAX);
}

#[test]
fn clear_cache_keeps_credentials() {
    let mut a = connected();
    let s = scopes(&["profile"]);
    a.begin_access_token(&s, 0).unwrap();
    a.finish_access_token(pending_id(&a), 0, Ok(TokenResponse { access_token: "t".to_string(), expires_in: 3600 })).unwrap();
    a.clear_access_token_cache();
    assert!(a.access_tokens.is_empty());
    assert!(matches!(a.state, AccountState::Connected { .. }));
}

#[test]
fn disconnect_from_each_state() {
    let mut signed_out = fresh();
    signed_out.disconnect();
    assert!(matches!(signed_out.state, AccountState::SignedOut));

    let mut connecting = fresh();
    connecting.begin_oauth_flow(&scopes(&["profile"]), "e", "n", "v", "c", 0);
    connecting.disconnect();
    assert!(matches!(connecting.state, AccountState::SignedOut));
    assert_eq!(connecting.complete_oauth_flow("n", Ok(grant("r", vec![]))), Err(FxaError::FlowMismatch));

    let mut a = connected();
    let s = scopes(&["profile"]);
    a.begin_access_token(&s, 0).unwrap();
    a.finish_access_token(pending_id(&a), 0, Ok(TokenResponse { access_token: "t".to_string(), expires_in: 3600 })).unwrap();
    a.begin_access_token(&scopes(&["sync"]), 0).unwrap();
    a.register_device("dev1", "Phone", &vec![DeviceCapability::SendTab], None).unwrap();
    a.set_device_list(vec![Device { id: "d2".to_string(), display_name: "Laptop".to_string(), capabilities: vec![] }])
        .unwrap();
    a.disconnect();
    assert!(matches!(a.state, AccountState::SignedOut));
    assert!(a.access_tokens.is_empty());
    assert!(a.refreshing.pending.is_empty());
    assert!(a.devices.is_empty());
    assert!(a.registration.is_none());
    assert_eq!(a.client_id, "client123");
}

#[test]
fn snapshot_round_trip() {
    let mut a = connected();
    let s = scopes(&["profile"]);
    a.begin_access_token(&s, 0).unwrap();
    a.finish_access_token(pending_id(&a), 0, Ok(TokenResponse { access_token: "t".to_string(), expires_in: 3600 })).unwrap();
    a.register_device("dev1", "Phone", &vec![DeviceCapability::SendTab], None).unwrap();
    let b = FirefoxAccount::from_snapshot(a.to_snapshot()).unwrap();
    assert_eq!(b.content_url, a.content_url);
    assert_eq!(b.access_tokens.len(), 1);
    assert_eq!(b.access_tokens[0].token, "t");
    assert_eq!(b.access_tokens[0].expires_at, a.access_tokens[0].expires_at);
    assert_eq!(b.registration.as_ref().unwrap().device_id, "dev1");
    match (&a.state, &b.state) {
        (AccountState::Connected { credentials: c1, .. }, AccountState::Connected { credentials: c2, .. }) => {
            assert_eq!(c1.refresh_token, c2.refresh_token);
            assert_eq!(c1.uid, c2.uid);
        }
        _ => panic!("state not restored"),
    }
}

#[test]
fn malformed_snapshot_is_fatal() {
    let a = fresh();
    let mut snap: AccountSnapshot = a.to_snapshot();
    snap.registration = Some(fxa_client::DeviceRegistration {
        device_id: "d".to_string(),
        display_name: "n".to_string(),
        capabilities: vec![],
        push_subscription: None,
    });
    assert_eq!(FirefoxAccount::from_snapshot(snap).unwrap_err(), FxaError::Fatal);

    let c = connected();
    let mut snap2 = c.to_snapshot();
    for tok in ["a", "b"] {
        snap2.access_tokens.push(fxa_client::AccessTokenInfo {
            scopes: scopes(&["profile"]),
            token: tok.to_string(),
            expires_at: 10,
        });
    }
    assert_eq!(FirefoxAccount::from_snapshot(snap2).unwrap_err(), FxaError::Fatal);
}

#[test]
fn register_device_requires_connection() {
    let mut a = fresh();
    assert_eq!(a.register_device("d", "n", &vec![], None), Err(FxaError::NotAuthenticated));
    let mut c = connected();
    c.register_device("d", "n", &vec![DeviceCapability::SendTab], None).unwrap();
    c.register_device("d", "renamed", &vec![DeviceCapability::SendTab], None).unwrap();
    let reg = c.registration.as_ref().unwrap();
    assert_eq!(reg.display_name, "renamed");
    assert_eq!(reg.capabilities, vec![DeviceCapability::SendTab]);
}

#[test]
fn send_command_target_checks() {
    let mut a = connected();
    a.set_device_list(vec![
        Device { id: "tab-ok".to_string(), display_name: "A".to_string(), capabilities: vec![DeviceCapability::SendTab] },
        Device { id: "no-cap".to_string(), display_name: "B".to_string(), capabilities: vec![DeviceCapability::CloseTabs] },
    ])
    .unwrap();
    assert_eq!(a.check_command_target("tab-ok", DeviceCapability::SendTab), Ok(()));
    assert_eq!(a.check_command_target("no-cap", DeviceCapability::SendTab), Err(FxaError::UnknownDevice));
    assert_eq!(a.check_command_target("missing", DeviceCapability::SendTab), Err(FxaError::UnknownDevice));
    assert_eq!(fresh().check_command_target("tab-ok", DeviceCapability::SendTab), Err(FxaError::NotAuthenticated));
}

#[test]
fn send_outcomes() {
    assert_eq!(FirefoxAccount::finish_send_command(SendOutcome::Delivered), Ok(()));
    assert_eq!(FirefoxAccount::finish_send_command(SendOutcome::Declined), Err(FxaError::CommandRejected));
    assert_eq!(
        FirefoxAccount::finish_send_command(SendOutcome::Failed(TransportError::InvalidToken)),
        Err(FxaError::AuthenticationError)
    );
    assert_eq!(FxaError::from_transport(TransportError::Network), FxaError::Transient);
}

fn cmd(index: u64) -> IncomingDeviceCommand {
    IncomingDeviceCommand {
        index,
        sender: "s".to_string(),
        capability: DeviceCapability::SendTab,
        payload: format!("p{}", index),
    }
}

#[test]
fn commands_are_delivered_once() {
    let mut a = connected();
    let first = a.receive_commands(vec![cmd(1), cmd(2)]).unwrap();
    assert_eq!(first, vec![cmd(1), cmd(2)]);
    assert_eq!(a.last_command_index, 2);
    let second = a.receive_commands(vec![cmd(2), cmd(3)]).unwrap();
    assert_eq!(second, vec![cmd(3)]);
    assert_eq!(a.last_command_index, 3);
    assert!(a.receive_commands(vec![]).unwrap().is_empty());
    assert_eq!(fresh().receive_commands(vec![cmd(1)]).unwrap_err(), FxaError::NotAuthenticated);
}

#[test]
fn scoped_keys_are_not_rederived() {
    let mut a = fresh();
    a.begin_oauth_flow(&scopes(&["sync"]), "e", "n1", "v", "c", 0);
    a.complete_oauth_flow("n1", Ok(grant("r1", vec![key("sync", "k1"), key("sync", "dup")]))).unwrap();
    a.begin_oauth_flow(&scopes(&["sync", "tabs"]), "e", "n2", "v", "c", 0);
    a.complete_oauth_flow("n2", Ok(grant("r2", vec![key("sync", "k2"), key("tabs", "t1")]))).unwrap();
    match &a.state {
        AccountState::Connected { credentials, .. } => {
            assert_eq!(credentials.refresh_token, "r2");
            assert_eq!(credentials.scoped_keys, vec![key("sync", "k1"), key("tabs", "t1")]);
        }
        _ => panic!("not connected"),
    }
}

#[test]
fn flow_while_connected_keeps_credentials() {
    let mut a = connected();
    a.begin_oauth_flow(&scopes(&["sync"]), "e", "more", "v", "c", 0);
    match &a.state {
        AccountState::Connected { credentials, flow } => {
            assert_eq!(credentials.refresh_token, "refresh1");
            assert_eq!(flow.as_ref().unwrap().state, "more");
        }
        _ => panic!("not connected"),
    }
}

#[test]
fn migration_success() {
    let mut a = fresh();
    assert_eq!(a.complete_migration(Ok(grant("m", vec![]))), Err(FxaError::Fatal));
    assert_eq!(a.begin_migration(), Ok(()));
    assert_eq!(a.migration, MigrationState::InProgress);
    assert_eq!(a.begin_migration(), Err(FxaError::Fatal));
    assert_eq!(a.complete_migration(Ok(grant("m", vec![]))), Ok(()));
    assert_eq!(a.migration, MigrationState::Succeeded);
    assert!(matches!(a.state, AccountState::Connected { .. }));
    assert_eq!(a.begin_migration(), Err(FxaError::Fatal));
}

#[test]
fn migration_failure_and_retry() {
    let mut a = fresh();
    a.begin_migration().unwrap();
    assert_eq!(a.complete_migration(Err(TransportError::InvalidGrant)), Err(FxaError::AuthenticationError));
    assert_eq!(a.migration, MigrationState::Failed(MigrationFailure::InvalidSession));
    assert!(matches!(a.state, AccountState::SignedOut));
    a.begin_migration().unwrap();
    assert_eq!(a.complete_migration(Err(TransportError::RateLimited)), Err(FxaError::Transient));
    assert_eq!(a.migration, MigrationState::Failed(MigrationFailure::RateLimited));
    a.begin_migration().unwrap();
    assert_eq!(a.complete_migration(Err(TransportError::ServerError)), Err(FxaError::Transient));
    assert_eq!(a.migration, MigrationState::Failed(MigrationFailure::Network));
}

#[test]
fn short_lived_token_is_transient() {
    let mut a = connected();
    let s = scopes(&["profile"]);
    a.begin_access_token(&s, 1000).unwrap();
    let r = a.finish_access_token(pending_id(&a), 1000, Ok(TokenResponse { access_token: "t".to_string(), expires_in: 0 }));
    assert_eq!(r.unwrap_err(), FxaError::Transient);
    a.begin_access_token(&s, 1000).unwrap();
    let r = a.finish_access_token(
        pending_id(&a),
        1000,
        Ok(TokenResponse { access_token: "t".to_string(), expires_in: SAFETY_MARGIN_SECS }),
    );
    assert_eq!(r.unwrap_err(), FxaError::Transient);
    assert!(a.access_tokens.is_empty());
    a.begin_access_token(&s, 1000).unwrap();
    let r = a.finish_access_token(
        pending_id(&a),
        1000,
        Ok(TokenResponse { access_token: "t".to_string(), expires_in: SAFETY_MARGIN_SECS + 1 }),
    );
    assert_eq!(r.unwrap().expires_at, 1000 + SAFETY_MARGIN_SECS + 1);
}

#[test]
fn waiter_gets_first_callers_result() {
    let mut a = connected();
    let s = scopes(&["profile"]);
    let id = match a.begin_access_token(&s, 0).unwrap() {
        AccessTokenStep::Refresh(req) => req.id,
        other => panic!("expected a refresh, got {:?}", other),
    };
    let waited = match a.begin_access_token(&s, 0).unwrap() {
        AccessTokenStep::Wait(w) => w,
        other => panic!("expected to wait, got {:?}", other),
    };
    assert_eq!(waited, id);
    assert!(a.refresh_outcome(&s, waited).is_none());
    assert!(a.is_refresh_outstanding(id));
    let first = a.finish_access_token(id, 0, Ok(TokenResponse { access_token: "tok".to_string(), expires_in: 3600 }));
    assert!(!a.is_refresh_outstanding(id));
    let second = a.refresh_outcome(&s, waited).expect("outcome kept").unwrap();
    assert_eq!(first.unwrap().token, second.token);
    assert_eq!(second.token, "tok");
    assert_eq!(second.expires_at, 3600);
}

#[test]
fn waiter_gets_first_callers_failure() {
    let mut a = connected();
    let s = scopes(&["profile"]);
    a.begin_access_token(&s, 0).unwrap();
    let id = pending_id(&a);
    assert!(matches!(a.begin_access_token(&s, 0).unwrap(), AccessTokenStep::Wait(w) if w == id));
    assert_eq!(a.finish_access_token(id, 0, Err(TransportError::Network)).unwrap_err(), FxaError::Transient);
    assert!(matches!(a.refresh_outcome(&s, id), Some(Err(FxaError::Transient))));
    assert!(a.refresh_outcome(&scopes(&["sync"]), id).is_none());
}

#[test]
fn finish_of_unknown_refresh_changes_nothing() {
    let mut a = connected();
    let r = a.finish_access_token(7, 0, Ok(TokenResponse { access_token: "t".to_string(), expires_in: 3600 }));
    assert_eq!(r.unwrap_err(), FxaError::Transient);
    assert!(a.access_tokens.is_empty());
}

#[test]
fn refresh_superseded_by_new_sign_in_is_dropped() {
    let mut a = connected();
    let s = scopes(&["profile"]);
    a.begin_access_token(&s, 0).unwrap();
    let old_id = pending_id(&a);
    a.disconnect();
    a.begin_oauth_flow(&s, "e", "n2", "v", "c", 0);
    a.complete_oauth_flow("n2", Ok(grant("refresh2", vec![]))).unwrap();
    a.begin_access_token(&s, 0).unwrap();
    let new_id = pending_id(&a);
    assert_ne!(old_id, new_id);
    let r = a.finish_access_token(old_id, 0, Ok(TokenResponse { access_token: "stale".to_string(), expires_in: 3600 }));
    assert_eq!(r.unwrap_err(), FxaError::Transient);
    assert!(a.access_tokens.is_empty());
    assert!(a.is_refresh_outstanding(new_id));
}
