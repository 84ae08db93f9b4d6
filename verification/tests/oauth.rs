use torii::error::Error;
use torii::memory::{MemoryFlowStore, MemorySessionStore, MemoryUserStore};
use torii::model::{CredentialData, FlowValue};
use torii::oauth::{OAuthPlugin, ProviderReply};
use torii::session::SessionManager;
use torii::storage::{FlowStore, UserStore};

fn google() -> OAuthPlugin {
    OAuthPlugin::google("client-1".to_string())
}

fn plain() -> OAuthPlugin {
    OAuthPlugin::new(
        "forge".to_string(),
        "cid".to_string(),
        "https://forge.example/authorize".to_string(),
        false,
    )
}

fn identity(subject: &str, nonce: Option<&str>) -> ProviderReply {
    ProviderReply::Identity { subject: subject.to_string(), nonce: nonce.map(str::to_string) }
}

#[test]
fn begin_auth_with_builds_the_authorization_url() {
    let mut flows = MemoryFlowStore::new();
    let request = google()
        .begin_auth_with(
            &mut flows,
            "http://localhost:4000/auth/google/callback",
            "S1".to_string(),
            "N1".to_string(),
            1000,
        )
        .unwrap();
    assert_eq!(request.csrf_state, "S1");
    assert_eq!(request.nonce_key, "S1");
    assert_eq!(
        request.authorization_uri,
        "https://accounts.google.com/o/oauth2/v2/auth?response_type=code&client_id=client-1&redirect_uri=http://localhost:4000/auth/google/callback&state=S1&nonce=N1"
    );
    assert_eq!(flows.flow_count(), 1);
}

#[test]
fn provider_without_identity_layer_gets_no_nonce_in_the_url() {
    let mut flows = MemoryFlowStore::new();
    let plugin = plain();
    assert_eq!(plugin.name(), "forge");
    let request = plugin
        .begin_auth_with(&mut flows, "https://app/cb", "S1".to_string(), "N1".to_string(), 0)
        .unwrap();
    assert_eq!(
        request.authorization_uri,
        "https://forge.example/authorize?response_type=code&client_id=cid&redirect_uri=https://app/cb&state=S1"
    );
}

#[test]
fn begin_auth_draws_fresh_tokens() {
    let mut flows = MemoryFlowStore::new();
    let plugin = google();
    let a = plugin.begin_auth(&mut flows, "https://app/cb", 0).unwrap();
    let b = plugin.begin_auth(&mut flows, "https://app/cb", 0).unwrap();
    assert_eq!(a.csrf_state.len(), 32);
    assert!(a.csrf_state.chars().all(|c| c.is_ascii_alphanumeric()));
    assert_eq!(a.nonce_key, a.csrf_state);
    assert_ne!(a.csrf_state, b.csrf_state);
    assert!(a.authorization_uri.contains(&format!("&state={}&nonce=", a.csrf_state)));
    assert_eq!(flows.flow_count(), 2);
    match flows.take(&a.csrf_state, 1).unwrap() {
        Some(FlowValue::OAuth { nonce, provider }) => {
            assert_eq!(provider, "google");
            assert_eq!(nonce.len(), 32);
            assert!(nonce.chars().all(|c| c.is_ascii_alphanumeric()));
            assert_ne!(nonce, a.csrf_state);
            assert!(a.authorization_uri.ends_with(&format!("&nonce={}", nonce)));
        }
        _ => panic!("the attempt was remembered"),
    }
}

#[test]
fn callback_accepts_a_state_once() {
    let mut flows = MemoryFlowStore::new();
    let plugin = google();
    let s1 = plugin.begin_auth(&mut flows, "https://app/cb", 0).unwrap().csrf_state;
    let first = plugin.begin_callback(&mut flows, &s1, &s1, "code-1".to_string(), 10);
    let second = plugin.begin_callback(&mut flows, &s1, &s1, "code-1".to_string(), 10);
    let exchange = first.unwrap();
    assert_eq!(exchange.code(), "code-1");
    assert_eq!(exchange.provider(), "google");
    assert_eq!(exchange.nonce().len(), 32);
    assert_eq!(second.unwrap_err(), Error::ReplayedFlow);
    assert_eq!(flows.flow_count(), 0);
}

#[test]
fn callback_with_another_state_is_a_csrf_mismatch() {
    let mut flows = MemoryFlowStore::new();
    let plugin = google();
    plugin
        .begin_auth_with(&mut flows, "https://app/cb", "S1".to_string(), "N1".to_string(), 0)
        .unwrap();
    let r = plugin.begin_callback(&mut flows, "S2", "S1", "code".to_string(), 10);
    assert_eq!(r.unwrap_err(), Error::CsrfMismatch);
    assert_eq!(flows.flow_count(), 1);
    let r = plugin.begin_callback(&mut flows, "S1", "S1", "code".to_string(), 10);
    assert_eq!(r.unwrap().nonce(), "N1");
}

#[test]
fn callback_for_an_unknown_or_abandoned_attempt_is_a_replay() {
    let mut flows = MemoryFlowStore::new();
    let plugin = google();
    let r = plugin.begin_callback(&mut flows, "S9", "S9", "code".to_string(), 10);
    assert_eq!(r.unwrap_err(), Error::ReplayedFlow);
    plugin
        .begin_auth_with(&mut flows, "https://app/cb", "S1".to_string(), "N1".to_string(), 100)
        .unwrap();
    plugin
        .begin_auth_with(&mut flows, "https://app/cb", "S2".to_string(), "N2".to_string(), 100)
        .unwrap();
    let r = plugin.begin_callback(&mut flows, "S1", "S1", "code".to_string(), 699);
    assert_eq!(r.unwrap().nonce(), "N1");
    let r = plugin.begin_callback(&mut flows, "S2", "S2", "code".to_string(), 700);
    assert_eq!(r.unwrap_err(), Error::ReplayedFlow);
    assert_eq!(flows.flow_count(), 0);
}

#[test]
fn callback_of_another_provider_or_ceremony_is_a_replay() {
    let mut flows = MemoryFlowStore::new();
    plain()
        .begin_auth_with(&mut flows, "https://app/cb", "S1".to_string(), "N1".to_string(), 0)
        .unwrap();
    let r = google().begin_callback(&mut flows, "S1", "S1", "code".to_string(), 1);
    assert_eq!(r.unwrap_err(), Error::ReplayedFlow);
    flows
        .put("S2", FlowValue::PasskeyRegistration { user_id: "u".to_string() }, 0, 600)
        .unwrap();
    let r = google().begin_callback(&mut flows, "S2", "S2", "code".to_string(), 1);
    assert_eq!(r.unwrap_err(), Error::ReplayedFlow);
}

fn exchange_for(plugin: &OAuthPlugin, flows: &mut MemoryFlowStore, nonce: &str) -> torii::oauth::TokenExchange {
    plugin
        .begin_auth_with(flows, "https://app/cb", "S1".to_string(), nonce.to_string(), 0)
        .unwrap();
    plugin.begin_callback(flows, "S1", "S1", "code".to_string(), 1).unwrap()
}

#[test]
fn first_login_creates_the_user_and_later_ones_find_them() {
    let plugin = google();
    let manager = SessionManager::new(3600);
    let mut flows = MemoryFlowStore::new();
    let mut users = MemoryUserStore::new();
    let mut sessions = MemorySessionStore::new();

    let exchange = exchange_for(&plugin, &mut flows, "N1");
    let (user, session) = plugin
        .complete_callback(&mut users, &mut sessions, &manager, exchange, identity("sub-7", Some("N1")), 50)
        .unwrap();
    assert_eq!(user.created_at, 50);
    assert_eq!(user.id.len(), 32);
    assert_eq!(session.user_id, user.id);
    assert_eq!(session.created_at, 50);
    assert_eq!(session.expires_at, 3650);
    assert_eq!(session.method.as_deref(), Some("google"));
    assert_eq!(manager.validate(&mut sessions, &session.id, 51).unwrap().user_id, user.id);
    let (owner, data) = users.find_by_credential("google", "sub-7").unwrap().unwrap();
    assert_eq!(owner.id, user.id);
    assert!(matches!(data, CredentialData::OAuth));

    let exchange = exchange_for(&plugin, &mut flows, "N2");
    let (again, second) = plugin
        .complete_callback(&mut users, &mut sessions, &manager, exchange, identity("sub-7", Some("N2")), 90)
        .unwrap();
    assert_eq!(again.id, user.id);
    assert_eq!(again.created_at, 50);
    assert_ne!(second.id, session.id);
    assert_eq!(users.user_count(), 1);
    assert_eq!(sessions.session_count(), 2);

    let exchange = exchange_for(&plugin, &mut flows, "N3");
    let (other, _) = plugin
        .complete_callback(&mut users, &mut sessions, &manager, exchange, identity("sub-8", Some("N3")), 95)
        .unwrap();
    assert_ne!(other.id, user.id);
    assert_eq!(users.user_count(), 2);
}

#[test]
fn wrong_or_missing_nonce_is_a_nonce_mismatch() {
    let plugin = google();
    let manager = SessionManager::new(3600);
    let mut flows = MemoryFlowStore::new();
    let mut users = MemoryUserStore::new();
    let mut sessions = MemorySessionStore::new();
    let exchange = exchange_for(&plugin, &mut flows, "N1");
    let r = plugin.complete_callback(&mut users, &mut sessions, &manager, exchange, identity("sub", Some("N2")), 5);
    assert_eq!(r.unwrap_err(), Error::NonceMismatch);
    let exchange = exchange_for(&plugin, &mut flows, "N1");
    let r = plugin.complete_callback(&mut users, &mut sessions, &manager, exchange, identity("sub", None), 5);
    assert_eq!(r.unwrap_err(), Error::NonceMismatch);
    assert_eq!(users.user_count(), 0);
    assert_eq!(sessions.session_count(), 0);
}

#[test]
fn provider_without_identity_layer_may_send_no_nonce() {
    let plugin = plain();
    let manager = SessionManager::new(3600);
    let mut flows = MemoryFlowStore::new();
    let mut users = MemoryUserStore::new();
    let mut sessions = MemorySessionStore::new();
    let exchange = exchange_for(&plugin, &mut flows, "N1");
    let (user, session) = plugin
        .complete_callback(&mut users, &mut sessions, &manager, exchange, identity("sub", None), 5)
        .unwrap();
    assert_eq!(session.user_id, user.id);
    assert_eq!(session.method.as_deref(), Some("forge"));
    let exchange = exchange_for(&plugin, &mut flows, "N1");
    let r = plugin.complete_callback(&mut users, &mut sessions, &manager, exchange, identity("sub", Some("N9")), 5);
    assert_eq!(r.unwrap_err(), Error::NonceMismatch);
}

#[test]
fn refusal_and_timeout_are_provider_errors() {
    let plugin = google();
    let manager = SessionManager::new(3600);
    let mut flows = MemoryFlowStore::new();
    let mut users = MemoryUserStore::new();
    let mut sessions = MemorySessionStore::new();
    let exchange = exchange_for(&plugin, &mut flows, "N1");
    let r = plugin.complete_callback(&mut users, &mut sessions, &manager, exchange, ProviderReply::Rejected, 5);
    assert_eq!(r.unwrap_err(), Error::ProviderError);
    let exchange = exchange_for(&plugin, &mut flows, "N1");
    let r = plugin.complete_callback(&mut users, &mut sessions, &manager, exchange, ProviderReply::TimedOut, 5);
    assert_eq!(r.unwrap_err(), Error::ProviderError);
    assert_eq!(users.user_count(), 0);
    assert_eq!(sessions.session_count(), 0);
}
