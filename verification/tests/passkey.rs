use torii::error::{Error, StorageError};
use torii::memory::{MemoryFlowStore, MemorySessionStore, MemoryUserStore};
use torii::model::{CredentialData, User};
use torii::passkey::{Assertion, Attestation, PasskeyPlugin, PendingAssertion};
use torii::session::SessionManager;
use torii::storage::UserStore;

struct World {
    plugin: PasskeyPlugin,
    manager: SessionManager,
    flows: MemoryFlowStore,
    users: MemoryUserStore,
    sessions: MemorySessionStore,
}

fn world() -> World {
    let mut users = MemoryUserStore::new();
    users.create_user(User { id: "u1".to_string(), created_at: 1 }).unwrap();
    users.create_user(User { id: "u2".to_string(), created_at: 1 }).unwrap();
    World {
        plugin: PasskeyPlugin::new("example.com".to_string(), "https://example.com".to_string()),
        manager: SessionManager::new(100),
        flows: MemoryFlowStore::new(),
        users,
        sessions: MemorySessionStore::new(),
    }
}

fn attestation(challenge: &str, credential: &str) -> Attestation {
    Attestation {
        challenge: challenge.to_string(),
        rp_id: "example.com".to_string(),
        origin: "https://example.com".to_string(),
        credential_id: credential.to_string(),
        public_key: vec![9, 8, 7],
        verified: true,
    }
}

fn assertion(challenge: &str, credential: &str, count: u32) -> Assertion {
    Assertion {
        challenge: challenge.to_string(),
        rp_id: "example.com".to_string(),
        origin: "https://example.com".to_string(),
        credential_id: credential.to_string(),
        sign_count: count,
    }
}

fn register(w: &mut World, user: &str, credential: &str) {
    let challenge = w.plugin.start_registration(&mut w.flows, user, 10).unwrap().challenge;
    w.plugin
        .finish_registration(&mut w.flows, &mut w.users, attestation(&challenge, credential), 11)
        .unwrap();
}

fn pending(w: &mut World, credential: &str, count: u32) -> PendingAssertion {
    let challenge = w.plugin.start_authentication(&mut w.flows, &None, 20).unwrap().challenge;
    w.plugin
        .check_assertion(&mut w.flows, &w.users, &assertion(&challenge, credential, count), 21)
        .unwrap()
}

fn stored_count(w: &World, credential: &str) -> u32 {
    match w.users.find_by_credential("passkey", credential).unwrap() {
        Some((_, CredentialData::Passkey { sign_count, .. })) => sign_count,
        _ => panic!("the passkey is registered"),
    }
}

#[test]
fn registration_binds_a_passkey_with_a_counter_of_zero() {
    let mut w = world();
    assert_eq!(w.plugin.name(), "passkey");
    let ceremony = w.plugin.start_registration(&mut w.flows, "u1", 10).unwrap();
    assert_eq!(ceremony.rp_id, "example.com");
    assert_eq!(ceremony.user_id, "u1");
    assert_eq!(ceremony.challenge.len(), 32);
    assert_eq!(w.flows.flow_count(), 1);
    let r = w.plugin.finish_registration(
        &mut w.flows,
        &mut w.users,
        attestation(&ceremony.challenge, "cred-1"),
        11,
    );
    assert_eq!(r, Ok(()));
    assert_eq!(w.flows.flow_count(), 0);
    match w.users.find_by_credential("passkey", "cred-1").unwrap() {
        Some((owner, CredentialData::Passkey { public_key, sign_count })) => {
            assert_eq!(owner.id, "u1");
            assert_eq!(public_key, vec![9, 8, 7]);
            assert_eq!(sign_count, 0);
        }
        _ => panic!("the passkey is registered"),
    }
}

#[test]
fn registration_challenge_is_single_use_and_time_bounded() {
    let mut w = world();
    let c = w
        .plugin
        .start_registration_with(&mut w.flows, "u1", "C1".to_string(), 10)
        .unwrap();
    assert_eq!(c.challenge, "C1");
    let r = w.plugin.finish_registration(&mut w.flows, &mut w.users, attestation("C1", "cred-1"), 11);
    assert_eq!(r, Ok(()));
    let r = w.plugin.finish_registration(&mut w.flows, &mut w.users, attestation("C1", "cred-2"), 12);
    assert_eq!(r, Err(Error::ReplayedFlow));
    w.plugin
        .start_registration_with(&mut w.flows, "u1", "C2".to_string(), 10)
        .unwrap();
    let r = w.plugin.finish_registration(&mut w.flows, &mut w.users, attestation("C2", "cred-2"), 610);
    assert_eq!(r, Err(Error::ReplayedFlow));
    let r = w.plugin.finish_registration(&mut w.flows, &mut w.users, attestation("C3", "cred-2"), 12);
    assert_eq!(r, Err(Error::ReplayedFlow));
    assert!(w.users.find_by_credential("passkey", "cred-2").unwrap().is_none());
}

#[test]
fn registration_rejects_what_does_not_hold() {
    let mut w = world();
    for (i, broken) in ["rp", "origin", "signature"].iter().enumerate() {
        let challenge = format!("C{}", i);
        w.plugin
            .start_registration_with(&mut w.flows, "u1", challenge.clone(), 10)
            .unwrap();
        let mut a = attestation(&challenge, "cred-1");
        match *broken {
            "rp" => a.rp_id = "evil.example".to_string(),
            "origin" => a.origin = "https://evil.example".to_string(),
            _ => a.verified = false,
        }
        let r = w.plugin.finish_registration(&mut w.flows, &mut w.users, a, 11);
        assert_eq!(r, Err(Error::InvalidCredentials));
        assert_eq!(w.flows.flow_count(), 0);
    }
    assert!(w.users.find_by_credential("passkey", "cred-1").unwrap().is_none());
}

#[test]
fn registration_refuses_a_known_passkey_and_an_unknown_user() {
    let mut w = world();
    register(&mut w, "u1", "cred-1");
    let challenge = w.plugin.start_registration(&mut w.flows, "u2", 10).unwrap().challenge;
    let r = w.plugin.finish_registration(&mut w.flows, &mut w.users, attestation(&challenge, "cred-1"), 11);
    assert_eq!(r, Err(Error::DuplicateIdentity));
    let challenge = w.plugin.start_registration(&mut w.flows, "nobody", 10).unwrap().challenge;
    let r = w.plugin.finish_registration(&mut w.flows, &mut w.users, attestation(&challenge, "cred-2"), 11);
    assert_eq!(r, Err(Error::Storage(StorageError::Constraint)));
    match w.users.find_by_credential("passkey", "cred-1").unwrap() {
        Some((owner, _)) => assert_eq!(owner.id, "u1"),
        None => panic!("the first registration stands"),
    }
}

#[test]
fn authentication_issues_a_session_and_stores_the_counter() {
    let mut w = world();
    register(&mut w, "u1", "cred-1");
    let p = pending(&mut w, "cred-1", 1);
    assert_eq!(p.public_key(), &vec![9, 8, 7]);
    assert_eq!(p.credential_id(), "cred-1");
    let (user, session) = w
        .plugin
        .finish_authentication(&mut w.users, &mut w.sessions, &w.manager, p, true, 30)
        .unwrap();
    assert_eq!(user.id, "u1");
    assert_eq!(session.user_id, "u1");
    assert_eq!(session.created_at, 30);
    assert_eq!(session.expires_at, 130);
    assert_eq!(session.method.as_deref(), Some("passkey"));
    assert_eq!(session.id.len(), 32);
    assert_eq!(stored_count(&w, "cred-1"), 1);
    assert_eq!(w.manager.validate(&mut w.sessions, &session.id, 31).unwrap().user_id, "u1");
}

#[test]
fn counter_that_does_not_advance_is_a_possible_clone() {
    let mut w = world();
    register(&mut w, "u1", "cred-1");
    let p = pending(&mut w, "cred-1", 5);
    w.plugin
        .finish_authentication(&mut w.users, &mut w.sessions, &w.manager, p, true, 30)
        .unwrap();
    for stale in [5, 4, 0] {
        let p = pending(&mut w, "cred-1", stale);
        let r = w
            .plugin
            .finish_authentication(&mut w.users, &mut w.sessions, &w.manager, p, true, 31);
        assert_eq!(r.unwrap_err(), Error::PossibleCloneDetected);
        assert_eq!(stored_count(&w, "cred-1"), 5);
    }
    assert_eq!(w.sessions.session_count(), 1);
    let p = pending(&mut w, "cred-1", 6);
    assert!(w
        .plugin
        .finish_authentication(&mut w.users, &mut w.sessions, &w.manager, p, true, 32)
        .is_ok());
    assert_eq!(stored_count(&w, "cred-1"), 6);
}

#[test]
fn authenticator_without_a_counter_stays_at_zero() {
    let mut w = world();
    register(&mut w, "u1", "cred-1");
    for _ in 0..3 {
        let p = pending(&mut w, "cred-1", 0);
        assert!(w
            .plugin
            .finish_authentication(&mut w.users, &mut w.sessions, &w.manager, p, true, 30)
            .is_ok());
    }
    assert_eq!(stored_count(&w, "cred-1"), 0);
    assert_eq!(w.sessions.session_count(), 3);
}

#[test]
fn invalid_signature_is_refused_before_the_counter_is_looked_at() {
    let mut w = world();
    register(&mut w, "u1", "cred-1");
    let p = pending(&mut w, "cred-1", 9);
    let r = w
        .plugin
        .finish_authentication(&mut w.users, &mut w.sessions, &w.manager, p, false, 30);
    assert_eq!(r.unwrap_err(), Error::InvalidCredentials);
    assert_eq!(stored_count(&w, "cred-1"), 0);
    assert_eq!(w.sessions.session_count(), 0);
}

#[test]
fn assertion_challenge_is_single_use_and_time_bounded() {
    let mut w = world();
    register(&mut w, "u1", "cred-1");
    let c = w
        .plugin
        .start_authentication_with(&mut w.flows, &None, "A1".to_string(), 20)
        .unwrap();
    assert_eq!(c.challenge, "A1");
    assert_eq!(c.rp_id, "example.com");
    assert!(w
        .plugin
        .check_assertion(&mut w.flows, &w.users, &assertion("A1", "cred-1", 1), 21)
        .is_ok());
    let r = w.plugin.check_assertion(&mut w.flows, &w.users, &assertion("A1", "cred-1", 2), 22);
    assert_eq!(r.unwrap_err(), Error::ReplayedFlow);
    w.plugin
        .start_authentication_with(&mut w.flows, &None, "A2".to_string(), 20)
        .unwrap();
    let r = w.plugin.check_assertion(&mut w.flows, &w.users, &assertion("A2", "cred-1", 2), 620);
    assert_eq!(r.unwrap_err(), Error::ReplayedFlow);
    w.plugin
        .start_registration_with(&mut w.flows, "u1", "A3".to_string(), 20)
        .unwrap();
    let r = w.plugin.check_assertion(&mut w.flows, &w.users, &assertion("A3", "cred-1", 2), 21);
    assert_eq!(r.unwrap_err(), Error::ReplayedFlow);
}

#[test]
fn assertion_must_fit_the_ceremony() {
    let mut w = world();
    register(&mut w, "u1", "cred-1");
    let expected = Some("u2".to_string());
    w.plugin
        .start_authentication_with(&mut w.flows, &expected, "A1".to_string(), 20)
        .unwrap();
    let r = w.plugin.check_assertion(&mut w.flows, &w.users, &assertion("A1", "cred-1", 1), 21);
    assert_eq!(r.unwrap_err(), Error::InvalidCredentials);
    let expected = Some("u1".to_string());
    w.plugin
        .start_authentication_with(&mut w.flows, &expected, "A2".to_string(), 20)
        .unwrap();
    assert!(w
        .plugin
        .check_assertion(&mut w.flows, &w.users, &assertion("A2", "cred-1", 1), 21)
        .is_ok());
    w.plugin
        .start_authentication_with(&mut w.flows, &None, "A3".to_string(), 20)
        .unwrap();
    let r = w.plugin.check_assertion(&mut w.flows, &w.users, &assertion("A3", "unknown", 1), 21);
    assert_eq!(r.unwrap_err(), Error::InvalidCredentials);
    w.plugin
        .start_authentication_with(&mut w.flows, &None, "A4".to_string(), 20)
        .unwrap();
    let mut a = assertion("A4", "cred-1", 1);
    a.origin = "https://evil.example".to_string();
    let r = w.plugin.check_assertion(&mut w.flows, &w.users, &a, 21);
    assert_eq!(r.unwrap_err(), Error::InvalidCredentials);
    w.plugin
        .start_authentication_with(&mut w.flows, &None, "A5".to_string(), 20)
        .unwrap();
    let mut a = assertion("A5", "cred-1", 1);
    a.rp_id = "evil.example".to_string();
    let r = w.plugin.check_assertion(&mut w.flows, &w.users, &a, 21);
    assert_eq!(r.unwrap_err(), Error::InvalidCredentials);
    assert_eq!(w.flows.flow_count(), 0);
}
