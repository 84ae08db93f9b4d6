use torii::error::{Error, StorageError};
use torii::memory::{MemorySessionStore, MemoryUserStore};
use torii::model::User;
use torii::session::SessionManager;
use torii::storage::{SessionStore, UserStore};

fn store_with_user(id: &str) -> MemoryUserStore {
    let mut users = MemoryUserStore::new();
    users
        .create_user(User { id: id.to_string(), created_at: 5 })
        .unwrap();
    users
}

#[test]
fn issued_session_validates_until_it_expires() {
    let users = store_with_user("u1");
    let mut sessions = MemorySessionStore::new();
    let manager = SessionManager::new(60);
    assert_eq!(manager.ttl(), 60);
    let session = manager
        .issue(&users, &mut sessions, "u1", "tok".to_string(), &Some("password".to_string()), 100)
        .unwrap();
    assert_eq!(session.id, "tok");
    assert_eq!(session.user_id, "u1");
    assert_eq!(session.created_at, 100);
    assert_eq!(session.expires_at, 160);
    assert_eq!(session.method.as_deref(), Some("password"));
    let seen = manager.validate(&mut sessions, "tok", 159).unwrap();
    assert_eq!(seen.user_id, "u1");
    assert_eq!(seen.expires_at, 160);
    assert_eq!(sessions.session_count(), 1);
}

#[test]
fn expired_session_is_reported_and_reaped() {
    let users = store_with_user("u1");
    let mut sessions = MemorySessionStore::new();
    let manager = SessionManager::new(60);
    manager
        .issue(&users, &mut sessions, "u1", "tok".to_string(), &None, 100)
        .unwrap();
    assert_eq!(manager.validate(&mut sessions, "tok", 160).unwrap_err(), Error::SessionExpired);
    assert_eq!(sessions.session_count(), 0);
    assert_eq!(manager.validate(&mut sessions, "tok", 161).unwrap_err(), Error::SessionNotFound);
}

#[test]
fn session_with_ttl_of_one_second_expires_after_two() {
    let users = store_with_user("U1");
    let mut sessions = MemorySessionStore::new();
    let manager = SessionManager::new(1);
    let session = manager.create(&users, &mut sessions, "U1", &None, 1000).unwrap();
    assert_eq!(session.user_id, "U1");
    assert_eq!(session.expires_at, 1001);
    assert_eq!(
        manager.validate(&mut sessions, &session.id, 1002).unwrap_err(),
        Error::SessionExpired
    );
}

#[test]
fn created_sessions_get_fresh_unguessable_ids() {
    let users = store_with_user("u1");
    let mut sessions = MemorySessionStore::new();
    let manager = SessionManager::new(60);
    let a = manager.create(&users, &mut sessions, "u1", &None, 1).unwrap();
    let b = manager.create(&users, &mut sessions, "u1", &None, 1).unwrap();
    assert_eq!(a.id.len(), 32);
    assert_eq!(b.id.len(), 32);
    assert!(a.id.chars().all(|c| c.is_ascii_alphanumeric()));
    assert_ne!(a.id, b.id);
    assert_eq!(sessions.session_count(), 2);
}

#[test]
fn session_for_unknown_user_is_refused() {
    let users = MemoryUserStore::new();
    let mut sessions = MemorySessionStore::new();
    let manager = SessionManager::new(60);
    let r = manager.issue(&users, &mut sessions, "ghost", "tok".to_string(), &None, 1);
    assert_eq!(r.unwrap_err(), Error::Storage(StorageError::Constraint));
    let r = manager.create(&users, &mut sessions, "ghost", &None, 1);
    assert_eq!(r.unwrap_err(), Error::Storage(StorageError::Constraint));
    assert_eq!(sessions.session_count(), 0);
}

#[test]
fn session_id_that_is_taken_is_refused() {
    let users = store_with_user("u1");
    let mut sessions = MemorySessionStore::new();
    let manager = SessionManager::new(60);
    manager
        .issue(&users, &mut sessions, "u1", "tok".to_string(), &None, 1)
        .unwrap();
    let r = manager.issue(&users, &mut sessions, "u1", "tok".to_string(), &None, 2);
    assert_eq!(r.unwrap_err(), Error::Storage(StorageError::Constraint));
    assert_eq!(manager.validate(&mut sessions, "tok", 3).unwrap().created_at, 1);
}

#[test]
fn revoked_session_is_not_found() {
    let users = store_with_user("u1");
    let mut sessions = MemorySessionStore::new();
    let manager = SessionManager::new(60);
    manager
        .issue(&users, &mut sessions, "u1", "tok".to_string(), &None, 1)
        .unwrap();
    assert_eq!(manager.revoke(&mut sessions, "tok"), Ok(()));
    assert_eq!(manager.validate(&mut sessions, "tok", 2).unwrap_err(), Error::SessionNotFound);
    assert_eq!(manager.revoke(&mut sessions, "tok"), Ok(()));
    assert_eq!(manager.revoke(&mut sessions, "never-issued"), Ok(()));
}

#[test]
fn sweep_removes_exactly_the_expired_sessions() {
    let users = store_with_user("u1");
    let mut sessions = MemorySessionStore::new();
    let short = SessionManager::new(10);
    let long = SessionManager::new(100);
    short.issue(&users, &mut sessions, "u1", "a".to_string(), &None, 0).unwrap();
    long.issue(&users, &mut sessions, "u1", "b".to_string(), &None, 0).unwrap();
    short.issue(&users, &mut sessions, "u1", "c".to_string(), &None, 5).unwrap();
    assert_eq!(long.sweep(&mut sessions, 9), Ok(()));
    assert_eq!(sessions.session_count(), 3);
    assert_eq!(long.sweep(&mut sessions, 10), Ok(()));
    assert_eq!(sessions.session_count(), 2);
    assert!(sessions.find_session("a").unwrap().is_none());
    assert_eq!(long.sweep(&mut sessions, 99), Ok(()));
    assert_eq!(sessions.session_count(), 1);
    assert_eq!(long.validate(&mut sessions, "b", 99).unwrap().id, "b");
    assert_eq!(long.sweep(&mut sessions, 100), Ok(()));
    assert_eq!(sessions.session_count(), 0);
}

#[test]
fn session_lifetime_is_cut_at_the_end_of_time() {
    let users = store_with_user("u1");
    let mut sessions = MemorySessionStore::new();
    let manager = SessionManager::new(u64::MAX);
    let session = manager
        .issue(&users, &mut sessions, "u1", "tok".to_string(), &None, 7)
        .unwrap();
    assert_eq!(session.expires_at, u64::MAX);
    assert_eq!(manager.validate(&mut sessions, "tok", u64::MAX - 1).unwrap().id, "tok");
    assert_eq!(
        manager.validate(&mut sessions, "tok", u64::MAX).unwrap_err(),
        Error::SessionExpired
    );
}
