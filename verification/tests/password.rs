use torii::crypto::has_bounded_parameters;
use torii::error::{Error, StorageError};
use torii::memory::MemoryUserStore;
use torii::model::CredentialData;
use torii::password::{PasswordPlugin, PASSWORD_METHOD};
use torii::storage::UserStore;

#[test]
fn registered_user_logs_in_with_the_right_password_only() {
    let plugin = PasswordPlugin::new();
    assert_eq!(plugin.name(), "password");
    let mut users = MemoryUserStore::new();
    let u1 = plugin.register(&mut users, "alice@example.com", "secret123", 42).unwrap();
    assert_eq!(u1.created_at, 42);
    assert_eq!(u1.id.len(), 32);
    let again = plugin.authenticate(&users, "alice@example.com", "secret123").unwrap();
    assert_eq!(again.id, u1.id);
    assert_eq!(again.created_at, 42);
    assert_eq!(
        plugin.authenticate(&users, "alice@example.com", "wrong").unwrap_err(),
        Error::InvalidCredentials
    );
    assert_eq!(
        plugin.authenticate(&users, "alice@example.com", "").unwrap_err(),
        Error::InvalidCredentials
    );
}

#[test]
fn unknown_email_fails_like_a_wrong_password() {
    let plugin = PasswordPlugin::new();
    let mut users = MemoryUserStore::new();
    plugin.register(&mut users, "alice@example.com", "secret123", 42).unwrap();
    let wrong = plugin.authenticate(&users, "alice@example.com", "nope").unwrap_err();
    let unknown = plugin.authenticate(&users, "bob@example.com", "nope").unwrap_err();
    assert_eq!(wrong, unknown);
    assert_eq!(unknown, Error::InvalidCredentials);
    assert_eq!(
        plugin.authenticate(&users, "bob@example.com", "").unwrap_err(),
        Error::InvalidCredentials
    );
}

#[test]
fn email_registers_once() {
    let plugin = PasswordPlugin::new();
    let mut users = MemoryUserStore::new();
    let first = plugin.register(&mut users, "alice@example.com", "secret123", 1).unwrap();
    assert_eq!(
        plugin.register(&mut users, "alice@example.com", "other", 2).unwrap_err(),
        Error::DuplicateIdentity
    );
    assert_eq!(users.user_count(), 1);
    let still = plugin.authenticate(&users, "alice@example.com", "secret123").unwrap();
    assert_eq!(still.id, first.id);
    let second = plugin.register(&mut users, "bob@example.com", "secret123", 3).unwrap();
    assert_ne!(second.id, first.id);
    assert_eq!(users.user_count(), 2);
}

#[test]
fn password_is_stored_as_a_salted_hash() {
    let plugin = PasswordPlugin::new();
    let mut users = MemoryUserStore::new();
    plugin.register(&mut users, "alice@example.com", "secret123", 1).unwrap();
    plugin.register(&mut users, "bob@example.com", "secret123", 1).unwrap();
    let hash_of = |email: &str| match users.find_by_credential(PASSWORD_METHOD, email) {
        Ok(Some((_, CredentialData::Password { hash }))) => hash,
        _ => panic!("the credential was linked"),
    };
    let alice = hash_of("alice@example.com");
    let bob = hash_of("bob@example.com");
    assert_ne!(alice, "secret123");
    assert!(alice.starts_with("$argon2"));
    assert_ne!(alice, bob);
}

#[test]
fn enroll_files_the_user_and_the_given_hash() {
    let plugin = PasswordPlugin::new();
    let mut users = MemoryUserStore::new();
    let user = plugin
        .enroll(&mut users, "alice@example.com", "not-a-hash".to_string(), "u1".to_string(), 9)
        .unwrap();
    assert_eq!(user.id, "u1");
    assert_eq!(user.created_at, 9);
    let (owner, data) = users
        .find_by_credential(PASSWORD_METHOD, "alice@example.com")
        .unwrap()
        .unwrap();
    assert_eq!(owner.id, "u1");
    match data {
        CredentialData::Password { hash } => assert_eq!(hash, "not-a-hash"),
        _ => panic!("a password credential was linked"),
    }
    assert_eq!(
        plugin.authenticate(&users, "alice@example.com", "not-a-hash").unwrap_err(),
        Error::InvalidCredentials
    );
}

#[test]
fn enroll_refuses_a_taken_email_and_a_taken_id() {
    let plugin = PasswordPlugin::new();
    let mut users = MemoryUserStore::new();
    plugin
        .enroll(&mut users, "alice@example.com", "h1".to_string(), "u1".to_string(), 9)
        .unwrap();
    assert_eq!(
        plugin
            .enroll(&mut users, "alice@example.com", "h2".to_string(), "u2".to_string(), 9)
            .unwrap_err(),
        Error::DuplicateIdentity
    );
    assert_eq!(
        plugin
            .enroll(&mut users, "bob@example.com", "h2".to_string(), "u1".to_string(), 9)
            .unwrap_err(),
        Error::Storage(StorageError::Constraint)
    );
    assert_eq!(users.user_count(), 1);
    assert!(users.find_by_credential(PASSWORD_METHOD, "bob@example.com").unwrap().is_none());
}

#[test]
fn known_hash_verifies_its_password() {
    let plugin = PasswordPlugin::new();
    let mut users = MemoryUserStore::new();
    let hash = "$argon2i$v=19$m=65536,t=1,p=1$c29tZXNhbHQAAAAAAAAAAA$+r0d29hqEB0yasKr55ZgICsQGSkl0v0kgwhd+U3wyRo";
    plugin
        .enroll(&mut users, "carol@example.com", hash.to_string(), "u3".to_string(), 1)
        .unwrap();
    assert_eq!(plugin.authenticate(&users, "carol@example.com", "password").unwrap().id, "u3");
    assert_eq!(
        plugin.authenticate(&users, "carol@example.com", "bogus").unwrap_err(),
        Error::InvalidCredentials
    );
}

#[test]
fn hash_with_a_huge_parameter_is_never_verified() {
    let plugin = PasswordPlugin::new();
    let mut users = MemoryUserStore::new();
    let hostile = [
        "$argon2id$v=19$m=8,t=1,p=536870912$c29tZXNhbHQAAAAAAAAAAA$+r0d29hqEB0yasKr55ZgICsQGSkl0v0kgwhd+U3wyRo",
        "$argon2id$v=19$m=8,t=1,p=4294967295$c29tZXNhbHQAAAAAAAAAAA$+r0d29hqEB0yasKr55ZgICsQGSkl0v0kgwhd+U3wyRo",
        "$argon2i$v=19$m=65536,t=1,p=100000000$c29tZXNhbHQAAAAAAAAAAA$+r0d29hqEB0yasKr55ZgICsQGSkl0v0kgwhd+U3wyRo",
    ];
    for (i, hash) in hostile.iter().enumerate() {
        let email = format!("user{}@example.com", i);
        plugin
            .enroll(&mut users, &email, hash.to_string(), format!("u{}", i), 1)
            .unwrap();
        assert_eq!(
            plugin.authenticate(&users, &email, "password").unwrap_err(),
            Error::InvalidCredentials
        );
    }
}

#[test]
fn hash_that_does_not_parse_verifies_nothing() {
    let plugin = PasswordPlugin::new();
    let mut users = MemoryUserStore::new();
    for (i, hash) in ["", "plain", "$argon2id$", "h\u{e9}sh", "$argon2id$v=19$m=8,t=1,p=1"].iter().enumerate() {
        let email = format!("user{}@example.com", i);
        plugin
            .enroll(&mut users, &email, hash.to_string(), format!("u{}", i), 1)
            .unwrap();
        assert_eq!(
            plugin.authenticate(&users, &email, hash).unwrap_err(),
            Error::InvalidCredentials
        );
    }
}

#[test]
fn parameters_are_bounded_at_eight_digits() {
    assert!(has_bounded_parameters(""));
    assert!(has_bounded_parameters("="));
    assert!(has_bounded_parameters("123456789"));
    assert!(has_bounded_parameters("p=12345678"));
    assert!(has_bounded_parameters("p=12345678,t=1"));
    assert!(has_bounded_parameters("p=12345678x9"));
    assert!(has_bounded_parameters("$argon2id$v=19$m=19456,t=2,p=1$0123456789012345678901$0123456789"));
    assert!(has_bounded_parameters(
        "$argon2i$v=19$m=65536,t=1,p=1$c29tZXNhbHQAAAAAAAAAAA$+r0d29hqEB0yasKr55ZgICsQGSkl0v0kgwhd+U3wyRo"
    ));
    assert!(!has_bounded_parameters("p=123456789"));
    assert!(!has_bounded_parameters("=000000000"));
    assert!(!has_bounded_parameters("m=8,t=1,p=536870912"));
    assert!(!has_bounded_parameters("m=8,t=1,p=536870912$salt"));
    assert!(!has_bounded_parameters("v=1234567890$m=8"));
    assert!(!has_bounded_parameters("a==123456789"));
    assert!(!has_bounded_parameters("p=1\u{e9}"));
}

#[test]
fn registration_makes_a_hash_with_bounded_parameters() {
    let plugin = PasswordPlugin::new();
    let mut users = MemoryUserStore::new();
    plugin.register(&mut users, "alice@example.com", "secret123", 1).unwrap();
    match users.find_by_credential(PASSWORD_METHOD, "alice@example.com").unwrap() {
        Some((_, CredentialData::Password { hash })) => {
            assert!(has_bounded_parameters(&hash));
            assert!(hash.starts_with("$argon2id$v=19$m=19456,t=2,p=1$"));
        }
        _ => panic!("the credential was linked"),
    }
}
