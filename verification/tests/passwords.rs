use soc_net::services::encryption::{EncryptionService, HashingFailed};

#[test]
fn test_hash_verify_password() {
    let encryption_service = EncryptionService::new();
    let hash = encryption_service.hash_password("password".to_string()).unwrap();

    let is_valid = encryption_service.verify_password("password", &hash);
    assert!(is_valid);
}

#[test]
fn hash_verifies_for_its_password_only() {
    let service = EncryptionService::new();
    let hash = service.hash_password("password123".to_string()).unwrap();
    assert!(service.verify_password("password123", &hash));
    assert!(!service.verify_password("wrong", &hash));
    assert!(!service.verify_password("password12", &hash));
    assert!(!service.verify_password("password1234", &hash));
    assert!(!service.verify_password("Password123", &hash));
    assert!(!service.verify_password("", &hash));
}

#[test]
fn hash_is_salted_and_encoded() {
    let service = EncryptionService::default();
    let first = service.hash_password("password123".to_string()).unwrap();
    let second = service.hash_password("password123".to_string()).unwrap();
    assert_ne!(first, second);
    assert_ne!(first, "password123");
    assert!(first.starts_with("$argon2"));
    assert!(service.verify_password("password123", &first));
    assert!(service.verify_password("password123", &second));
}

#[test]
fn passwords_of_any_length_and_script_hash() {
    let service = EncryptionService::new();
    for password in ["", "123456", "p\u{e4}ssw\u{f6}rd \u{1f511}", "a much longer password, with spaces"] {
        let hash = service.hash_password(password.to_string()).unwrap();
        assert!(service.verify_password(password, &hash));
        assert!(!service.verify_password("another", &hash));
    }
}

#[test]
fn malformed_hash_is_a_no() {
    let service = EncryptionService::new();
    assert!(!service.verify_password("password", ""));
    assert!(!service.verify_password("password", "password"));
    assert!(!service.verify_password("password", "$argon2id$v=19$m=19456,t=2,p=1$"));
    assert!(!service.verify_password("", ""));
}

#[test]
fn hash_made_elsewhere_verifies() {
    let service = EncryptionService::new();
    let hash = "$argon2i$v=19$m=65536,t=1,p=1$c29tZXNhbHQAAAAAAAAAAA$+r0d29hqEB0yasKr55ZgICsQGSkl0v0kgwhd+U3wyRo";
    assert!(service.verify_password("password", hash));
    assert!(!service.verify_password("bogus", hash));
    let made = password_auth::generate_hash("password");
    assert!(service.verify_password("password", &made));
    let ours = service.hash_password("password".to_string()).unwrap();
    assert!(password_auth::verify_password("password", &ours).is_ok());
}

#[test]
fn lost_worker_fails_the_hash_and_denies_the_check() {
    let settled = EncryptionService::settle_hash(None);
    assert_eq!(settled, Err(HashingFailed::WorkerLost));
    let settled = EncryptionService::settle_hash(Some(Ok("hash".to_string())));
    assert_eq!(settled, Ok("hash".to_string()));
    let settled = EncryptionService::settle_hash(Some(Err(HashingFailed::PasswordTooLong)));
    assert_eq!(settled, Err(HashingFailed::PasswordTooLong));
    assert!(!EncryptionService::settle_verdict(None));
    assert!(!EncryptionService::settle_verdict(Some(false)));
    assert!(EncryptionService::settle_verdict(Some(true)));
}

#[test]
fn hashing_failures_have_their_words() {
    assert_eq!(HashingFailed::WorkerLost.message(), "channel closed");
    assert_eq!(HashingFailed::PasswordTooLong.message(), "password is too long");
}
