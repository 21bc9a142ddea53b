use blog_api::endpoints::auth::AuthenticationError;
use blog_api::models::user::hash_user_password;
use blog_api::password::{hash_password, verify_password, work_factor, DEFAULT_COST};

#[test]
fn hashed_password_verifies() {
    let digest = hash_password("pw1", 4).unwrap();
    assert!(matches!(verify_password("pw1", &digest), Ok(true)));
}

#[test]
fn wrong_password_does_not_verify() {
    let digest = hash_password("pw1", 4).unwrap();
    assert!(matches!(verify_password("pw2", &digest), Ok(false)));
    assert!(matches!(verify_password("", &digest), Ok(false)));
    assert!(matches!(verify_password("pw1 ", &digest), Ok(false)));
    assert!(matches!(verify_password("PW1", &digest), Ok(false)));
}

#[test]
fn digest_is_not_the_password() {
    let digest = hash_password("hunter2", 4).unwrap();
    assert_ne!(digest, "hunter2");
    assert!(digest.starts_with("$2b$04$"));
    assert_eq!(digest.len(), 60);
    assert!(!digest.contains("hunter2"));
}

#[test]
fn two_digests_of_one_password_differ_and_both_verify() {
    let first = hash_password("correct horse", 4).unwrap();
    let second = hash_password("correct horse", 4).unwrap();
    assert_ne!(first, second);
    assert!(matches!(verify_password("correct horse", &first), Ok(true)));
    assert!(matches!(verify_password("correct horse", &second), Ok(true)));
}

#[test]
fn known_digest_verifies() {
    let digest = "$2b$04$EGdrhbKUv8Oc9vGiXX0HQOxSg445d458Muh7DAHskb6QbtCvdxcie";
    assert!(matches!(verify_password("correctbatteryhorsestapler", digest), Ok(true)));
    assert!(matches!(verify_password("wrong", digest), Ok(false)));
}

#[test]
fn malformed_digest_is_an_encryption_error() {
    assert!(matches!(
        verify_password("pw1", "not a digest"),
        Err(AuthenticationError::Encryption(_))
    ));
    assert!(matches!(verify_password("pw1", ""), Err(AuthenticationError::Encryption(_))));
    assert!(matches!(
        verify_password("pw1", "$argon2id$v=19$m=16,t=2,p=1$c2FsdHNhbHQ$Zm9v"),
        Err(AuthenticationError::Encryption(_))
    ));
    assert!(matches!(
        verify_password("pw1", "$2b$04$tooshort"),
        Err(AuthenticationError::Encryption(_))
    ));
}

#[test]
fn cost_out_of_range_is_an_error() {
    assert!(matches!(hash_password("pw1", 3), Err(AuthenticationError::Encryption(_))));
    assert!(matches!(hash_password("pw1", 32), Err(AuthenticationError::Encryption(_))));
    assert!(matches!(hash_password("pw1", 0), Err(AuthenticationError::Encryption(_))));
    assert!(hash_password("pw1", 4).is_ok());
}

#[test]
fn default_cost_is_twelve() {
    assert_eq!(DEFAULT_COST, 12);
}

#[test]
fn new_user_password_is_hashed_with_the_default_cost() {
    let digest = hash_user_password("pw1").unwrap();
    assert!(digest.starts_with("$2b$12$"));
    assert!(matches!(verify_password("pw1", &digest), Ok(true)));
}

#[test]
fn encryption_error_message_carries_the_detail() {
    let err = verify_password("pw1", "not a digest").unwrap_err();
    let message = err.to_string();
    let prefix = "there was a problem encrypting/decrypting data ";
    assert!(message.starts_with(prefix));
    assert!(message.len() > prefix.len());
    assert_eq!(err.description(), "Encryption");
}

#[test]
fn unauthorized_message() {
    let err = AuthenticationError::Unauthorized;
    assert_eq!(err.to_string(), "could not authenticate the user");
    assert_eq!(err.description(), "Unauthorized");
}

#[test]
fn passwords_are_compared_up_to_72_bytes() {
    let long = "a".repeat(72);
    let longer = "a".repeat(73);
    let digest = hash_password(&long, 4).unwrap();
    assert!(matches!(verify_password(&long, &digest), Ok(true)));
    assert!(matches!(verify_password(&longer, &digest), Ok(true)));
    assert!(matches!(verify_password(&"a".repeat(71), &digest), Ok(false)));
}

#[test]
fn digest_is_made_with_the_work_factor_asked_for() {
    for cost in [4, 5, 6] {
        let digest = hash_password("pw1", cost).unwrap();
        assert_eq!(work_factor(&digest), Some(cost));
        assert!(digest.starts_with(&format!("$2b$0{}$", cost)));
    }
    let digest = hash_user_password("pw1").unwrap();
    assert_eq!(work_factor(&digest), Some(DEFAULT_COST));
}

#[test]
fn work_factor_is_read_from_the_digest() {
    assert_eq!(
        work_factor("$2b$04$EGdrhbKUv8Oc9vGiXX0HQOxSg445d458Muh7DAHskb6QbtCvdxcie"),
        Some(4)
    );
    assert_eq!(
        work_factor("$2y$12$L6Bc/AlTQHyd9liGgGEZyOFLPHNgyxeEPfgYfBCVxJ7JIlwxyVU3u"),
        Some(12)
    );
    assert_eq!(work_factor("not a digest"), None);
    assert_eq!(work_factor(""), None);
    assert_eq!(work_factor("pw1"), None);
}
