use pinepods_api::error::AppError;
use pinepods_api::services::auth::{
    accepts, hash_outcome, hash_password, verify_password, PasswordCheck,
};

#[test]
fn hash_then_verify_round_trip() {
    let hash = hash_password("correct horse battery staple").expect("hash");
    assert!(hash.starts_with("$argon2id$"));
    assert!(verify_password("correct horse battery staple", &hash).unwrap());
    assert!(!verify_password("wrong password", &hash).unwrap());
}

#[test]
fn hashes_are_salted_per_call() {
    let a = hash_password("same password").expect("hash");
    let b = hash_password("same password").expect("hash");
    assert_ne!(a, b);
    assert!(verify_password("same password", &a).unwrap());
    assert!(verify_password("same password", &b).unwrap());
}

#[test]
fn unreadable_hashes_are_errors() {
    match verify_password("secret", "not a hash") {
        Err(AppError::Auth(text)) => {
            assert!(text.starts_with("Invalid password hash format: "));
            assert!(text.len() > "Invalid password hash format: ".len());
        }
        other => panic!("unexpected outcome: {other:?}"),
    }
    assert!(verify_password("secret", "").is_err());
}

#[test]
fn empty_passwords_are_hashed_too() {
    let hash = hash_password("").unwrap();
    assert!(verify_password("", &hash).unwrap());
    assert!(!verify_password(" ", &hash).unwrap());
}

#[test]
fn a_hash_is_read_by_its_own_parameters() {
    // Argon2id with parameters that differ from the defaults.
    let stored = "$argon2id$v=19$m=256,t=2,p=1$c29tZXNhbHQ$nf65EOgLrQMR/uIPnA4rEsF5h7TKyQwu9U1bMCHGi/4";
    assert_eq!(verify_password("password", stored), Ok(true));
    assert_eq!(verify_password("Password", stored), Ok(false));
}

#[test]
fn only_a_match_is_accepted() {
    assert!(accepts(PasswordCheck::Match));
    assert!(!accepts(PasswordCheck::Mismatch));
    assert!(!accepts(PasswordCheck::OutOfMemory));
}

#[test]
fn failed_hashes_name_the_complaint() {
    assert_eq!(
        hash_outcome(Err("no entropy".to_string())),
        Err(AppError::Auth("Failed to hash password: no entropy".to_string()))
    );
    assert_eq!(hash_outcome(Ok("h".to_string())), Ok("h".to_string()));
}
