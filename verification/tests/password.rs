use chat_rs::password::{
    hash_password, hashing_outcome, verify_password, HashingError, HASH_LEN,
};

#[test]
fn hash_is_not_the_password_and_verifies() {
    let hash = hash_password("s3cret").unwrap();
    assert_ne!(hash, "s3cret");
    assert!(verify_password("s3cret", &hash));
}

#[test]
fn hash_has_the_shape_of_a_bcrypt_2b_hash_at_the_fixed_cost() {
    let hash = hash_password("hunter2").unwrap();
    assert_eq!(hash.chars().count(), HASH_LEN);
    assert!(hash.starts_with("$2b$12$"));
}

#[test]
fn other_password_does_not_verify() {
    let hash = hash_password("correct horse").unwrap();
    assert!(!verify_password("battery staple", &hash));
}

#[test]
fn two_hashes_of_one_password_differ_and_both_verify() {
    let first = hash_password("same").unwrap();
    let second = hash_password("same").unwrap();
    assert_ne!(first, second);
    assert!(verify_password("same", &first));
    assert!(verify_password("same", &second));
}

#[test]
fn known_hash_verifies_its_password_only() {
    let hash = "$2b$04$EGdrhbKUv8Oc9vGiXX0HQOxSg445d458Muh7DAHskb6QbtCvdxcie";
    assert!(verify_password("correctbatteryhorsestapler", hash));
    assert!(!verify_password("wrong", hash));
    assert!(!verify_password(hash, hash));
}

#[test]
fn text_that_is_no_hash_matches_nothing() {
    assert!(!verify_password("s3cret", "s3cret"));
    assert!(!verify_password("s3cret", ""));
    assert!(!verify_password("s3cret", "$2b$04$tooshort"));
}

#[test]
fn empty_and_long_passwords_hash() {
    let empty = hash_password("").unwrap();
    assert!(verify_password("", &empty));
    let long = "x".repeat(200);
    let hash = hash_password(&long).unwrap();
    assert!(verify_password(&long, &hash));
}

#[test]
fn hashing_outcome_keeps_the_hash_and_folds_every_complaint() {
    let hash = "$2b$12$L6Bc/AlTQHyd9liGgGEZyOFLPHNgyxeEPfgYfBCVxJ7JIlwxyVU3u".to_string();
    assert_eq!(hashing_outcome(Ok(hash.clone())), Ok(hash));
    assert_eq!(hashing_outcome(Ok(String::new())), Ok(String::new()));
    assert_eq!(hashing_outcome(Err(bcrypt::BcryptError::CostNotAllowed(3))), Err(HashingError));
    assert_eq!(
        hashing_outcome(Err(bcrypt::BcryptError::InvalidHash("x".to_string()))),
        Err(HashingError)
    );
}
