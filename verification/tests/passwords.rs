use storefront::utils::password_handler::{hash_password, verify_password};

#[test]
fn a_hash_is_not_the_password() {
    let hash = hash_password("longenough1").unwrap();
    assert_ne!(hash, "longenough1");
    assert!(hash.starts_with("$argon2id$"), "{}", hash);
}

#[test]
fn two_hashes_of_one_password_differ() {
    let first = hash_password("longenough1").unwrap();
    let second = hash_password("longenough1").unwrap();
    assert_ne!(first, second);
}

#[test]
fn a_password_matches_its_hash() {
    let hash = hash_password("longenough1").unwrap();
    assert_eq!(verify_password("longenough1", hash), Some(true));
}

#[test]
fn another_password_does_not_match() {
    let hash = hash_password("longenough1").unwrap();
    assert_eq!(verify_password("wrongpass", hash.clone()), Some(false));
    assert_eq!(verify_password("", hash), Some(false));
}

#[test]
fn a_known_hash_is_verified() {
    let stored = "$argon2id$v=19$m=256,t=2,p=1$c29tZXNhbHQ$nf65EOgLrQMR/uIPnA4rEsF5h7TKyQwu9U1bMCHGi/4";
    assert_eq!(verify_password("password", stored.to_string()), Some(true));
    assert_eq!(verify_password("Password", stored.to_string()), Some(false));
}

#[test]
fn a_text_that_is_no_hash_cannot_be_verified() {
    assert_eq!(verify_password("longenough1", "not-a-hash".to_string()), None);
    assert_eq!(verify_password("longenough1", "".to_string()), None);
    assert_eq!(verify_password("longenough1", "longenough1".to_string()), None);
}

#[test]
fn a_hash_of_another_algorithm_cannot_be_verified() {
    let stored = "$scrypt$ln=16,r=8,p=1$c29tZXNhbHQ$+r0d29hqEB0yasKr55ZgICsQGSkl0v0kgwhd+U3wyRo";
    assert_eq!(verify_password("password", stored.to_string()), None);
}
