use playout::password::{hash_password_string, verify_password_hash};

#[test]
fn hash_matches_known_vector() {
    // PBKDF2-HMAC-SHA-256, salt "useless_salt", 1000 iterations, 20 bytes.
    assert_eq!(
        hash_password_string("abc".to_string()),
        "96849f781469da0d5617f6fce3d2f8040cfe532c"
    );
    assert_eq!(
        hash_password_string("password".to_string()),
        "905bcdaaddb60f864f535b02e0167fc05d3c276e"
    );
}

#[test]
fn hash_is_forty_lowercase_hex_digits() {
    let h = hash_password_string("some password".to_string());
    assert_eq!(h.len(), 40);
    assert!(h.chars().all(|c| c.is_ascii_hexdigit() && !c.is_ascii_uppercase()));
}

#[test]
fn verify_accepts_matching_password() {
    let h = hash_password_string("letmein".to_string());
    assert!(verify_password_hash("letmein".to_string(), h));
}

#[test]
fn verify_rejects_wrong_password_or_hash() {
    let h = hash_password_string("letmein".to_string());
    assert!(!verify_password_hash("letmeout".to_string(), h));
    assert!(!verify_password_hash(
        "letmein".to_string(),
        "0000000000000000000000000000000000000000".to_string()
    ));
}
