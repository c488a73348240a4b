use auth_gate::password::{
    check_password_is_valid_when_register, hash_password, is_password_valid_with_hashed_password,
};

#[test]
fn hash_then_verify_succeeds() {
    let hash = hash_password("correct horse".to_string()).unwrap();
    assert!(is_password_valid_with_hashed_password("correct horse".to_string(), hash));
}

#[test]
fn verify_rejects_other_password() {
    let hash = hash_password("correct horse".to_string()).unwrap();
    assert!(!is_password_valid_with_hashed_password("wrong horse".to_string(), hash));
}

#[test]
fn verify_rejects_malformed_hash() {
    assert!(!is_password_valid_with_hashed_password(
        "anything".to_string(),
        "anything".to_string()
    ));
}

#[test]
fn hashes_differ_across_calls_but_both_verify() {
    let h1 = hash_password("pass".to_string()).unwrap();
    let h2 = hash_password("pass".to_string()).unwrap();
    assert_ne!(h1, h2);
    assert!(is_password_valid_with_hashed_password("pass".to_string(), h1));
    assert!(is_password_valid_with_hashed_password("pass".to_string(), h2));
}

#[test]
fn long_password_round_trips() {
    let long = "x".repeat(100);
    let hash = hash_password(long.clone()).unwrap();
    assert!(is_password_valid_with_hashed_password(long, hash));
}

#[test]
fn verify_fails_closed_on_non_printable_hash() {
    let low = format!("$2b$10${}", "\u{1}".repeat(22));
    assert!(!is_password_valid_with_hashed_password("anything".to_string(), low));
    let high = format!("$2b$10${}", "\u{80}".repeat(22));
    assert!(!is_password_valid_with_hashed_password("anything".to_string(), high));
}

#[test]
fn register_check_accepts_matching_pair() {
    let r = check_password_is_valid_when_register("abcd".to_string(), "abcd".to_string());
    assert_eq!(r, Ok("abcd".to_string()));
}

#[test]
fn register_check_rejects_mismatch() {
    let r = check_password_is_valid_when_register("abcd".to_string(), "abce".to_string());
    assert_eq!(r, Err("Passwords must be the same".to_string()));
}

#[test]
fn register_check_rejects_short_password() {
    let r = check_password_is_valid_when_register("abc".to_string(), "abc".to_string());
    assert_eq!(r, Err("Password must contain at least 4 characters".to_string()));
}

#[test]
fn register_check_rejects_empty_password() {
    let r = check_password_is_valid_when_register(String::new(), String::new());
    assert_eq!(r, Err("Password must contain at least 4 characters".to_string()));
}
