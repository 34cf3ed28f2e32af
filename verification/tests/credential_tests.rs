use pantry_service::user::User;

const NOW: i64 = 1700000000;

fn fresh_user(password: &str) -> User {
    User::new(
        "uid-1".to_string(),
        "a@b.com".to_string(),
        password,
        "Ada".to_string(),
        "Lovelace".to_string(),
        NOW,
    )
    .expect("hashing succeeds")
}

#[test]
fn verify_accepts_right_password_rejects_wrong() {
    let u = fresh_user("hunter42");
    assert!(u.verify_password("hunter42"));
    assert!(!u.verify_password("hunter43"));
    assert!(!u.verify_password(""));
}

#[test]
fn hash_is_self_describing_phc_string() {
    let u = fresh_user("hunter42");
    assert!(u.password_hash.starts_with("$argon2"));
}

#[test]
fn hashing_twice_yields_different_strings() {
    let a = fresh_user("same-password");
    let b = fresh_user("same-password");
    assert_ne!(a.password_hash, b.password_hash);
    assert!(a.verify_password("same-password"));
    assert!(b.verify_password("same-password"));
}

#[test]
fn malformed_stored_hash_matches_nothing() {
    let mut u = fresh_user("hunter42");
    u.password_hash = "not-a-phc-string".to_string();
    assert!(!u.verify_password("hunter42"));
    assert!(!u.verify_password("not-a-phc-string"));
}

#[test]
fn update_password_rehashes_with_fresh_salt() {
    let mut u = fresh_user("old-password");
    let old_hash = u.password_hash.clone();
    u.update_password("new-password", NOW + 5).expect("rehash succeeds");
    assert_ne!(u.password_hash, old_hash);
    assert!(u.verify_password("new-password"));
    assert!(!u.verify_password("old-password"));
    assert_eq!(u.updated_at, NOW + 5);
    assert_eq!(u.created_at, NOW);
}
