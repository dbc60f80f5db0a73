use quiz_backend::password::{hash_password, verify_password, PasswordError};

#[test]
fn test_token() {
    let password = "password";
    let hashed_password = hash_password(password).unwrap();
    println!("Hashed password, {} -> {}", password, hashed_password);
    assert!(verify_password(&hashed_password, password).unwrap());
}

#[test]
fn hash_differs_from_the_password() {
    let hashed = hash_password("password").unwrap();
    assert_ne!(hashed, "password");
    assert!(hashed.starts_with("$argon2"));
}

#[test]
fn wrong_password_does_not_verify() {
    let hashed = hash_password("correct horse").unwrap();
    assert_eq!(verify_password(&hashed, "battery staple"), Ok(false));
    assert_eq!(verify_password(&hashed, "correct horse"), Ok(true));
}

#[test]
fn two_hashes_of_one_password_differ_and_both_verify() {
    let first = hash_password("secret").unwrap();
    let second = hash_password("secret").unwrap();
    assert_ne!(first, second);
    assert_eq!(verify_password(&first, "secret"), Ok(true));
    assert_eq!(verify_password(&second, "secret"), Ok(true));
}

#[test]
fn empty_password_hashes_and_verifies() {
    let hashed = hash_password("").unwrap();
    assert_eq!(verify_password(&hashed, ""), Ok(true));
    assert_eq!(verify_password(&hashed, "x"), Ok(false));
}

#[test]
fn malformed_hash_is_an_error_not_a_mismatch() {
    assert_eq!(
        verify_password("not-a-hash", "password"),
        Err(PasswordError::InvalidHashFormat)
    );
    assert_eq!(
        verify_password("", "password"),
        Err(PasswordError::InvalidHashFormat)
    );
}

#[test]
fn hash_is_an_argon2id_phc_string() {
    let hashed = hash_password("pw").unwrap();
    assert!(hashed.starts_with("$argon2id$"));
    assert_ne!(hashed, "pw");
}
