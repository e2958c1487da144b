use formcore::password::Password;

#[test]
fn test_password_verification() {
    let password = "my_secure_password";
    let hash = Password::generate_password(password);
    assert!(Password::compare(&hash, password));
    assert!(!Password::compare(&hash, "wrong_password"));
}

#[test]
fn stored_form_is_hex_dot_hex() {
    let hash = Password::generate_password("pw");
    let parts: Vec<&str> = hash.split('.').collect();
    assert_eq!(parts.len(), 2);
    assert_eq!(parts[0].len(), 1024);
    assert_eq!(parts[1].len(), 64);
    assert!(parts[0].chars().all(|c| c.is_ascii_hexdigit() && !c.is_ascii_uppercase()));
    assert!(parts[1].chars().all(|c| c.is_ascii_hexdigit() && !c.is_ascii_uppercase()));
}

#[test]
fn malformed_stored_passwords_never_match() {
    assert!(!Password::compare("", "pw"));
    assert!(!Password::compare("nodot", "pw"));
    assert!(!Password::compare("a.b.c", "pw"));
    assert!(!Password::compare("abcd.zzzz", "pw"));
    assert!(!Password::compare("abcd.ABCD", "pw"));
    assert!(!Password::compare("abcd.abc", "pw"));
}

#[test]
fn two_hashes_of_one_password_differ_by_salt() {
    let first = Password::generate_password("same");
    let second = Password::generate_password("same");
    assert_ne!(first, second);
    assert!(Password::compare(&first, "same"));
    assert!(Password::compare(&second, "same"));
}
