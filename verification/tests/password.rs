use syncnote::password::{hash, password_matches, verdict_result, verify, Argon2Verdict, PasswordError};

#[test]
fn hash_then_verify() {
    let h = hash("correct horse").unwrap();
    assert!(h.starts_with("$argon2"));
    assert_eq!(verify("correct horse", &h), Ok(true));
    assert_eq!(verify("wrong horse", &h), Ok(false));
    assert!(password_matches("correct horse", &h));
    assert!(!password_matches("wrong", &h));
}

#[test]
fn hashes_are_salted() {
    assert_ne!(hash("pw").unwrap(), hash("pw").unwrap());
}

#[test]
fn bad_stored_hash_is_an_error() {
    assert_eq!(verify("pw", ""), Err(PasswordError::InvalidStoredHash));
    assert_eq!(verify("pw", "not a hash"), Err(PasswordError::InvalidStoredHash));
    assert_eq!(verify("pw", "plain"), Err(PasswordError::InvalidStoredHash));
    assert!(!password_matches("pw", "not a hash"));
}

#[test]
fn verdicts() {
    assert_eq!(verdict_result(Argon2Verdict::Match), Ok(true));
    assert_eq!(verdict_result(Argon2Verdict::Mismatch), Ok(false));
    assert_eq!(
        verdict_result(Argon2Verdict::Failed("boom".into())),
        Err(PasswordError::Hash("boom".into()))
    );
    assert_eq!(verdict_result(Argon2Verdict::Unparsable), Err(PasswordError::InvalidStoredHash));
    assert_eq!(PasswordError::Hash("x".into()).message(), "argon2 hash error: x");
    assert_eq!(PasswordError::InvalidStoredHash.message(), "invalid stored hash");
}
