use admissions::credential::{hash_password, verify_password, CredentialError};

#[test]
fn hash_then_verify_round_trip() {
    let h = hash_password("s3cret").unwrap();
    assert_eq!(h.len(), 60);
    assert_ne!(h, "s3cret");
    assert_eq!(verify_password("s3cret", &h), Ok(true));
    assert_eq!(verify_password("s3cret!", &h), Ok(false));
}

#[test]
fn hashing_twice_gives_different_hashes() {
    let a = hash_password("same").unwrap();
    let b = hash_password("same").unwrap();
    assert_ne!(a, b);
}

#[test]
fn malformed_hash_is_an_error() {
    assert_eq!(verify_password("x", "not-a-hash"), Err(CredentialError::Verification));
}
