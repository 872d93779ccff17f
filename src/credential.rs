use vstd::prelude::*;

verus! {

/// The work factor every stored password hash is made with.
pub const HASH_COST: u32 = 12;

/// Length of every hash text that bcrypt produces.
pub const HASH_LEN: usize = 60;

#[verifier::external_type_specification]
#[verifier::external_body]
pub struct ExBcryptError(bcrypt::BcryptError);

/// Why a credential operation could not be carried out.
#[derive(Clone, Copy, Debug, PartialEq, Eq, Structural)]
pub enum CredentialError {
    /// The hash could not be produced (no randomness for the salt, for instance).
    Hashing,
    /// The stored hash is malformed.
    Verification,
}

/// What bcrypt's `verify` answers for a password and a stored hash:
/// `Some(matches)`, or `None` where it fails on a malformed hash.
pub uninterp spec fn verify_outcome(password: Seq<char>, hash: Seq<char>) -> Option<bool>;

/// Relies on `bcrypt::hash`: with a fresh random salt it returns the 60-character
/// text `$2b$<cost>$<salt><digest>`, which `bcrypt::verify` accepts for the same password.
#[verifier::external_body]
fn bcrypt_hash(password: &str, cost: u32) -> (r: Result<String, bcrypt::BcryptError>)
    requires
        4 <= cost <= 31,
    ensures
        r matches Ok(h) ==> h@.len() == HASH_LEN && h@[0] == '$' && verify_outcome(password@, h@)
            == Some(true),
{
    bcrypt::hash(password, cost)
}

/// Relies on `bcrypt::verify`: the answer depends on the password and the hash alone.
#[verifier::external_body]
fn bcrypt_verify(password: &str, hash: &str) -> (r: Result<bool, bcrypt::BcryptError>)
    ensures
        r matches Ok(b) ==> verify_outcome(password@, hash@) == Some(b),
        r is Err ==> verify_outcome(password@, hash@) is None,
{
    bcrypt::verify(password, hash)
}

/// One-way, salted hash of `plaintext` at the fixed work factor. Every hash it
/// returns verifies against `plaintext`, and is 60 characters long.
pub fn hash_password(plaintext: &str) -> (r: Result<String, CredentialError>)
    ensures
        r matches Ok(h) ==> h@.len() == HASH_LEN && h@[0] == '$',
        r matches Ok(h) ==> verify_outcome(plaintext@, h@) == Some(true),
        r matches Err(e) ==> e == CredentialError::Hashing,
{
    match bcrypt_hash(plaintext, HASH_COST) {
        Ok(h) => Ok(h),
        Err(_) => Err(CredentialError::Hashing),
    }
}

/// Whether `plaintext` reproduces `hashed`; a mismatch is `Ok(false)`, and only a
/// malformed hash is an error.
pub fn verify_password(plaintext: &str, hashed: &str) -> (r: Result<bool, CredentialError>)
    ensures
        r == (match verify_outcome(plaintext@, hashed@) {
            Some(b) => Ok(b),
            None => Err(CredentialError::Verification),
        }),
{
    match bcrypt_verify(plaintext, hashed) {
        Ok(b) => Ok(b),
        Err(_) => Err(CredentialError::Verification),
    }
}

/// A stored hash is never the plaintext it was made from, unless that plaintext
/// is itself 60 characters long and starts with `$`.
pub proof fn lemma_hash_differs_from_plaintext(plaintext: Seq<char>, hashed: Seq<char>)
    requires
        hashed.len() == HASH_LEN,
        hashed[0] == '$',
        plaintext.len() != HASH_LEN || plaintext[0] != '$',
    ensures
        hashed != plaintext,
{
}

} // verus!
