//! Deriving a key from the master password with Argon2id, and checking a
//! password against a stored hash.

use vstd::prelude::*;
use crate::error::RatariaError;
use argon2::password_hash::SaltString;

verus! {

/// A text held in memory that is wiped when it is dropped (`zeroize`'s
/// `Zeroizing<String>`, kept whole here because its bound reaches traits of
/// `zeroize` that the specifications cannot name).
#[verifier::external_body]
pub struct ProtectedText {
    inner: zeroize::Zeroizing<String>,
}

#[verifier::external_type_specification]
#[verifier::external_body]
pub struct ExSaltString(argon2::password_hash::SaltString);

/// The text that a protected text holds.
pub uninterp spec fn protected_text(z: ProtectedText) -> Seq<char>;

/// What `PasswordHash::new` (the PHC string parser of `password-hash`) says
/// of a text: `None` when it parses, else the text of its error.
pub uninterp spec fn phc_parse_error(hash: Seq<char>) -> Option<Seq<char>>;

/// Whether `Argon2::default().verify_password` accepts `password` against
/// the parsed PHC hash `hash`.
pub uninterp spec fn argon2_accepts(password: Seq<char>, hash: Seq<char>) -> bool;

impl ProtectedText {
    /// `zeroize`'s `Zeroizing::new`: the protected text holds the text it was
    /// given.
    #[verifier::external_body]
    fn new(s: String) -> (r: ProtectedText)
        ensures
            protected_text(r) == s@,
    {
        ProtectedText { inner: zeroize::Zeroizing::new(s) }
    }

    /// The text held (what `Zeroizing<String>` dereferences to).
    #[verifier::external_body]
    pub fn as_str(&self) -> (r: &str)
        ensures
            r@ == protected_text(*self),
    {
        self.inner.as_str()
    }
}

/// A fresh random salt: sixteen bytes drawn with `rand_core`'s
/// `OsRng::try_fill_bytes`, written by `password-hash`'s
/// `SaltString::encode_b64`. When the operating system's random source
/// fails, or the encoding does, its error text comes back instead. The salt
/// is chance, so nothing is stated of it.
#[verifier::external_body]
fn random_salt() -> (r: Result<SaltString, String>) {
    let mut bytes = [0u8; 16];
    match rand_core::RngCore::try_fill_bytes(&mut rand_core::OsRng, &mut bytes) {
        Ok(()) => SaltString::encode_b64(&bytes).map_err(|e| e.to_string()),
        Err(e) => Err(e.to_string()),
    }
}

/// `Argon2::default().hash_password` with salt `salt`, the hash written as
/// its PHC string and an error as its text.
///
/// `Argon2::default()` is Argon2id, so a hash it writes starts with
/// `$argon2id$`. A hash it writes parses back (`PasswordHash::new`) and verifies
/// (`verify_password` recomputes the hash from the parameters and salt it
/// carries) for the same password. Which error text comes out is not
/// stated.
#[verifier::external_body]
fn argon2_hash(password: &str, salt: &SaltString) -> (r: Result<String, String>)
    ensures
        r matches Ok(h) ==> phc_parse_error(h@) is None && argon2_accepts(password@, h@),
        r matches Ok(h) ==> "$argon2id$"@.is_prefix_of(h@),
{
    match argon2::PasswordHasher::hash_password(
        &argon2::Argon2::default(),
        password.as_bytes(),
        salt,
    ) {
        Ok(h) => Ok(h.to_string()),
        Err(e) => Err(e.to_string()),
    }
}

/// `PasswordHash::new` on `hash`: `None` when it parses, else the text of
/// its error, as `phc_parse_error` names it.
#[verifier::external_body]
fn phc_check(hash: &str) -> (r: Option<String>)
    ensures
        match r {
            Some(m) => phc_parse_error(hash@) == Some(m@),
            None => phc_parse_error(hash@) is None,
        },
{
    match argon2::password_hash::PasswordHash::new(hash) {
        Ok(_) => None,
        Err(e) => Some(e.to_string()),
    }
}

/// `Argon2::default().verify_password` of `password` against the parsed
/// hash `hash`: whether it succeeds, as `argon2_accepts` names it.
#[verifier::external_body]
fn argon2_verify(password: &str, hash: &str) -> (r: bool)
    requires
        phc_parse_error(hash@) is None,
    ensures
        r == argon2_accepts(password@, hash@),
{
    match argon2::password_hash::PasswordHash::new(hash) {
        Ok(parsed) => argon2::PasswordVerifier::verify_password(
            &argon2::Argon2::default(),
            password.as_bytes(),
            &parsed,
        ).is_ok(),
        Err(_) => false,
    }
}

/// Derives a key from `password` with Argon2id and a fresh random salt: the
/// PHC string of the hash, held in memory that is wiped when dropped.
///
/// The key parses as a PHC hash and verifies against the same password; a
/// failure of the random source or of the hash comes back as a `CryptoError`.
pub fn derive_key(password: &str) -> (r: Result<ProtectedText, RatariaError>)
    ensures
        r matches Ok(k) ==> phc_parse_error(protected_text(k)) is None && argon2_accepts(
            password@,
            protected_text(k),
        ) && "$argon2id$"@.is_prefix_of(protected_text(k)),
        r matches Err(e) ==> e is CryptoError,
{
    let salt = match random_salt() {
        Ok(s) => s,
        Err(m) => return Err(RatariaError::CryptoError(m)),
    };
    match argon2_hash(password, &salt) {
        Ok(h) => Ok(ProtectedText::new(h)),
        Err(m) => Err(RatariaError::CryptoError(m)),
    }
}

/// Whether `password` matches the stored hash `hash`.
///
/// It fails with a `CryptoError` holding the parser's message when `hash`
/// is not a PHC string.
pub fn verify_password(password: &str, hash: &str) -> (r: Result<bool, RatariaError>)
    ensures
        match phc_parse_error(hash@) {
            Some(m) => r matches Err(RatariaError::CryptoError(x)) && x@ == m,
            None => r == Ok::<bool, RatariaError>(argon2_accepts(password@, hash@)),
        },
{
    match phc_check(hash) {
        Some(m) => Err(RatariaError::CryptoError(m)),
        None => Ok(argon2_verify(password, hash)),
    }
}

} // verus!
