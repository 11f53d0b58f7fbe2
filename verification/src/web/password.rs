//! Passwords: hashing them, and holding one against a hash.
use vstd::prelude::*;
use vstd::string::*;
use crate::text::opt_text;

verus! {

/// How many bytes a salt has.
pub const SALT_BYTES: usize = 16;

/// What `argon2` says of a password and a stored hash: nothing where the hash is
/// not one, else whether the password belongs to it.
pub uninterp spec fn password_verdict(stored: Seq<char>, password: Seq<char>) -> Option<bool>;

/// The hash that `argon2` gives for a password and a salt.
pub uninterp spec fn argon2_hash(password: Seq<char>, salt: Seq<u8>) -> Option<Seq<char>>;

/// `argon2::PasswordVerifier::verify_password`: whether a password belongs to a
/// stored hash, named by `password_verdict`.
#[verifier::external_body]
pub(crate) fn verify(stored: &str, password: &str) -> (r: Option<bool>)
    ensures
        r == password_verdict(stored@, password@),
{
    match argon2::PasswordHash::new(stored) {
        Ok(hash) => {
            let hasher = argon2::Argon2::default();
            let outcome = argon2::PasswordVerifier::verify_password(
                &hasher,
                password.as_bytes(),
                &hash,
            );
            Some(outcome.is_ok())
        },
        Err(_) => None,
    }
}

/// `argon2::PasswordHasher::hash_password`: the hash of a password, named by
/// `argon2_hash`. What was hashed belongs to its hash: verifying computes the hash
/// again with the salt and the parameters that the hash itself holds.
#[verifier::external_body]
pub(crate) fn hash_with(password: &str, salt: &Vec<u8>) -> (r: Option<String>)
    requires
        salt@.len() == SALT_BYTES,
    ensures
        opt_text(r) == argon2_hash(password@, salt@),
        r matches Some(h) ==> password_verdict(h@, password@) == Some(true),
{
    let salt = argon2::password_hash::SaltString::encode_b64(salt).ok()?;
    let hasher = argon2::Argon2::default();
    match argon2::PasswordHasher::hash_password(&hasher, password.as_bytes(), &salt) {
        Ok(hash) => Some(hash.to_string()),
        Err(_) => None,
    }
}

/// `ring::rand::SystemRandom`: a fresh salt, where the system gives random bytes.
/// Which bytes they are rests on chance.
#[verifier::external_body]
pub(crate) fn fresh_salt() -> (r: Option<Vec<u8>>)
    ensures
        r matches Some(salt) ==> salt@.len() == SALT_BYTES,
{
    let mut salt = vec![0u8; SALT_BYTES];
    let random = ring::rand::SystemRandom::new();
    match ring::rand::SecureRandom::fill(&random, &mut salt) {
        Ok(_) => Some(salt),
        Err(_) => None,
    }
}

/// The hash of a password with a fresh salt: a hash that the password belongs to. Whether
/// there is one rests on the system, which may give no random bytes for the salt.
pub fn hash_password(password: &str) -> (r: Option<String>)
    ensures
        r matches Some(h) ==> password_verdict(h@, password@) == Some(true) && exists|salt: Seq<u8>|
            salt.len() == SALT_BYTES && #[trigger] argon2_hash(password@, salt) == Some(h@),
{
    let salt = fresh_salt();
    let r = hash_salted(password, &salt);
    proof {
        if let Some(bytes) = salt {
            assert(opt_text(r) == argon2_hash(password@, bytes@));
        }
    }
    r
}

/// The hash of a password with a salt, where a salt could be had: the one that `argon2`
/// gives, if it gives one. The password belongs to it.
pub fn hash_salted(password: &str, salt: &Option<Vec<u8>>) -> (r: Option<String>)
    requires
        salt matches Some(bytes) ==> bytes@.len() == SALT_BYTES,
    ensures
        opt_text(r) == match salt {
            Some(bytes) => argon2_hash(password@, bytes@),
            None => None,
        },
        r matches Some(h) ==> password_verdict(h@, password@) == Some(true),
{
    match salt {
        Some(bytes) => hash_with(password, bytes),
        None => None,
    }
}

/// What becomes of a password that is held against a stored hash.
#[derive(Debug, Clone, Copy, PartialEq, Eq, Structural)]
pub enum PasswordCheck {
    Belongs,
    Differs,
    NoHash,
}

/// What a verdict means.
pub open spec fn check_of(verdict: Option<bool>) -> PasswordCheck {
    match verdict {
        Some(true) => PasswordCheck::Belongs,
        Some(false) => PasswordCheck::Differs,
        None => PasswordCheck::NoHash,
    }
}

/// What a verdict means.
pub fn judge(verdict: Option<bool>) -> (r: PasswordCheck)
    ensures
        r == check_of(verdict),
{
    match verdict {
        Some(true) => PasswordCheck::Belongs,
        Some(false) => PasswordCheck::Differs,
        None => PasswordCheck::NoHash,
    }
}

/// Holds a password against a stored hash.
pub fn check_password(stored: &str, password: &str) -> (r: PasswordCheck)
    ensures
        r == check_of(password_verdict(stored@, password@)),
{
    judge(verify(stored, password))
}

// ── Laws ─────────────────────────────────────────────────────────────────────

/// A password is let in exactly where it belongs to the stored hash; one that does not belong and a
/// stored text that is no hash are told apart.
pub proof fn law_only_the_right_password_belongs(
    stored: &str,
    password: &str,
    r: PasswordCheck,
)
    requires
        call_ensures(check_password, (stored, password), r),
    ensures
        r == PasswordCheck::Belongs <==> password_verdict(stored@, password@) == Some(true),
        r == PasswordCheck::Differs <==> password_verdict(stored@, password@) == Some(false),
        r == PasswordCheck::NoHash <==> password_verdict(stored@, password@) is None,
{
}

/// A password that was hashed is let in against its hash.
pub proof fn law_hashed_password_belongs(
    password: &str,
    hashed: String,
    stored: &str,
    r: PasswordCheck,
)
    requires
        call_ensures(hash_password, (password,), Some(hashed)),
        stored@ == hashed@,
        call_ensures(check_password, (stored, password), r),
    ensures
        r == PasswordCheck::Belongs,
{
}

} // verus!
