use vstd::prelude::*;

verus! {

/// Whether `password_hash::Salt::from_b64` accepts `salt` as a B64 salt
/// string (4 to 64 characters, all drawn from the B64 salt alphabet).
pub uninterp spec fn salt_b64_ok(salt: Seq<char>) -> bool;

/// The PHC string that `password_hash::PasswordHash::generate` with
/// `argon2::Argon2::default()` produces for `password` and the B64 salt
/// string `salt`, or `None` where the primitive rejects the input. The
/// parameters are fixed, so the outcome depends on the two arguments alone.
pub uninterp spec fn phc_hash_of(password: Seq<char>, salt: Seq<char>) -> Option<Seq<char>>;

/// Relies on `password_hash::SaltString::from_b64` and
/// `password_hash::PasswordHash::generate` with `argon2::Argon2::default()`:
/// `from_b64` keeps exactly the characters of `salt`, and the generated PHC
/// string, including whether generation succeeds, is a function of the
/// password and the salt string alone.
#[verifier::external_body]
pub(crate) fn hash_password(password: &str, salt: &str) -> (r: Option<String>)
    ensures
        r is Some <==> (salt_b64_ok(salt@) && phc_hash_of(password@, salt@) is Some),
        r matches Some(h) ==> Some(h@) == phc_hash_of(password@, salt@),
{
    let salt = match password_hash::SaltString::from_b64(salt) {
        Ok(s) => s,
        Err(_) => return None,
    };
    match password_hash::PasswordHash::generate(argon2::Argon2::default(), password, &salt) {
        Ok(hash) => Some(hash.to_string()),
        Err(_) => None,
    }
}

/// Relies on `password_hash::SaltString::generate` with `OsRng`: it B64-encodes
/// 16 freshly drawn random bytes, so the result is a 22-character salt string
/// that `from_b64` accepts. Nothing relates one drawn salt to another.
#[verifier::external_body]
pub(crate) fn generate_salt() -> (s: String)
    ensures
        salt_b64_ok(s@),
        s@.len() == 22,
{
    password_hash::SaltString::generate(password_hash::rand_core::OsRng)
        .as_str()
        .to_string()
}

/// Relies on `uuid::Uuid::new_v4`: a freshly drawn random 128-bit identifier,
/// rendered in its hyphenated form of 36 characters. Nothing relates one drawn
/// identifier to another.
#[verifier::external_body]
pub(crate) fn new_session_id() -> (s: String)
    ensures
        s@.len() == 36,
{
    uuid::Uuid::new_v4().to_string()
}

} // verus!
