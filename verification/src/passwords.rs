//! Password hashing with bcrypt.

use vstd::prelude::*;
use bcrypt::BcryptError;

verus! {

/// The error type of the bcrypt crate.
#[verifier::external_type_specification]
#[verifier::external_body]
pub struct ExBcryptError(BcryptError);

/// What `bcrypt::verify(password, hash)` returns for the given texts:
/// `Some(matches)` when the hash could be read, `None` when it gave an
/// error. It depends on the two texts alone.
pub uninterp spec fn bcrypt_verify_result(password: Seq<char>, hash: Seq<char>) -> Option<bool>;

/// `bcrypt::verify`: whether `password` hashes to `hash`. Its result is
/// named by `bcrypt_verify_result`; nothing more is claimed of it.
#[verifier::external_body]
pub(crate) fn bcrypt_verify(password: &str, hash: &str) -> (r: Result<bool, BcryptError>)
    ensures
        match r {
            Ok(b) => bcrypt_verify_result(password@, hash@) == Some(b),
            Err(_) => bcrypt_verify_result(password@, hash@) is None,
        },
{
    bcrypt::verify(password, hash)
}

/// `bcrypt::hash` with the default cost (12). The salt is random, so the
/// hash itself is not determined; what is claimed is what the crate's code
/// shows: a hash it returns has the form `$2b$12$` followed by the 22
/// characters of the salt and the 31 of the digest (60 characters in all),
/// and it verifies against the same password (`verify` reads back the cost
/// and salt the hash was made with and recomputes it). Which 53 characters
/// follow the prefix is left unsaid: they come from a random salt.
#[verifier::external_body]
pub(crate) fn bcrypt_hash(password: &str) -> (r: Result<String, BcryptError>)
    ensures
        r matches Ok(h) ==> bcrypt_verify_result(password@, h@) == Some(true),
        r matches Ok(h) ==> h@.len() == 60 && h@.subrange(0, 7) == "$2b$12$"@,
{
    bcrypt::hash(password, bcrypt::DEFAULT_COST)
}

} // verus!
