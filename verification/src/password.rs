//! Password hashing and checking, through the `bcrypt` crate.

use vstd::prelude::*;
use crate::text::digit_char;

verus! {

#[verifier::external_type_specification]
#[verifier::external_body]
pub struct ExBcryptError(bcrypt::BcryptError);

/// The cost with which passwords are hashed.
pub const PASSWORD_HASH_COST: u32 = 7;

/// How a hash that `bcrypt::hash` makes at `cost` begins: the version tag
/// `$2b$`, the cost in two decimal digits, and `$`.
pub open spec fn bcrypt_hash_prefix(cost: u32) -> Seq<char> {
    seq!['$', '2', 'b', '$', digit_char((cost / 10) as int), digit_char((cost % 10) as int), '$']
}

/// What `bcrypt::verify(password, hash)` returns: `None` for an error (a
/// `hash` that is not a well-formed bcrypt hash), `Some(b)` for `Ok(b)`.
pub uninterp spec fn bcrypt_verify_result(password: Seq<char>, hash: Seq<char>) -> Option<bool>;

/// Calls `bcrypt::verify`, which rehashes `password` with the cost and salt
/// read from `hash` and compares. The outcome is a function of the two
/// arguments alone, named [`bcrypt_verify_result`].
#[verifier::external_body]
pub(crate) fn bcrypt_verify(password: &str, hash: &str) -> (r: Result<bool, bcrypt::BcryptError>)
    ensures
        r is Ok <==> bcrypt_verify_result(password@, hash@) is Some,
        r matches Ok(b) ==> bcrypt_verify_result(password@, hash@) == Some(b),
{
    bcrypt::verify(password, hash)
}

/// Calls `bcrypt::hash`, which draws a random salt and hashes `password` with
/// it at `cost`. It fails for a cost outside 4 to 31, and when the operating
/// system gives no randomness. A hash it returns is 60 ASCII characters that
/// begin with `$2b$`, the cost in two digits and `$` (the format it writes), and
/// `bcrypt::verify` accepts the same password against it (both truncate the
/// password at 72 bytes in the same way). Which hash comes back depends on
/// the salt drawn, so nothing more is stated of it.
#[verifier::external_body]
pub(crate) fn bcrypt_hash(password: &str, cost: u32) -> (r: Result<String, bcrypt::BcryptError>)
    ensures
        cost < 4 || cost > 31 ==> r is Err,
        r matches Ok(h) ==> h@.len() == 60 && h@.take(7) == bcrypt_hash_prefix(cost)
            && bcrypt_verify_result(password@, h@) == Some(true),
{
    bcrypt::hash(password, cost)
}

} // verus!
