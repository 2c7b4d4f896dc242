use vstd::prelude::*;

verus! {

/// The bcrypt cost the service hashes passwords with.
pub const BCRYPT_COST: u32 = 12;

/// The text bcrypt produces for `password` with `cost` and a 16-byte `salt`
/// (`HashParts::to_string`, the `$2y$` form).
pub uninterp spec fn bcrypt_hash(password: Seq<char>, cost: u32, salt: Seq<u8>) -> Seq<char>;

/// The hash of `password` with `cost` and `salt`.
///
/// Trusted: wraps `bcrypt::hash_with_salt(password, cost, salt)` followed by
/// `to_string()`, whose result is named `bcrypt_hash`. In bcrypt's source
/// the only error is a cost outside 4..=31, which `requires` rules out, so
/// the `unwrap` never fires.
#[verifier::external_body]
pub(crate) fn hash_password_with_salt(password: &str, cost: u32, salt: [u8; 16]) -> (res: String)
    requires
        4 <= cost <= 31,
    ensures
        res@ == bcrypt_hash(password@, cost, salt@),
{
    bcrypt::hash_with_salt(password, cost, salt).unwrap().to_string()
}

/// `hash` is what `hash_with_salt` makes of `password` with some admissible
/// cost and some 16-byte salt.
pub open spec fn is_bcrypt_hash_of(hash: Seq<char>, password: Seq<char>) -> bool {
    exists|cost: u32, salt: Seq<u8>|
        4 <= cost <= 31 && salt.len() == 16 && hash == #[trigger] bcrypt_hash(password, cost, salt)
}

/// `hash` is what `hash_with_salt` makes of some password with an
/// admissible cost and a 16-byte salt.
pub open spec fn is_bcrypt_hash(hash: Seq<char>) -> bool {
    exists|password: Seq<char>, cost: u32, salt: Seq<u8>|
        4 <= cost <= 31 && salt.len() == 16 && hash == #[trigger] bcrypt_hash(password, cost, salt)
}

#[verifier::external_type_specification]
#[verifier::external_body]
pub struct ExBcryptError(bcrypt::BcryptError);

/// What `bcrypt::verify(password, hash)` returns: `Some(b)` for `Ok(b)`,
/// `None` for an error (a hash it cannot parse).
pub uninterp spec fn bcrypt_verify(password: Seq<char>, hash: Seq<char>) -> Option<bool>;

/// Whether `password` matches the bcrypt `hash`.
///
/// Trusted: wraps `bcrypt::verify(password, hash)`, whose result is named
/// `bcrypt_verify`. Stated besides, from bcrypt's source (`verify` parses the
/// hash, re-hashes the password with the cost and salt it finds and compares)
/// and its documentation ("Verify that a password is equivalent to the hash
/// provided"): a hash that `hash_with_salt` made of this very password, with
/// a cost in 4..=31 and a 16-byte salt, is accepted; and a hash that
/// `hash_with_salt` made of any password is read without error (it parses,
/// its salt decodes to 16 bytes and its cost is admissible), whatever
/// password it is checked against.
#[verifier::external_body]
pub(crate) fn verify_password(password: &str, hash: &str) -> (res: Result<bool, bcrypt::BcryptError>)
    ensures
        res is Ok <==> bcrypt_verify(password@, hash@) is Some,
        res matches Ok(b) ==> bcrypt_verify(password@, hash@) == Some(b),
        is_bcrypt_hash_of(hash@, password@) ==> res matches Ok(true),
        is_bcrypt_hash(hash@) ==> res is Ok,
{
    bcrypt::verify(password, hash)
}

} // verus!
