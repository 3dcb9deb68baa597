//! Password hashes, by bcrypt.

use crate::outside::{returned_for, told};
use vstd::prelude::*;

verus! {

/// What `bcrypt::verify` says of a password and a hash: whether they belong
/// together, or the debug text of its error if the hash is malformed.
pub uninterp spec fn bcrypt_verify(password: Seq<char>, hash: Seq<char>) -> Result<bool, Seq<char>>;

/// Whether a password belongs to a hash.
pub open spec fn accepts(password: Seq<char>, hash: Seq<char>) -> bool {
    bcrypt_verify(password, hash) == Ok::<bool, Seq<char>>(true)
}

/// Calls `bcrypt::verify`. Its result depends on the password and the hash alone.
#[verifier::external_body]
pub(crate) fn verify_password(password: &str, hash: &str) -> (r: Result<bool, String>)
    ensures
        told(r) == bcrypt_verify(password@, hash@),
{
    bcrypt::verify(password, hash).map_err(|e| format!("{:?}", e))
}

/// Calls `bcrypt::hash` at the crate's default cost. The hash is salted at
/// random; `bcrypt::verify` accepts the password for it. An error means that the
/// system gave no random bytes.
#[verifier::external_body]
pub(crate) fn hash_password(password: &str) -> (r: Result<String, String>)
    ensures
        r matches Ok(hash) ==> accepts(password@, hash@),
{
    bcrypt::hash(password, bcrypt::DEFAULT_COST).map_err(|e| format!("{:?}", e))
}

/// Whether an outcome is that of hashing a password: one that a call of
/// [`hash_password`] may have returned.
pub closed spec fn hashed(password: Seq<char>, r: Result<String, String>) -> bool {
    exists|p: &str| p@ == password && #[trigger] call_ensures(hash_password, (p,), r)
}

/// A hash is what [`hash_password`] returns for the password, and nothing else.
pub(crate) proof fn hashed_is_returned(password: Seq<char>, r: Result<String, String>)
    ensures
        hashed(password, r) <==> exists|p: &str|
            p@ == password && #[trigger] call_ensures(hash_password, (p,), r),
{
}

/// Hashes a password.
pub(crate) fn make_hash(password: &str) -> (r: Result<String, String>)
    ensures
        hashed(password@, r),
        r matches Ok(hash) ==> accepts(password@, hash@),
{
    returned_for(hash_password, password)
}

} // verus!
