use vstd::prelude::*;
use crate::text::starts_with;

verus! {

/// The bcrypt work factor used for stored passwords (bcrypt's default).
pub const HASH_COST: u32 = 12;

/// Why bcrypt failed to hash or check a password.
#[verifier::external_type_specification]
#[verifier::external_body]
pub struct ExBcryptError(bcrypt::BcryptError);

/// What `bcrypt::verify` answers for `password` against the stored `hash`:
/// `Some(b)` where it returns `Ok(b)`, `None` where it returns an error.
/// It depends on its two arguments alone (the salt and cost are read from
/// the hash).
pub uninterp spec fn bcrypt_verdict(password: Seq<char>, hash: Seq<char>) -> Option<bool>;

/// The decimal digit `d` (below 10) as a character.
pub open spec fn digit_char(d: u32) -> char {
    (('0' as u32) + d) as char
}

/// How a bcrypt hash string for work factor `cost` begins: `$2b$`, the cost
/// in two decimal digits, `$`.
pub open spec fn bcrypt_prefix(cost: u32) -> Seq<char> {
    seq!['$', '2', 'b', '$', digit_char(cost / 10), digit_char(cost % 10), '$']
}

/// `h` has the shape of the hash strings `bcrypt::hash` writes for work factor
/// `cost`: the prefix, then 22 characters of salt and 31 of hash.
pub open spec fn bcrypt_shaped(h: Seq<char>, cost: u32) -> bool {
    starts_with(h, bcrypt_prefix(cost)) && h.len() == 60
}

/// Calls `bcrypt::verify(password, hash)`. The contract names its answer
/// `bcrypt_verdict(password, hash)`; what it computes is not stated.
#[verifier::external_body]
pub(crate) fn bcrypt_verify(password: &str, hash: &str) -> (r: Result<bool, bcrypt::BcryptError>)
    ensures
        match r {
            Ok(b) => bcrypt_verdict(password@, hash@) == Some(b),
            Err(_) => bcrypt_verdict(password@, hash@) is None,
        },
{
    bcrypt::verify(password, hash)
}

/// Calls `bcrypt::hash(password, cost)`, which draws a random salt from the
/// operating system. The contract states that a cost outside 4..=31 is refused
/// and that a hash it returns is accepted by `bcrypt::verify` for the same
/// password (verify recomputes the hash with the salt and cost read from it),
/// and that it is written as `$2b$`, the cost in two digits, `$`, then the
/// salt and hash in bcrypt's base64 (22 and 31 characters), as
/// `HashParts::format_for_version(Version::TwoB)` writes it. Whether the salt
/// could be drawn is not stated: that rests on the machine.
#[verifier::external_body]
pub(crate) fn bcrypt_hash(password: &str, cost: u32) -> (r: Result<String, bcrypt::BcryptError>)
    ensures
        r matches Ok(h) ==> bcrypt_verdict(password@, h@) == Some(true),
        r matches Ok(h) ==> bcrypt_shaped(h@, cost),
        (cost < 4 || cost > 31) ==> r is Err,
{
    bcrypt::hash(password, cost)
}

/// Hashes a password for storage, with a fresh random salt and cost
/// `HASH_COST`. A hash it returns is one against which the same password
/// checks, written for work factor `HASH_COST`.
pub fn hash_password(password: &str) -> (r: Result<String, bcrypt::BcryptError>)
    ensures
        r matches Ok(h) ==> bcrypt_verdict(password@, h@) == Some(true),
        r matches Ok(h) ==> bcrypt_shaped(h@, HASH_COST),
{
    bcrypt_hash(password, HASH_COST)
}

/// Whether `password` matches the stored bcrypt `hash`; a hash bcrypt cannot
/// read counts as no match.
pub fn password_matches(password: &str, hash: &str) -> (r: bool)
    ensures
        r == (bcrypt_verdict(password@, hash@) == Some(true)),
{
    match bcrypt_verify(password, hash) {
        Ok(b) => b,
        Err(_) => false,
    }
}

} // verus!
