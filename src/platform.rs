//! Calls into std and serde_json whose results Verus cannot compute: the wall
//! clock, std's default hasher, decimal formatting and JSON string literals.

use vstd::prelude::*;
use std::hash::BuildHasher;

verus! {

/// What a fresh `std::hash::DefaultHasher` yields after hashing the string `s`.
pub uninterp spec fn default_hash_str(s: Seq<char>) -> u64;

/// The JSON string literal (quoted and escaped) that serde_json writes for `s`.
pub uninterp spec fn json_string(s: Seq<char>) -> Seq<char>;

/// The decimal digit `d` (`d < 10`).
pub open spec fn digit(d: nat) -> char {
    if d == 0 { '0' }
    else if d == 1 { '1' }
    else if d == 2 { '2' }
    else if d == 3 { '3' }
    else if d == 4 { '4' }
    else if d == 5 { '5' }
    else if d == 6 { '6' }
    else if d == 7 { '7' }
    else if d == 8 { '8' }
    else { '9' }
}

/// The decimal representation of `n`, without sign or leading zeros.
pub open spec fn decimal(n: nat) -> Seq<char>
    decreases n,
{
    if n < 10 {
        seq![digit(n)]
    } else {
        decimal(n / 10).push(digit(n % 10))
    }
}

/// Relies on `SystemTime::now` and `duration_since(UNIX_EPOCH)`: nanoseconds
/// since the epoch, zero for a clock set before it. Nothing is promised of
/// the value.
#[verifier::external_body]
pub fn unix_time_nanos() -> u128 {
    std::time::SystemTime::now().duration_since(std::time::UNIX_EPOCH).unwrap_or_default().as_nanos()
}

/// Relies on `BuildHasher::hash_one` with `DefaultHasher` to scatter `n` over
/// the `u64` range. The bytes hashed are `n`'s native ones, so nothing is
/// promised of the value.
#[verifier::external_body]
pub fn hash_u128(n: u128) -> u64 {
    std::hash::BuildHasherDefault::<std::hash::DefaultHasher>::default().hash_one(n)
}

/// Relies on `BuildHasher::hash_one` with `DefaultHasher`: every such hasher
/// starts alike and hashes the string's bytes, so the value depends on the
/// characters of `s` alone.
#[verifier::external_body]
pub fn hash_str(s: &str) -> (r: u64)
    ensures
        r == default_hash_str(s@),
{
    std::hash::BuildHasherDefault::<std::hash::DefaultHasher>::default().hash_one(s)
}

/// Relies on `u64`'s `Display` (through `to_string`): plain decimal digits.
#[verifier::external_body]
pub fn decimal_string(n: u64) -> (r: String)
    ensures
        r@ == decimal(n as nat),
{
    n.to_string()
}

/// Relies on `serde_json::to_string` for a `str`: the quoted, escaped JSON
/// literal, which depends on the characters alone. Serializing a `str` cannot
/// fail.
#[verifier::external_body]
pub fn json_quote(s: &str) -> (r: String)
    ensures
        r@ == json_string(s@),
{
    serde_json::to_string(s).unwrap_or_default()
}

} // verus!
