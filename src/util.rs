//! Unguessable tokens and the clock.
use vstd::prelude::*;

verus! {

/// Number of chars in a list key or a session token: 62^32 > 2^190 values.
pub const TOKEN_LENGTH: usize = 32;

/// A char of the token alphabet: an ASCII letter or digit.
pub open spec fn is_token_char(c: char) -> bool {
    ('a' <= c && c <= 'z') || ('A' <= c && c <= 'Z') || ('0' <= c && c <= '9')
}

/// A well-formed token: `TOKEN_LENGTH` chars of the token alphabet.
pub open spec fn is_token(s: Seq<char>) -> bool {
    &&& s.len() == TOKEN_LENGTH
    &&& forall|i: int| 0 <= i < s.len() ==> is_token_char(#[trigger] s[i])
}

/// Relies on rand's `Alphanumeric` distribution, sampled through `DistString`
/// from `thread_rng` (a cryptographically secure generator seeded by the OS):
/// `len` chars, each an ASCII letter or digit.
#[verifier::external_body]
fn random_alphanumeric(len: usize) -> (r: String)
    ensures
        r@.len() == len,
        forall|i: int| 0 <= i < len ==> is_token_char(#[trigger] r@[i]),
{
    rand::distributions::DistString::sample_string(
        &rand::distributions::Alphanumeric,
        &mut rand::thread_rng(),
        len,
    )
}

/// A fresh session token.
pub fn random_token() -> (r: String)
    ensures
        is_token(r@),
{
    random_alphanumeric(TOKEN_LENGTH)
}

/// A fresh list key, drawn like a session token.
pub fn random_key() -> (r: String)
    ensures
        is_token(r@),
{
    random_token()
}

/// Relies on chrono::Utc::now: the current time, as whole seconds since the
/// Unix epoch (`DateTime::timestamp`).
#[verifier::external_body]
pub(crate) fn now() -> (r: i64) {
    chrono::Utc::now().timestamp()
}

} // verus!
