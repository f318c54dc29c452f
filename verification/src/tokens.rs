//! Where tokens and times come from: the random generator and the clock.

use rand::distributions::DistString;
use vstd::prelude::*;

verus! {

/// The number of characters of a token.
pub const TOKEN_LENGTH: usize = 20;

/// A bound on the distance from the Unix epoch, in seconds, of every time
/// that the clock reports.
pub const CLOCK_RANGE: i64 = 0x2_0000_0000_0000;

/// Whether a character is an ASCII letter or digit.
pub open spec fn is_alphanumeric(c: char) -> bool {
    ('a' <= c && c <= 'z') || ('A' <= c && c <= 'Z') || ('0' <= c && c <= '9')
}

/// Whether a text has the form of a token: twenty ASCII letters and digits.
pub open spec fn is_token(text: Seq<char>) -> bool {
    &&& text.len() == TOKEN_LENGTH
    &&& forall|i: int| 0 <= i < text.len() ==> is_alphanumeric(#[trigger] text[i])
}

/// `rand::distributions::Alphanumeric::sample_string` on the generator that
/// `rand::thread_rng` gives: a text of `len` characters, each drawn from the
/// ASCII letters and digits. Which text it is depends on chance.
#[verifier::external_body]
fn random_alphanumeric(len: usize) -> (text: String)
    ensures
        text@.len() == len,
        forall|i: int| 0 <= i < text@.len() ==> is_alphanumeric(#[trigger] text@[i]),
{
    rand::distributions::Alphanumeric.sample_string(&mut rand::thread_rng(), len)
}

/// `time::OffsetDateTime::now_utc` followed by `unix_timestamp`: the time of
/// the call in seconds since the Unix epoch. The result is a day number of
/// 32 bits times 86400, plus a time of day and an offset that are smaller
/// still, so it lies well inside the stated range.
#[verifier::external_body]
fn clock_seconds() -> (now: i64)
    ensures
        -CLOCK_RANGE <= now <= CLOCK_RANGE,
{
    time::OffsetDateTime::now_utc().unix_timestamp()
}

/// A fresh random token. Nothing checks that it differs from the tokens
/// already in use.
pub fn generate_token() -> (token: String)
    ensures
        is_token(token@),
{
    random_alphanumeric(TOKEN_LENGTH)
}

/// The time now, in seconds since the Unix epoch.
pub fn unix_now() -> (now: i64)
    ensures
        -CLOCK_RANGE <= now <= CLOCK_RANGE,
{
    clock_seconds()
}

} // verus!
