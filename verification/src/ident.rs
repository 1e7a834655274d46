//! Opaque identifiers handed out by the system: random bearer tokens,
//! record ids, and issue timestamps.

use vstd::prelude::*;
use rand::Rng;

verus! {

/// Characters a bearer token or API key is drawn from.
pub open spec fn is_alnum_char(c: char) -> bool {
    (('a' as u32) <= (c as u32) && (c as u32) <= ('z' as u32)) || (('A' as u32) <= (c as u32)
        && (c as u32) <= ('Z' as u32)) || (('0' as u32) <= (c as u32) && (c as u32) <= ('9'
        as u32))
}

/// Every character of the sequence is alphanumeric ASCII.
pub open spec fn all_alnum(s: Seq<char>) -> bool {
    forall|i: int| 0 <= i < s.len() ==> is_alnum_char(#[trigger] s[i])
}

/// Length of every issued bearer token and API key.
pub const KEY_LEN: usize = 32;

/// Relies on rand's Alphanumeric distribution: every sampled byte is one of
/// a-z, A-Z, 0-9, and `take(len)` bounds the draw.  The value itself is
/// random; nothing beyond shape is promised.
#[verifier::external_body]
fn random_alphanumeric(len: usize) -> (r: String)
    ensures
        r@.len() == len,
        all_alnum(r@),
{
    rand::thread_rng()
        .sample_iter(&rand::distributions::Alphanumeric)
        .take(len)
        .map(char::from)
        .collect()
}

/// An opaque, unguessable key: 32 alphanumeric characters.
pub fn generate_key() -> (r: String)
    ensures
        r@.len() == KEY_LEN,
        all_alnum(r@),
{
    random_alphanumeric(KEY_LEN)
}

/// Relies on uuid::Uuid::new_v4 and its Display impl: a fresh random UUID
/// written in the hyphenated form, which is exactly 36 characters.
#[verifier::external_body]
pub fn new_uuid_string() -> (r: String)
    ensures
        r@.len() == 36,
{
    uuid::Uuid::new_v4().to_string()
}

/// Relies on chrono::Utc::now: the current wall-clock time as milliseconds
/// since the Unix epoch.  Nothing is promised of the value.
#[verifier::external_body]
pub fn now_millis() -> i64 {
    chrono::Utc::now().timestamp_millis()
}

} // verus!
