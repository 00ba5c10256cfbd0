//! What chance decides: how long an installation waits before it downloads,
//! and the identifiers of a new agent.

use rand::Rng;
use vstd::prelude::*;
use vstd::string::*;

verus! {

/// The shortest and the longest wait before a download, in seconds.
pub const MIN_DELAY: u64 = 1;

pub const MAX_DELAY: u64 = 10;

/// True for the digits and for the letters `a` to `f`.
pub open spec fn is_lower_hex(c: char) -> bool {
    ('0' <= c && c <= '9') || ('a' <= c && c <= 'f')
}

/// True for a version 4 UUID in its usual writing: 32 hexadecimal digits in
/// lower case, in groups of 8, 4, 4, 4 and 12 with a hyphen between them;
/// the third group begins with `4`, the fourth with `8`, `9`, `a` or `b`.
pub open spec fn is_uuid_text(s: Seq<char>) -> bool {
    &&& s.len() == 36
    &&& forall|i: int|
        0 <= i < 36 ==> if i == 8 || i == 13 || i == 18 || i == 23 {
            s[i] == '-'
        } else {
            is_lower_hex(#[trigger] s[i])
        }
    &&& s[14] == '4'
    &&& (s[19] == '8' || s[19] == '9' || s[19] == 'a' || s[19] == 'b')
}

/// `Rng::gen_range` on the generator of the thread, for the range from
/// `low` to `high` with both ends: some number of that range.
#[verifier::external_body]
pub(crate) fn random_between(low: u64, high: u64) -> (r: u64)
    requires
        low <= high,
    ensures
        low <= r <= high,
{
    rand::thread_rng().gen_range(low..=high)
}

/// `Uuid::new_v4`, written as text: some version 4 UUID in its usual writing.
#[verifier::external_body]
pub(crate) fn random_uuid() -> (r: String)
    ensures
        is_uuid_text(r@),
{
    uuid::Uuid::new_v4().to_string()
}

/// How many seconds an installation waits before it downloads, so that
/// agents that are told to install at the same moment do not all download
/// at once.
pub fn download_delay() -> (r: u64)
    ensures
        MIN_DELAY <= r <= MAX_DELAY,
{
    random_between(MIN_DELAY, MAX_DELAY)
}

} // verus!
