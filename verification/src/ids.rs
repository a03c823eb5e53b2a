//! Clock readings and artifact identifiers.

use crate::text::{concat, decimal, decimal_string};
use vstd::prelude::*;

verus! {

/// Reads the system clock through `std::time::SystemTime::now`, as
/// nanoseconds since the Unix epoch; 0 when the clock reads before the epoch
/// or past what 64 bits of nanoseconds hold.  Nothing is stated of the value:
/// it is the time.
#[verifier::external_body]
fn unix_time_nanos() -> u64 {
    match std::time::SystemTime::now().duration_since(std::time::UNIX_EPOCH) {
        Ok(elapsed) => u64::try_from(elapsed.as_nanos()).unwrap_or(0),
        Err(_) => 0,
    }
}

/// Milliseconds since the Unix epoch.
pub fn now_unix_ms() -> (ms: u64)
    ensures
        ms <= u64::MAX / 1_000_000,
{
    unix_time_nanos() / 1_000_000
}

/// A fresh identifier: the prefix, a dash, and the clock reading in
/// nanoseconds.
pub fn new_id(prefix: &str) -> (id: String)
    ensures
        exists|n: nat| id@ == prefix@ + seq!['-'] + decimal(n),
{
    let stamp = unix_time_nanos();
    let digits = decimal_string(stamp);
    proof { reveal_strlit("-"); }
    let head = concat(prefix, "-");
    let id = concat(head.as_str(), digits.as_str());
    assert(id@ == prefix@ + seq!['-'] + decimal(stamp as nat));
    id
}

} // verus!
