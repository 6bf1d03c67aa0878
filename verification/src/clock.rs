//! Reading the system clock.
//!
//! The two items of this file that touch `std::time` are taken on trust; no contract says what
//! the clock shows.

use std::time::{Duration, UNIX_EPOCH};
use vstd::prelude::*;

verus! {

/// `SystemTime::elapsed` of the Unix epoch: the time since then, zero when the clock shows an
/// earlier time. It depends on the clock alone, so nothing is said of it.
#[verifier::external_body]
fn since_epoch() -> (d: Duration) {
    UNIX_EPOCH.elapsed().unwrap_or_default()
}

/// `Duration::as_nanos`: the nanoseconds that a duration contains. Its whole seconds, which
/// `Duration::as_secs` returns, fit in 64 bits. How many nanoseconds they are is left unsaid.
#[verifier::external_body]
fn as_nanos(d: &Duration) -> (n: u128)
    ensures
        n / 1_000_000_000 <= u64::MAX,
{
    d.as_nanos()
}

/// Nanoseconds since the Unix epoch; the whole seconds in them fit in 64 bits.
pub(crate) fn unix_nanos() -> (n: u128)
    ensures
        n / 1_000_000_000 <= u64::MAX,
{
    as_nanos(&since_epoch())
}

/// The whole seconds in a number of nanoseconds, in the lower 64 bits.
pub fn whole_secs(nanos: u128) -> (secs: u64)
    ensures
        secs == (nanos / 1_000_000_000) % 0x1_0000_0000_0000_0000,
{
    ((nanos / 1_000_000_000) % 0x1_0000_0000_0000_0000) as u64
}

/// Seconds since the Unix epoch, none of them cut off. The clock can show any number of them.
pub(crate) fn unix_secs() -> (n: u64) {
    let nanos = unix_nanos();
    let secs = whole_secs(nanos);
    assert(secs == nanos / 1_000_000_000);
    secs
}

} // verus!
