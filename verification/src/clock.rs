//! The system clock.
//!
//! Token lifetimes are decided against unix time. The reading itself can
//! promise nothing — it is different on every call — so every rule that
//! depends on time takes the reading as an argument and is verified for all
//! of its values.

use vstd::prelude::*;

verus! {

/// Relies on `chrono::Utc::now`: seconds since the unix epoch, by the system
/// clock. Nothing can be promised of the value.
#[verifier::external_body]
pub fn current_unix_time() -> i64 {
    chrono::Utc::now().timestamp()
}

/// A clock reading as a token timestamp: negative readings (a clock set
/// before the epoch) saturate to zero. An `i64` reading always leaves the
/// result far below the range where token arithmetic could overflow.
pub fn clamp_time(t: i64) -> (res: u64)
    ensures
        res == if t < 0 {
            0u64
        } else {
            t as u64
        },
        res <= i64::MAX as u64,
{
    if t < 0 {
        0
    } else {
        t as u64
    }
}

} // verus!
