//! The wall clock.
//!
//! The one ambient input the engine reads. Everything proved about
//! time-dependent behaviour is stated over an explicit instant; the
//! functions here only obtain that instant from the real clock.

use vstd::prelude::*;
use time::OffsetDateTime;

verus! {

/// Relies on time::OffsetDateTime::now_utc and unix_timestamp: the current
/// wall-clock time as whole seconds since the Unix epoch. Nothing is
/// assumed of the value.
#[verifier::external_body]
pub(crate) fn now_unix() -> (t: i64) {
    OffsetDateTime::now_utc().unix_timestamp()
}

/// The current wall clock as an engine instant: whole seconds since the
/// Unix epoch, clamped at zero.
pub(crate) fn now_instant() -> (t: u64) {
    let t = now_unix();
    if t < 0 {
        0u64
    } else {
        t as u64
    }
}

} // verus!
