//! Clock, identifier and randomness providers.
//!
//! The scoring engine itself is deterministic; everything that depends on
//! the outside world — the current time, fresh identifiers, random draws
//! for the simulated measurement source — comes through the small trusted
//! functions of this module.

use vstd::prelude::*;

verus! {

/// Milliseconds since the Unix epoch at the moment of the call.
///
/// Relies on `chrono::Utc::now` and `chrono::DateTime::timestamp_millis`;
/// the value depends on the wall clock, so nothing is promised of it.
#[verifier::external_body]
pub(crate) fn now_timestamp_millis() -> i64 {
    chrono::Utc::now().timestamp_millis()
}

/// A fresh random identifier in the canonical hyphenated text form:
/// 36 ASCII characters (32 hexadecimal digits and 4 hyphens).
///
/// Relies on `uuid::Uuid::new_v4` and its `Display` implementation, which
/// the crate documents as the hyphenated format.
#[verifier::external_body]
pub(crate) fn new_uuid_string() -> (r: String)
    ensures
        r@.len() == 36,
        r.is_ascii(),
{
    uuid::Uuid::new_v4().to_string()
}

/// A uniformly random value below `n`.
///
/// Relies on `rand::random_range`, which returns a value inside the given
/// range and panics only when the range is empty; `n > 0` rules that out.
#[verifier::external_body]
pub(crate) fn random_below(n: u32) -> (r: u32)
    requires
        n > 0,
    ensures
        r < n,
{
    rand::random_range(0..n)
}

} // verus!
