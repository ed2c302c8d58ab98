//! The two nondeterministic inputs the orchestrator needs from its
//! environment: fresh identifiers and the current time. Both are trusted
//! wrappers around outside crates; everything derived from their results is
//! verified in functions that take those results as arguments.

use vstd::prelude::*;

verus! {

/// Relies on `uuid::Uuid::new_v4`: the returned 128-bit value has the
/// version-4 and RFC-variant bits ORed in, so it is never the nil (all-zero)
/// identifier. Nothing else can be promised of a random identifier.
#[verifier::external_body]
pub fn fresh_id() -> (r: u128)
    ensures
        r != 0,
{
    uuid::Uuid::new_v4().as_u128()
}

/// Relies on `chrono::Utc::now` and `DateTime::timestamp`: the current wall
/// clock as whole seconds since the Unix epoch. Nothing is promised of the
/// clock's value.
#[verifier::external_body]
pub fn now_seconds() -> i64 {
    chrono::Utc::now().timestamp()
}

} // verus!
