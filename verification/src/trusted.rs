//! The trusted boundary of the crate: declarations of outside types and thin
//! wrappers around outside calls. Verus believes the contracts written here;
//! everything else in the crate is proved against them.

use vstd::prelude::*;

verus! {

// ============================================================================
// serde_json::Value — the opaque payload of a property entry
// ============================================================================

/// Declares `serde_json::Value` so that it can stand in fields and
/// signatures. The value is opaque to the verifier; the crate only carries it
/// through.
#[verifier::external_type_specification]
#[verifier::external_body]
pub struct ExValue(serde_json::Value);

/// Relies on the `Clone` implementation that serde_json derives for `Value`:
/// a deep copy, structurally equal to its source.
pub assume_specification[ <serde_json::Value as Clone>::clone ](v: &serde_json::Value) -> (r:
    serde_json::Value)
    ensures
        r == *v,
;

// ============================================================================
// Clock
// ============================================================================

/// Relies on `chrono::Utc::now` for the current wall-clock time, read out in
/// milliseconds since the Unix epoch. Nothing is promised of the value: every
/// caller states what holds whatever the clock returned. Callers defend
/// against a negative reading; note, though, that `Utc::now` itself aborts
/// the process on a system clock that reads before the epoch — an
/// environmental failure no input can exclude.
#[verifier::external_body]
pub(crate) fn now_millis() -> i64 {
    chrono::Utc::now().timestamp_millis()
}

// ============================================================================
// Identifier minting and rendering
// ============================================================================

/// Relies on `uuid::Uuid::now_v7` to mint a fresh time-ordered identifier,
/// carried as its 128-bit big-endian value. The result depends on the clock
/// and on process-local state, so nothing is promised of it; no proof rests
/// on uniqueness or ordering. Note that `now_v7` itself aborts the process
/// if the operating system's random source fails or the clock reads before
/// the epoch — environmental failures no input can exclude.
#[verifier::external_body]
pub(crate) fn fresh_uuid() -> u128 {
    uuid::Uuid::now_v7().as_u128()
}

/// The hyphenated lower-case text of a 128-bit identifier, as the uuid crate
/// renders it. The rendering is a function of the identifier alone.
pub uninterp spec fn uuid_text_of(id: u128) -> Seq<char>;

/// Relies on the `Display` implementation of `uuid::Uuid`: the hyphenated
/// lower-case form, 36 characters long, a deterministic function of the
/// identifier.
#[verifier::external_body]
pub(crate) fn uuid_text(id: u128) -> (r: String)
    ensures
        r@ == uuid_text_of(id),
        r@.len() == 36,
{
    uuid::Uuid::from_u128(id).hyphenated().to_string()
}

} // verus!
