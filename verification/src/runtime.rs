//! Fresh identifiers and the wall clock, behind trusted wrappers.
//!
//! Both results depend on the machine, so nothing beyond their shape is
//! assumed: verified callers state what holds of every outcome.

use vstd::prelude::*;

verus! {

/// Relies on uuid::Uuid::new_v4: a fresh random version-4 UUID, rendered in
/// the hyphenated textual form, which is always 36 characters long. The
/// value is random; no two calls are related.
#[verifier::external_body]
pub(crate) fn fresh_uuid_text() -> (r: String)
    ensures
        r@.len() == 36,
{
    uuid::Uuid::new_v4().to_string()
}

/// Relies on time::OffsetDateTime::now_utc: the current UTC wall-clock
/// instant, as whole nanoseconds since the Unix epoch. The clock may move
/// arbitrarily between calls, so nothing is assumed of the value.
#[verifier::external_body]
fn now_unix_nanos() -> i128 {
    time::OffsetDateTime::now_utc().unix_timestamp_nanos()
}

/// The current UTC wall-clock time in whole milliseconds since the Unix
/// epoch, clamped into `u64`. Instants before the epoch read as zero.
pub fn now_unix_millis() -> u64 {
    let nanos = now_unix_nanos();
    if nanos <= 0 {
        0
    } else {
        let millis = nanos / 1_000_000;
        if millis >= 0x1_0000_0000_0000_0000_i128 {
            u64::MAX
        } else {
            millis as u64
        }
    }
}

} // verus!
