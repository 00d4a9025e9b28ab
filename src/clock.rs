use vstd::prelude::*;

verus! {

/// Relies on `time::OffsetDateTime::now_utc` (read as `unix_timestamp`): the
/// current wall-clock time in whole seconds since the Unix epoch. Nothing is
/// promised of the value.
#[verifier::external_body]
pub(crate) fn now_unix_seconds() -> (r: i64) {
    time::OffsetDateTime::now_utc().unix_timestamp()
}

} // verus!
