//! The wall clock.
use vstd::prelude::*;

verus! {

/// Seconds since the Unix epoch, as `chrono::Utc::now().timestamp()` reads
/// them. `Utc::now` counts from the epoch and does not return when the system
/// clock stands before it, so the number is not negative. Nothing else is
/// claimed of it: it is another one at every call.
#[verifier::external_body]
pub(crate) fn utc_seconds() -> (seconds: i64)
    ensures
        seconds >= 0,
{
    chrono::Utc::now().timestamp()
}

/// The current time as records hold it.
pub fn current_utc_timestamp() -> (res: usize)
    ensures
        exists|seconds: i64| seconds >= 0 && res == #[trigger] timestamp_of(seconds),
{
    let seconds = utc_seconds();
    assert(timestamp_of(seconds) == seconds as usize);
    seconds as usize
}

/// The field value for a time of `seconds`: the low bits of it that a `usize`
/// holds.
pub open spec fn timestamp_of(seconds: i64) -> usize {
    seconds as usize
}

/// A time that a `usize` can hold is kept to the second.
pub proof fn law_times_are_kept(seconds: i64)
    requires
        0 <= seconds <= usize::MAX,
    ensures
        timestamp_of(seconds) == seconds,
{
}

} // verus!
