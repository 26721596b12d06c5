//! Durations, measured by their length in nanoseconds.
use core::time::Duration;
use vstd::prelude::*;

verus! {

/// What `Duration::as_nanos` returns for `d`.
pub uninterp spec fn duration_nanos(d: Duration) -> u128;

/// `Duration::from_secs`: a duration of `secs` whole seconds.
#[verifier::external_body]
pub(crate) fn duration_from_secs(secs: u64) -> (d: Duration)
    ensures
        duration_nanos(d) == secs as int * 1_000_000_000,
{
    Duration::from_secs(secs)
}

/// `Duration::from_millis`: a duration of `millis` milliseconds.
#[verifier::external_body]
pub(crate) fn duration_from_millis(millis: u64) -> (d: Duration)
    ensures
        duration_nanos(d) == millis as int * 1_000_000,
{
    Duration::from_millis(millis)
}

/// `Duration::as_nanos`: the whole length of `d` in nanoseconds.
#[verifier::external_body]
pub(crate) fn duration_as_nanos(d: Duration) -> (n: u128)
    ensures
        n == duration_nanos(d),
{
    d.as_nanos()
}

} // verus!
