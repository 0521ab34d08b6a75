//! The `std::time::Duration` operations the library relies on.

use std::time::Duration;
use vstd::prelude::*;

verus! {

/// What `Duration::as_millis` returns for `d`: the whole number of
/// milliseconds that `d` spans.
pub uninterp spec fn duration_millis(d: Duration) -> u128;

/// What `Duration::from_secs` returns for `secs`.
pub uninterp spec fn duration_of_secs(secs: u64) -> Duration;

/// `Duration::from_secs`: its result is named `duration_of_secs(secs)`.
/// Its documentation says the result spans `secs` whole seconds, so
/// `as_millis` gives back `secs * 1000`; nothing else is claimed of it.
#[verifier::external_body]
pub(crate) fn duration_from_secs(secs: u64) -> (d: Duration)
    ensures
        d == duration_of_secs(secs),
        duration_millis(d) == secs as int * 1000,
{
    Duration::from_secs(secs)
}

/// `Duration::as_millis`; the contract only names its result.
#[verifier::external_body]
pub(crate) fn duration_as_millis(d: &Duration) -> (ms: u128)
    ensures
        ms == duration_millis(*d),
{
    d.as_millis()
}

} // verus!
