//! Pauses that the boot sequence asks for, as `embassy_time` durations.

use vstd::prelude::*;

verus! {

/// `embassy_time::Duration`: a span of time in ticks of the time driver. The
/// library hands such values on and never looks inside them.
#[verifier::external_type_specification]
#[verifier::external_body]
pub struct ExDuration(embassy_time::Duration);

/// The duration that `embassy_time::Duration::from_millis` makes of a number of
/// milliseconds.
pub uninterp spec fn duration_of_millis(ms: u64) -> embassy_time::Duration;

/// Calls `embassy_time::Duration::from_millis`. The result depends on the
/// argument alone (and on the tick rate the crate was built with), so it is
/// named rather than spelled out. The bound keeps the multiplication by the
/// tick rate inside `u64`.
#[verifier::external_body]
pub(crate) fn duration_from_millis(ms: u64) -> (d: embassy_time::Duration)
    requires
        ms <= 1000,
    ensures
        d == duration_of_millis(ms),
{
    embassy_time::Duration::from_millis(ms)
}

} // verus!
