//! How entering and exiting a span is timed.

use crate::layer::ApmLayer;
use crate::span::SpanContext;
use crate::visitor::ToVisited;
use vstd::prelude::*;

verus! {

/// Entering a span adds the time since the last step, as far as the clock went forward, to the idle
/// time, and none to the busy time. The first entry is kept, and later ones do not count.
pub proof fn law_entering_ends_idle_time<T, U: ToVisited>(
    layer: ApmLayer<T, U>,
    timing: &mut SpanContext,
    instant: u128,
    read: u128,
    timestamp: u64,
)
    requires
        ({
            ||| call_ensures(
                ApmLayer::<T, U>::on_enter,
                (&layer, timing, instant, read, timestamp),
                (),
            )
            ||| call_ensures(SpanContext::enter, (timing, instant, read, timestamp), ())
        }),
    ensures
        final(timing).busy == old(timing).busy,
        final(timing).instant == instant,
        read <= old(timing).instant ==> final(timing).idle == old(timing).idle,
        old(timing).instant <= read && old(timing).idle + (read - old(timing).instant) <= u128::MAX
            ==> final(timing).idle - old(timing).idle == read - old(timing).instant,
        old(timing).first_entered_timestamp is None ==> final(timing).first_entered_timestamp
            == Some(timestamp),
        old(timing).first_entered_timestamp is Some ==> final(timing).first_entered_timestamp
            == old(timing).first_entered_timestamp,
{
}

/// Exiting a span adds the time since the last step, as far as the clock went forward, to the busy
/// time, and none to the idle time, and does not count as an entry.
pub proof fn law_exiting_ends_busy_time<T, U: ToVisited>(
    layer: ApmLayer<T, U>,
    timing: &mut SpanContext,
    instant: u128,
    read: u128,
)
    requires
        ({
            ||| call_ensures(ApmLayer::<T, U>::on_exit, (&layer, timing, instant, read), ())
            ||| call_ensures(SpanContext::exit, (timing, instant, read), ())
        }),
    ensures
        final(timing).idle == old(timing).idle,
        final(timing).instant == instant,
        read <= old(timing).instant ==> final(timing).busy == old(timing).busy,
        old(timing).instant <= read && old(timing).busy + (read - old(timing).instant) <= u128::MAX
            ==> final(timing).busy - old(timing).busy == read - old(timing).instant,
        final(timing).first_entered_timestamp == old(timing).first_entered_timestamp,
{
}

/// Timing starts from nothing.
pub proof fn law_timing_starts_from_nothing(instant: u128, timing: SpanContext)
    requires
        call_ensures(SpanContext::new, (instant,), timing),
    ensures
        timing.idle == 0,
        timing.busy == 0,
        timing.instant == instant,
        timing.first_entered_timestamp is None,
{
}

} // verus!
