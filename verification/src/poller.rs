//! The poller: a background thread reads one OS metric on a fixed interval
//! and publishes one sample per read over the channel. The thread itself —
//! the sleep and the send — lives with the caller; this module holds what the
//! poller decides each interval (the event it emits from the reading) and the
//! emission schedule of a whole run, with its rate-fidelity law.

use vstd::prelude::*;

use crate::events::{EventView, UserEvent};
use crate::text::{format_bin_tooltip, spec_bin_tooltip};

verus! {

/// One sample: a single scalar OS-metric reading (used memory in kilobytes,
/// or recycle-bin size in bytes), produced by the poller, consumed exactly
/// once by the event loop, then discarded.
#[derive(Clone, Copy, Debug, PartialEq, Eq, Structural)]
pub struct Sample {
    pub value: u64,
}

/// The event one poller pass emits from a recycle-bin size reading: the
/// tooltip update carrying the rendered size.
pub open spec fn spec_poll_event(size_bytes: u64) -> EventView {
    EventView::UpdateTooltip(spec_bin_tooltip(size_bytes))
}

/// The emission schedule of a poller run: one reading per interval in, one
/// event per interval out, in production order.
pub open spec fn spec_poller_emissions(readings: Seq<u64>) -> Seq<EventView>
    decreases readings.len(),
{
    if readings.len() == 0 {
        Seq::empty()
    } else {
        seq![spec_poll_event(readings[0])] + spec_poller_emissions(
            readings.subrange(1, readings.len() as int),
        )
    }
}

/// One pass of the recycle-bin poller: the size reading becomes the tooltip
/// event sent to the UI event loop.
pub fn poll_tick(size_bytes: u64) -> (e: UserEvent)
    ensures
        e@ == spec_poll_event(size_bytes),
{
    UserEvent::UpdateTooltip(format_bin_tooltip(size_bytes))
}

/// A bounded poller run over given readings: the loop body of the poller
/// thread, minus the sleep and the send, one pass per interval.
pub fn poll_run(readings: &Vec<u64>) -> (evs: Vec<UserEvent>)
    ensures
        evs@.map_values(|e: UserEvent| e@) == spec_poller_emissions(readings@),
{
    let mut evs: Vec<UserEvent> = Vec::new();
    let mut i: usize = 0;
    while i < readings.len()
        invariant
            i <= readings@.len(),
            evs@.len() == i,
            forall|k: int|
                0 <= k < i ==> evs@.map_values(|e: UserEvent| e@)[k] == spec_poll_event(
                    readings@[k],
                ),
        decreases readings@.len() - i,
    {
        evs.push(poll_tick(readings[i]));
        i += 1;
    }
    proof {
        lemma_rate_fidelity(readings@);
        assert(evs@.map_values(|e: UserEvent| e@) =~= spec_poller_emissions(readings@));
    }
    evs
}

/// Law (rate fidelity): for every run, the poller emits at least one sample
/// per interval and never more than one — over `n` intervals, exactly `n`
/// emissions, the `i`-th made from the `i`-th reading.
pub proof fn lemma_rate_fidelity(readings: Seq<u64>)
    ensures
        spec_poller_emissions(readings).len() == readings.len(),
        forall|i: int|
            0 <= i < readings.len() ==> spec_poller_emissions(readings)[i] == spec_poll_event(
                readings[i],
            ),
    decreases readings.len(),
{
    if readings.len() == 0 {
    } else {
        lemma_rate_fidelity(readings.subrange(1, readings.len() as int));
    }
}

} // verus!
