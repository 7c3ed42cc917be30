//! Debouncing of raw file-change events for a single watched path. Bursts of
//! raw events within the settling window collapse into one pending logical
//! event carrying the last observed significant kind; the pending event is
//! delivered once the window has passed without superseding activity.

use vstd::prelude::*;
use crate::events::{ChangeKind, RawEventKind, settles_to};

verus! {

/// Saturating addition on `u64`, used to push the settling deadline forward.
pub open spec fn sat_add(a: u64, b: u64) -> u64 {
    if a + b > u64::MAX {
        u64::MAX
    } else {
        (a + b) as u64
    }
}

/// Debouncer state for one watched path: at most one pending logical event
/// and the instant (in milliseconds) at which it counts as settled.
#[derive(Clone, Copy, PartialEq, Eq, Structural, Debug)]
pub struct Debouncer {
    pub window_ms: u64,
    pub pending: Option<ChangeKind>,
    pub deadline: u64,
}

/// The debouncer state after one raw event is observed at `now`: a
/// significant kind replaces the pending event and restarts the settling
/// window; an insignificant kind changes nothing.
pub open spec fn after_observe(d: Debouncer, now: u64, kind: RawEventKind) -> Debouncer {
    match settles_to(kind) {
        Some(change) => Debouncer {
            window_ms: d.window_ms,
            pending: Some(change),
            deadline: sat_add(now, d.window_ms),
        },
        None => d,
    }
}

/// The debouncer state and the delivered event after one poll at `now`: a
/// pending event whose deadline has passed is delivered and cleared; before
/// the deadline, or with nothing pending, nothing is delivered.
pub open spec fn after_poll(d: Debouncer, now: u64) -> (Debouncer, Option<ChangeKind>) {
    if d.pending is Some && now >= d.deadline {
        (
            Debouncer { window_ms: d.window_ms, pending: None, deadline: d.deadline },
            d.pending,
        )
    } else {
        (d, None)
    }
}

/// The debouncer state after a whole sequence of raw events, each a pair of
/// an observation instant and a raw kind, observed in order.
pub open spec fn after_observe_all(d: Debouncer, events: Seq<(u64, RawEventKind)>) -> Debouncer
    decreases events.len(),
{
    if events.len() == 0 {
        d
    } else {
        after_observe(after_observe_all(d, events.drop_last()), events.last().0, events.last().1)
    }
}

impl Debouncer {
    /// A fresh debouncer with the given settling window and nothing pending.
    pub fn new(window_ms: u64) -> (d: Debouncer)
        ensures
            d.window_ms == window_ms,
            d.pending is None,
    {
        Debouncer { window_ms, pending: None, deadline: 0 }
    }

    /// Feeds one raw event, observed at `now`, into the debouncer.
    pub fn observe(&mut self, now: u64, kind: RawEventKind)
        ensures
            *final(self) == after_observe(*old(self), now, kind),
    {
        match crate::events::classify(kind) {
            Some(change) => {
                self.pending = Some(change);
                self.deadline = if now <= u64::MAX - self.window_ms {
                    now + self.window_ms
                } else {
                    u64::MAX
                };
            },
            None => {},
        }
    }

    /// Delivers the pending logical event if its settling window has passed
    /// at `now`, clearing it so that it is delivered at most once.
    pub fn poll(&mut self, now: u64) -> (settled: Option<ChangeKind>)
        ensures
            *final(self) == after_poll(*old(self), now).0,
            settled == after_poll(*old(self), now).1,
    {
        match self.pending {
            Some(change) => {
                if now >= self.deadline {
                    self.pending = None;
                    Some(change)
                } else {
                    None
                }
            },
            None => None,
        }
    }
}

/// Observing events never changes the settling window itself.
pub proof fn lemma_observe_all_keeps_window(d: Debouncer, events: Seq<(u64, RawEventKind)>)
    ensures
        after_observe_all(d, events).window_ms == d.window_ms,
    decreases events.len(),
{
    if events.len() > 0 {
        lemma_observe_all_keeps_window(d, events.drop_last());
    }
}

/// Law: a burst of rapid significant raw events for one path — each arriving
/// before the previous event's settling window has passed — delivers exactly
/// one logical event, carrying the kind of the last event of the burst. A
/// poll between two events of the burst delivers nothing; after the burst,
/// the first poll past the settling deadline delivers the single event, and
/// every later poll delivers nothing.
pub proof fn lemma_burst_settles_once(
    d: Debouncer,
    events: Seq<(u64, RawEventKind)>,
    settle_time: u64,
    later_time: u64,
)
    requires
        events.len() > 0,
        forall|i: int| 0 <= i < events.len() ==> settles_to(#[trigger] events[i].1) is Some,
        forall|i: int|
            0 < i < events.len() ==> (#[trigger] events[i]).0 < sat_add(
                events[i - 1].0,
                d.window_ms,
            ),
        settle_time >= after_observe_all(d, events).deadline,
    ensures
        after_observe_all(d, events).pending == settles_to(events.last().1),
        after_observe_all(d, events).deadline == sat_add(events.last().0, d.window_ms),
        forall|j: int, t: u64|
            0 < j < events.len() && t < events[j].0 ==> (#[trigger] after_poll(
                after_observe_all(d, events.take(j)),
                t,
            )).1 is None,
        after_poll(after_observe_all(d, events), settle_time).1 == settles_to(events.last().1),
        after_poll(after_poll(after_observe_all(d, events), settle_time).0, later_time).1 is None,
{
    assert(settles_to(events.last().1) is Some);
    lemma_observe_all_keeps_window(d, events.drop_last());
    assert forall|j: int, t: u64|
        0 < j < events.len() && t < events[j].0 implies (#[trigger] after_poll(
        after_observe_all(d, events.take(j)),
        t,
    )).1 is None by {
        let prefix = events.take(j);
        assert(prefix.last() == events[j - 1]);
        assert(settles_to(events[j - 1].1) is Some);
        lemma_observe_all_keeps_window(d, prefix.drop_last());
        assert(after_observe_all(d, prefix) == after_observe(
            after_observe_all(d, prefix.drop_last()),
            events[j - 1].0,
            events[j - 1].1,
        ));
        assert(after_observe_all(d, prefix).deadline == sat_add(events[j - 1].0, d.window_ms));
        assert(t < after_observe_all(d, prefix).deadline);
    }
}

} // verus!
