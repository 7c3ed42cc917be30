//! The event broadcast bus: on a successful styles reload, a single typed
//! event carrying the new stylesheet is addressed to every currently-open
//! window, each exactly once, and to nothing else. Delivery itself is the
//! window toolkit's job; a window that fails to receive the event is logged
//! and does not block delivery to the others.

use vstd::prelude::*;
use crate::model::{BarDef, BarKey, StyleDoc};

verus! {

/// The closed vocabulary of events carried on the bus.
#[derive(Clone, Copy, PartialEq, Eq, Structural, Debug)]
pub enum BarEvent {
    StylesChanged,
}

/// The wire name of a bus event, as the window toolkit addresses it.
pub fn event_name(event: BarEvent) -> (name: &'static str)
    ensures
        name@ == "styles-changed"@,
{
    match event {
        BarEvent::StylesChanged => "styles-changed",
    }
}

/// One broadcast: an event and its payload, addressed to every listed
/// window in order.
pub struct BroadcastPlan {
    pub event: BarEvent,
    pub payload: StyleDoc,
    pub targets: Vec<BarKey>,
}

/// Plans the styles-changed broadcast for the given open windows: the new
/// stylesheet is addressed to each open window exactly once, in window
/// order, and no window is created, destroyed or reordered.
pub fn style_broadcast_plan(windows: &Vec<BarDef>, styles: &StyleDoc) -> (plan: BroadcastPlan)
    ensures
        plan.event == BarEvent::StylesChanged,
        plan.payload.css@ == styles.css@,
        plan.targets@.len() == windows@.len(),
        forall|i: int| 0 <= i < windows@.len() ==> plan.targets@[i] == (#[trigger] windows@[i]).key,
{
    let mut targets: Vec<BarKey> = Vec::new();
    let mut i: usize = 0;
    while i < windows.len()
        invariant
            i <= windows@.len(),
            targets@.len() == i,
            forall|j: int| 0 <= j < i ==> targets@[j] == (#[trigger] windows@[j]).key,
        decreases windows@.len() - i,
    {
        targets.push(windows[i].key);
        i += 1;
    }
    BroadcastPlan { event: BarEvent::StylesChanged, payload: styles.clone(), targets }
}

} // verus!
