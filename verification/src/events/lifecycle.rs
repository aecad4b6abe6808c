//! Agent lifecycle events and their history.

use vstd::prelude::*;

use crate::clock::now_millis;

verus! {

/// A lifecycle event of an agent, at a time in milliseconds since the
/// epoch.
#[derive(Debug, Clone, Copy, PartialEq, Eq, Structural)]
pub struct LifecycleEvent {
    pub agent_id: u128,
    pub event_type: LifecycleEventType,
    pub timestamp: i64,
}

/// The stages of an agent's life.
#[derive(Debug, Clone, Copy, PartialEq, Eq, Structural)]
pub enum LifecycleEventType {
    Created,
    Initialized,
    Started,
    Paused,
    Resumed,
    Stopping,
    Stopped,
    Destroyed,
}

/// The lifecycle events recorded, oldest first.
#[derive(Debug)]
pub struct LifecycleTracker {
    events: Vec<LifecycleEvent>,
}

impl View for LifecycleTracker {
    type V = Seq<LifecycleEvent>;

    closed spec fn view(&self) -> Seq<LifecycleEvent> {
        self.events@
    }
}

impl LifecycleTracker {
    /// A tracker with no events.
    pub fn new() -> (t: Self)
        ensures
            t@.len() == 0,
    {
        LifecycleTracker { events: Vec::new() }
    }

    /// Records an event at time `now`.
    pub fn record_at(&mut self, agent_id: u128, event_type: LifecycleEventType, now: i64)
        ensures
            final(self)@ == old(self)@.push(LifecycleEvent { agent_id, event_type, timestamp: now }),
    {
        self.events.push(LifecycleEvent { agent_id, event_type, timestamp: now });
    }

    /// Records an event at the current time.
    pub fn record(&mut self, agent_id: u128, event_type: LifecycleEventType)
        ensures
            final(self)@.drop_last() == old(self)@,
            final(self)@.len() == old(self)@.len() + 1,
            final(self)@.last().agent_id == agent_id,
            final(self)@.last().event_type == event_type,
    {
        let now = now_millis();
        self.record_at(agent_id, event_type, now);
        assert(self@.drop_last() =~= old(self)@);
    }

    /// The events recorded, oldest first.
    pub fn history(&self) -> (h: &[LifecycleEvent])
        ensures
            h@ == self@,
    {
        self.events.as_slice()
    }
}

impl Default for LifecycleTracker {
    fn default() -> (t: Self)
        ensures
            t@.len() == 0,
    {
        LifecycleTracker::new()
    }
}

} // verus!
