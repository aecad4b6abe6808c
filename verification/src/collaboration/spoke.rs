//! Spoke agents: agents that talk through a hub.

use vstd::prelude::*;

use crate::clock::new_uuid;
use crate::collaboration::CollabMessage;
use crate::error::AgentError;
use crate::text::to_owned_string;

verus! {

/// An agent attached to at most one hub.
#[derive(Debug)]
pub struct SpokeAgent {
    id: u128,
    hub_id: Option<u128>,
}

impl View for SpokeAgent {
    /// The agent's ID and its hub, if connected.
    type V = (u128, Option<u128>);

    closed spec fn view(&self) -> (u128, Option<u128>) {
        (self.id, self.hub_id)
    }
}

impl SpokeAgent {
    /// A disconnected agent with a fresh ID.
    pub fn new() -> (a: Self)
        ensures
            a@.1 is None,
    {
        SpokeAgent { id: new_uuid(), hub_id: None }
    }

    /// The agent's ID.
    pub fn id(&self) -> (id: u128)
        ensures
            id == self@.0,
    {
        self.id
    }

    /// Connects to a hub, replacing any earlier one.
    pub fn connect(&mut self, hub_id: u128)
        ensures
            final(self)@ == (old(self)@.0, Some(hub_id)),
    {
        self.hub_id = Some(hub_id);
    }

    /// Checks that the agent can send to its hub: an error when it is not
    /// connected.
    pub fn send_to_hub(&self, _message: &CollabMessage) -> (r: Result<u128, AgentError>)
        ensures
            self@.1 matches Some(h) ==> r == Ok::<u128, AgentError>(h),
            self@.1 is None ==> (r matches Err(e) && e == AgentError::Configuration(e->Configuration_0)
                && e->Configuration_0@ == "Not connected to hub"@),
    {
        match self.hub_id {
            Some(h) => Ok(h),
            None => Err(AgentError::Configuration(to_owned_string("Not connected to hub"))),
        }
    }

    /// Leaves the hub.
    pub fn disconnect(&mut self)
        ensures
            final(self)@ == (old(self)@.0, None::<u128>),
    {
        self.hub_id = None;
    }
}

impl Default for SpokeAgent {
    fn default() -> (a: Self)
        ensures
            a@.1 is None,
    {
        SpokeAgent::new()
    }
}

} // verus!
