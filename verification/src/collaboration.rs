//! Multi-agent collaboration: the round table, hub and spokes, routes and
//! workflows.

use vstd::prelude::*;

pub mod council;
pub mod debate;
pub mod hub;
pub mod integration;
pub mod round_table;
pub mod routing;
pub mod spoke;
pub mod workflow;

verus! {

/// A message between collaborating agents, identified by 128-bit IDs; no
/// recipient means everyone.
#[derive(Debug, Clone)]
pub struct CollabMessage {
    pub from: u128,
    pub to: Option<u128>,
    pub content: String,
    pub message_type: CollabMessageType,
}

/// The kinds of collaboration message.
#[derive(Debug, Clone, Copy, PartialEq, Eq, Structural)]
pub enum CollabMessageType {
    Request,
    Response,
    Broadcast,
    Coordination,
}

} // verus!
