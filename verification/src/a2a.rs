//! Agent-to-agent collaboration: capabilities, protocol types and transport
//! policy.

pub mod capabilities;
pub mod commerce;
pub mod negotiation;
pub mod protocol;
pub mod task_manager;
pub mod transport;
