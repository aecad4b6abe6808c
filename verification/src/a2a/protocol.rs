//! Agent-to-agent protocol: deal and task states, protocol errors and the
//! escrow interface.

use vstd::prelude::*;

use crate::text::{push_str, to_owned_string};

verus! {

/// The state of a deal between agents.
#[derive(Debug, Clone)]
pub struct DealState {
    pub deal_id: String,
    pub buyer_id: String,
    pub seller_id: String,
    pub service_id: String,
    pub price: u64,
    pub status: DealStatus,
    pub created_at: u64,
}

/// The stages of a deal.
#[derive(Debug, Clone, Copy, PartialEq, Eq, Structural)]
pub enum DealStatus {
    Proposed,
    Accepted,
    Funded,
    InProgress,
    Completed,
    Disputed,
    Cancelled,
}

/// The state of a task.
#[derive(Debug, Clone, Copy, PartialEq, Eq, Structural)]
pub enum TaskStatus {
    Created,
    Pending,
    InProgress,
    Completed,
    Failed,
    Cancelled,
}

/// Protocol errors.
#[derive(Debug, Clone, PartialEq, Eq)]
pub enum A2AError {
    InvalidFormat,
    Unauthorized,
    DealNotFound,
    InsufficientFunds,
    ServiceUnavailable,
    AgentNotFound,
    NoValidEndpoint,
    Serialization(String),
    Security(String),
    Transport(String),
}

/// The message describing a protocol error.
pub open spec fn a2a_error_message(e: A2AError) -> Seq<char> {
    match e {
        A2AError::InvalidFormat => "Invalid message format"@,
        A2AError::Unauthorized => "Unauthorized sender"@,
        A2AError::DealNotFound => "Deal not found"@,
        A2AError::InsufficientFunds => "Insufficient funds"@,
        A2AError::ServiceUnavailable => "Service unavailable"@,
        A2AError::AgentNotFound => "Agent not found"@,
        A2AError::NoValidEndpoint => "No valid endpoint"@,
        A2AError::Serialization(m) => "Serialization error: "@ + m@,
        A2AError::Security(m) => "Security error: "@ + m@,
        A2AError::Transport(m) => "Transport error: "@ + m@,
    }
}

fn prefixed(prefix: &str, m: &String) -> (s: String)
    ensures
        s@ == prefix@ + m@,
{
    let mut s = to_owned_string(prefix);
    push_str(&mut s, m.as_str());
    s
}

impl A2AError {
    /// The message describing this error.
    pub fn message(&self) -> (s: String)
        ensures
            s@ == a2a_error_message(*self),
    {
        match self {
            A2AError::InvalidFormat => to_owned_string("Invalid message format"),
            A2AError::Unauthorized => to_owned_string("Unauthorized sender"),
            A2AError::DealNotFound => to_owned_string("Deal not found"),
            A2AError::InsufficientFunds => to_owned_string("Insufficient funds"),
            A2AError::ServiceUnavailable => to_owned_string("Service unavailable"),
            A2AError::AgentNotFound => to_owned_string("Agent not found"),
            A2AError::NoValidEndpoint => to_owned_string("No valid endpoint"),
            A2AError::Serialization(m) => prefixed("Serialization error: ", m),
            A2AError::Security(m) => prefixed("Security error: ", m),
            A2AError::Transport(m) => prefixed("Transport error: ", m),
        }
    }
}

/// Escrow of payments between a buyer and a seller, for users to
/// implement.
pub trait Escrow {
    /// Holds `amount` from the buyer for the seller; returns the escrow ID.
    fn create_escrow(&self, buyer: &str, seller: &str, amount: u64) -> Result<String, A2AError>;

    /// Pays the held amount to the seller.
    fn release(&self, escrow_id: &str) -> Result<(), A2AError>;

    /// Returns the held amount to the buyer.
    fn refund(&self, escrow_id: &str) -> Result<(), A2AError>;
}

} // verus!
