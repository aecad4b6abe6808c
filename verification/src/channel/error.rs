//! Errors shared by the channel implementations.

use vstd::prelude::*;

use crate::text::{decimal, push_decimal, push_str, to_owned_string};

verus! {

/// Errors of channel operations.
#[derive(Debug, Clone, PartialEq, Eq)]
pub enum ChannelError {
    Auth(String),
    Connection(String),
    SendFailed(String),
    ReceiveFailed(String),
    InvalidMessage(String),
    RateLimited(String),
    NotInitialized,
    AlreadyConnected,
    Config(String),
    Api { code: u16, message: String },
    WebSocket(String),
    Timeout,
    Unknown(String),
}

/// The message describing a channel error.
pub open spec fn channel_error_message(e: ChannelError) -> Seq<char> {
    match e {
        ChannelError::Auth(m) => "Authentication failed: "@ + m@,
        ChannelError::Connection(m) => "Connection error: "@ + m@,
        ChannelError::SendFailed(m) => "Failed to send message: "@ + m@,
        ChannelError::ReceiveFailed(m) => "Failed to receive message: "@ + m@,
        ChannelError::InvalidMessage(m) => "Invalid message format: "@ + m@,
        ChannelError::RateLimited(m) => "Rate limit exceeded: "@ + m@,
        ChannelError::NotInitialized => "Channel not initialized"@,
        ChannelError::AlreadyConnected => "Channel already connected"@,
        ChannelError::Config(m) => "Configuration error: "@ + m@,
        ChannelError::Api { code, message } => "Platform API error "@ + decimal(code as nat) + ": "@ + message@,
        ChannelError::WebSocket(m) => "WebSocket error: "@ + m@,
        ChannelError::Timeout => "Operation timed out"@,
        ChannelError::Unknown(m) => "Unknown error: "@ + m@,
    }
}

fn prefixed(prefix: &str, m: &String) -> (s: String)
    ensures
        s@ == prefix@ + m@,
{
    let mut s = to_owned_string(prefix);
    push_str(&mut s, m.as_str());
    s
}

impl ChannelError {
    /// The message describing this error.
    pub fn message(&self) -> (s: String)
        ensures
            s@ == channel_error_message(*self),
    {
        match self {
            ChannelError::Auth(m) => prefixed("Authentication failed: ", m),
            ChannelError::Connection(m) => prefixed("Connection error: ", m),
            ChannelError::SendFailed(m) => prefixed("Failed to send message: ", m),
            ChannelError::ReceiveFailed(m) => prefixed("Failed to receive message: ", m),
            ChannelError::InvalidMessage(m) => prefixed("Invalid message format: ", m),
            ChannelError::RateLimited(m) => prefixed("Rate limit exceeded: ", m),
            ChannelError::NotInitialized => to_owned_string("Channel not initialized"),
            ChannelError::AlreadyConnected => to_owned_string("Channel already connected"),
            ChannelError::Config(m) => prefixed("Configuration error: ", m),
            ChannelError::Api { code, message } => {
                let mut s = to_owned_string("Platform API error ");
                push_decimal(&mut s, *code as u64);
                push_str(&mut s, ": ");
                push_str(&mut s, message.as_str());
                s
            },
            ChannelError::WebSocket(m) => prefixed("WebSocket error: ", m),
            ChannelError::Timeout => to_owned_string("Operation timed out"),
            ChannelError::Unknown(m) => prefixed("Unknown error: ", m),
        }
    }
}

impl From<String> for ChannelError {
    /// Any other failure, described by a message.
    fn from(s: String) -> (e: Self) {
        ChannelError::Unknown(s)
    }
}

impl vstd::std_specs::convert::FromSpecImpl<String> for ChannelError {
    open spec fn obeys_from_spec() -> bool {
        true
    }

    open spec fn from_spec(v: String) -> ChannelError {
        ChannelError::Unknown(v)
    }
}

} // verus!
