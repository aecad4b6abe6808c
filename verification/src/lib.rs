//! Messaging, collaboration and channel logic for BeeBotOS agents.

pub mod a2a;
pub mod text;
pub mod numtext;
pub mod content;
pub mod config;
pub mod error;
pub mod browser;
pub mod channel;
pub mod collaboration;
pub mod did;
pub mod events;
pub mod router;
pub mod strmap;
pub mod idmap;
pub mod clock;
pub mod templates;
pub mod thread;
pub mod voice;
pub mod webhook;
