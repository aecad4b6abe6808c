//! Content handling for each messaging platform.

pub mod bluebubbles;
pub mod error;
pub mod channel_manager;
pub mod dingtalk;
pub mod matrix;
pub mod message_pipeline;
pub mod registry;
pub mod signal;
pub mod session_manager;
pub mod signal_cli;
pub mod discord;
pub mod teams;
pub mod telegram;
pub mod twitter;
pub mod wechat;
pub mod wechat_xml;
pub mod whatsapp;
