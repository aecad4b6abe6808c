//! Events: numbering and buffering them in order.

pub mod lifecycle;
pub mod sequencer;
