//! Per-user conversation state machine and metered voice-note pipeline for a
//! bot that turns voice notes into drafts.

pub mod actions;
pub mod clock;
pub mod commands;
pub mod draft;
pub mod store;
pub mod voice;
