//! Channels: where messages come from and replies go to.
pub mod cli;
pub mod stub;
