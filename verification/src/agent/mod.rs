//! The shared vocabulary of the assistant and the decisions of its actors.
pub mod channel_dispatcher;
pub mod errors;
pub mod messages;
pub mod model;
pub mod workflow;
