//! Zarigani: the decision logic of an actor-based chat assistant.
//!
//! The library holds what the assistant decides: how configuration is
//! validated, how outgoing replies are routed to channels, how a workflow
//! turns an incoming chat message into a completion request and then into a
//! reply, and how the completion provider prepares requests and reads
//! responses. Running actors, reading files and talking to the network is
//! the job of the program around it.

pub mod text;
pub mod agent;
pub mod providers;
pub mod config;
pub mod channels;
