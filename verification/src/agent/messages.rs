//! The messages the actors send each other.
use vstd::prelude::*;
use crate::agent::model::{ChannelKind, ChatMessage, ConversationId, IncomingMessage, OutgoingMessage};

verus! {

/// A channel hands an incoming message to the workflow.
#[derive(Debug)]
pub struct HandleIncomingMessage {
    pub message: IncomingMessage,
}

/// The workflow asks a provider for the next message of a conversation.
#[derive(Debug)]
pub struct GenerateCompletion {
    pub conversation_id: ConversationId,
    pub history: Vec<ChatMessage>,
    pub system_prompt: Option<String>,
}

/// What a provider answered.
#[derive(Debug, Clone)]
pub struct ProviderResponse {
    pub content: String,
}

/// The workflow asks the dispatcher to deliver a message.
#[derive(Debug)]
pub struct DispatchOutgoingMessage {
    pub message: OutgoingMessage,
}

/// Registers `recipient` as the route for every message of `kind`.
#[derive(Clone)]
pub struct RegisterChannelRoute<R> {
    pub kind: ChannelKind,
    pub recipient: R,
}

/// Removes the route for `kind`.
#[derive(Debug, Clone, Copy)]
pub struct UnregisterChannelRoute {
    pub kind: ChannelKind,
}

/// Why a message could not be handed to another actor's mailbox.
#[derive(Debug, Clone, Copy, PartialEq, Eq, Structural)]
pub enum MailboxError {
    /// The receiving actor has stopped.
    Closed,
    /// The receiving actor did not answer in time.
    Timeout,
}

/// The text `{:?}` writes for a mailbox error.
pub open spec fn mailbox_error_debug(e: MailboxError) -> Seq<char> {
    match e {
        MailboxError::Closed => "MailboxError(Mailbox has closed)"@,
        MailboxError::Timeout => "MailboxError(Message delivery timed out)"@,
    }
}

impl MailboxError {
    /// The error as `{:?}` writes it.
    pub fn debug_text(&self) -> (r: &'static str)
        ensures
            r@ == mailbox_error_debug(*self),
    {
        match self {
            MailboxError::Closed => "MailboxError(Mailbox has closed)",
            MailboxError::Timeout => "MailboxError(Message delivery timed out)",
        }
    }
}

} // verus!
