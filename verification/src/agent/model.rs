//! Domain model shared by channels, workflow and providers. None of it
//! depends on a particular chat service or language model vendor.
use vstd::prelude::*;

verus! {

/// The kind of chat service a message came from or goes to.
#[derive(Debug, Clone, Copy, PartialEq, Eq, Hash, Structural)]
pub enum ChannelKind {
    Discord,
    Cli,
}

/// Identifies one conversation within a channel.
#[derive(Debug, Clone, PartialEq, Eq, Hash)]
pub struct ConversationId(pub String);

/// Identifies who wrote a message.
#[derive(Debug, Clone, PartialEq, Eq, Hash)]
pub struct ParticipantId(pub String);

/// Identifies one message.
#[derive(Debug, Clone, PartialEq, Eq, Hash)]
pub struct MessageId(pub String);

/// The speaker of a message in a conversation with the model.
#[derive(Debug, Clone, Copy, PartialEq, Eq, Structural)]
pub enum Role {
    System,
    User,
    Assistant,
}

/// One message of a conversation with the model.
#[derive(Debug, Clone, PartialEq, Eq)]
pub struct ChatMessage {
    pub role: Role,
    pub content: String,
}

/// A message that arrived on a channel.
#[derive(Debug, Clone, PartialEq, Eq)]
pub struct IncomingMessage {
    pub kind: ChannelKind,
    pub conversation_id: ConversationId,
    pub participant_id: ParticipantId,
    pub message_id: Option<MessageId>,
    pub reply_to: Option<MessageId>,
    pub content: String,
}

/// A message to be delivered on a channel.
#[derive(Debug, Clone, PartialEq, Eq)]
pub struct OutgoingMessage {
    pub kind: ChannelKind,
    pub conversation_id: ConversationId,
    pub content: String,
    pub in_reply_to: Option<MessageId>,
}

/// The name that `Debug` gives a channel kind.
pub open spec fn channel_kind_name(kind: ChannelKind) -> Seq<char> {
    match kind {
        ChannelKind::Discord => "Discord"@,
        ChannelKind::Cli => "Cli"@,
    }
}

impl ChannelKind {
    /// The name of the kind as `{:?}` writes it.
    pub fn name(&self) -> (r: &'static str)
        ensures
            r@ == channel_kind_name(*self),
    {
        match self {
            ChannelKind::Discord => "Discord",
            ChannelKind::Cli => "Cli",
        }
    }
}

} // verus!
