//! The workflow: it answers an incoming chat message by asking a provider
//! for a completion and sending the completion back where the message came
//! from.
//!
//! Handling one message takes two round trips to other actors. The
//! decisions between them are the functions here: `begin_incoming` turns
//! the message into a completion request and remembers where the reply
//! goes; `on_completion` turns the provider's answer into the reply to
//! dispatch, or into the error that ends the handling; `on_dispatched`
//! turns the dispatcher's answer into the outcome.
use vstd::prelude::*;
use vstd::string::*;
use crate::agent::errors::{ChannelError, ProviderError, WorkflowError};
use crate::agent::messages::{
    mailbox_error_debug, DispatchOutgoingMessage, GenerateCompletion, HandleIncomingMessage,
    MailboxError, ProviderResponse,
};
use crate::agent::model::{
    ChannelKind, ChatMessage, ConversationId, IncomingMessage, MessageId, OutgoingMessage, Role,
};
use crate::providers::openai::{completion_messages, resolved_system_prompt, CompletionMessage};

verus! {

/// The workflow holds how it reaches the provider and the channel
/// dispatcher.
pub struct Workflow<P, D> {
    pub provider: P,
    pub channel_dispatcher_addr: D,
}

/// Where the reply to an incoming message is to go.
#[derive(Debug, Clone, PartialEq, Eq)]
pub struct ReplyRoute {
    pub kind: ChannelKind,
    pub conversation_id: ConversationId,
    pub in_reply_to: Option<MessageId>,
}

/// The system prompt the workflow gives the provider.
pub open spec fn workflow_system_prompt() -> Seq<char> {
    "あなたはZariganiという名前のAIアシスタントです。"@
}

/// Where the reply to `m` goes: back to its channel and conversation, as a
/// reply to the message itself.
pub open spec fn reply_route_of(m: IncomingMessage) -> ReplyRoute {
    ReplyRoute { kind: m.kind, conversation_id: m.conversation_id, in_reply_to: m.message_id }
}

/// The message that delivers `content` along `route`.
pub open spec fn reply_along(route: ReplyRoute, content: String) -> OutgoingMessage {
    OutgoingMessage {
        kind: route.kind,
        conversation_id: route.conversation_id,
        content: content,
        in_reply_to: route.in_reply_to,
    }
}

/// Whether `history` is the conversation the workflow sends for a message
/// with `content`: that one message, from the user.
pub open spec fn single_user_turn(history: Seq<ChatMessage>, content: Seq<char>) -> bool {
    &&& history.len() == 1
    &&& history[0].role == Role::User
    &&& history[0].content@ == content
}

/// Whether `req` is the completion request for the message `m`.
pub open spec fn completion_request_for(req: GenerateCompletion, m: IncomingMessage) -> bool {
    &&& req.conversation_id == m.conversation_id
    &&& single_user_turn(req.history@, m.content@)
    &&& req.system_prompt matches Some(p) && p@ == workflow_system_prompt()
}

/// The text of the error for a provider whose mailbox could not be reached.
pub open spec fn provider_unreachable_text(e: MailboxError) -> Seq<char> {
    "Failed to communicate with Provider: "@ + mailbox_error_debug(e)
}

/// The text of the error for a dispatcher whose mailbox could not be reached.
pub open spec fn dispatcher_unreachable_text(e: MailboxError) -> Seq<char> {
    "Failed to communicate with ChannelDispatcher: "@ + mailbox_error_debug(e)
}

/// The reply to a message goes back to the channel and conversation the
/// message came from, answers that very message, and carries what the
/// provider wrote.
pub proof fn law_reply_returns_to_sender(m: IncomingMessage, content: String)
    ensures
        reply_along(reply_route_of(m), content) == (OutgoingMessage {
            kind: m.kind,
            conversation_id: m.conversation_id,
            content: content,
            in_reply_to: m.message_id,
        }),
{
}

/// The workflow's own system prompt wins over the one the provider is
/// configured with.
pub proof fn law_workflow_prompt_overrides_configured(
    req: GenerateCompletion,
    m: IncomingMessage,
    configured: Option<String>,
)
    requires
        completion_request_for(req, m),
    ensures
        resolved_system_prompt(req.system_prompt, configured) matches Some(p) && p@
            == workflow_system_prompt(),
{
}

/// The provider receives a workflow request as a single prompt, the user's
/// message, with no history before it.
pub proof fn law_workflow_request_is_single_prompt(req: GenerateCompletion, m: IncomingMessage)
    requires
        completion_request_for(req, m),
    ensures
        completion_messages(req.history@).len() == 1,
        completion_messages(req.history@)[0] matches CompletionMessage::User(c) && c@ == m.content@,
{
    let h = req.history@;
    assert(h.drop_last() =~= Seq::<ChatMessage>::empty());
    assert(completion_messages(h.drop_last()) =~= Seq::<CompletionMessage>::empty());
}

impl<P, D> Workflow<P, D> {
    /// The conversation sent to the provider for a message with `content`.
    pub fn prepare_chat_history(&self, content: &str) -> (r: Vec<ChatMessage>)
        ensures
            single_user_turn(r@, content@),
    {
        let mut history: Vec<ChatMessage> = Vec::new();
        history.push(ChatMessage { role: Role::User, content: content.to_owned() });
        history
    }

    /// The completion request for a conversation and its history, with the
    /// workflow's system prompt.
    pub fn completion_request(conversation_id: ConversationId, history: Vec<ChatMessage>) -> (r:
        GenerateCompletion)
        ensures
            r.conversation_id == conversation_id,
            r.history == history,
            r.system_prompt matches Some(p) && p@ == workflow_system_prompt(),
    {
        GenerateCompletion {
            conversation_id,
            history,
            system_prompt: Some(String::from_str("あなたはZariganiという名前のAIアシスタントです。")),
        }
    }

    /// The content of a completion once the provider has answered, or the
    /// error that ends the handling.
    pub fn completion_content(reply: Result<Result<ProviderResponse, ProviderError>, MailboxError>) -> (r:
        Result<String, WorkflowError>)
        ensures
            reply matches Ok(Ok(resp)) ==> r == Ok::<String, WorkflowError>(resp.content),
            reply matches Ok(Err(e)) ==> r == Err::<String, WorkflowError>(WorkflowError::Provider(e)),
            reply matches Err(e) ==> (r matches Err(WorkflowError::Mailbox(m)) && m@
                == provider_unreachable_text(e)),
    {
        match reply {
            Ok(Ok(resp)) => Ok(resp.content),
            Ok(Err(e)) => Err(WorkflowError::Provider(e)),
            Err(e) => {
                let m = String::from_str("Failed to communicate with Provider: ").concat(
                    e.debug_text(),
                );
                Err(WorkflowError::Mailbox(m))
            },
        }
    }

    /// The request that delivers `content` as a reply.
    pub fn reply_request(
        kind: ChannelKind,
        conversation_id: ConversationId,
        in_reply_to: Option<MessageId>,
        content: String,
    ) -> (r: DispatchOutgoingMessage)
        ensures
            r.message == reply_along(ReplyRoute { kind, conversation_id, in_reply_to }, content),
    {
        DispatchOutgoingMessage {
            message: OutgoingMessage { kind, conversation_id, content, in_reply_to },
        }
    }

    /// The outcome once the dispatcher has answered.
    pub fn dispatch_result(reply: Result<Result<(), ChannelError>, MailboxError>) -> (r: Result<
        (),
        WorkflowError,
    >)
        ensures
            reply matches Ok(Ok(())) ==> r is Ok,
            reply matches Ok(Err(e)) ==> r == Err::<(), WorkflowError>(WorkflowError::Channel(e)),
            reply matches Err(e) ==> (r matches Err(WorkflowError::Mailbox(m)) && m@
                == dispatcher_unreachable_text(e)),
    {
        match reply {
            Ok(Ok(())) => Ok(()),
            Ok(Err(e)) => Err(WorkflowError::Channel(e)),
            Err(e) => {
                let m = String::from_str("Failed to communicate with ChannelDispatcher: ").concat(
                    e.debug_text(),
                );
                Err(WorkflowError::Mailbox(m))
            },
        }
    }

    /// First step of handling an incoming message: the completion request
    /// to send to the provider, and where the reply will go.
    pub fn begin_incoming(&self, msg: HandleIncomingMessage) -> (r: (ReplyRoute, GenerateCompletion))
        ensures
            r.0 == reply_route_of(msg.message),
            completion_request_for(r.1, msg.message),
    {
        let HandleIncomingMessage { message } = msg;
        let IncomingMessage { kind, conversation_id, participant_id, message_id, reply_to, content } =
            message;
        let history = self.prepare_chat_history(content.as_str());
        let ConversationId(id) = conversation_id;
        let request = Self::completion_request(ConversationId(id.clone()), history);
        let route = ReplyRoute { kind, conversation_id: ConversationId(id), in_reply_to: message_id };
        (route, request)
    }

    /// Second step: once the provider has answered, the reply to dispatch,
    /// or the error that ends the handling without a reply.
    pub fn on_completion(
        route: ReplyRoute,
        reply: Result<Result<ProviderResponse, ProviderError>, MailboxError>,
    ) -> (r: Result<DispatchOutgoingMessage, WorkflowError>)
        ensures
            reply matches Ok(Ok(resp)) ==> (r matches Ok(d) && d.message == reply_along(
                route,
                resp.content,
            )),
            reply matches Ok(Err(e)) ==> r == Err::<DispatchOutgoingMessage, WorkflowError>(
                WorkflowError::Provider(e),
            ),
            reply matches Err(e) ==> (r matches Err(WorkflowError::Mailbox(m)) && m@
                == provider_unreachable_text(e)),
    {
        let content = Self::completion_content(reply)?;
        let ReplyRoute { kind, conversation_id, in_reply_to } = route;
        Ok(Self::reply_request(kind, conversation_id, in_reply_to, content))
    }

    /// Last step: the outcome of handling the message once the dispatcher
    /// has answered.
    pub fn on_dispatched(reply: Result<Result<(), ChannelError>, MailboxError>) -> (r: Result<
        (),
        WorkflowError,
    >)
        ensures
            reply matches Ok(Ok(())) ==> r is Ok,
            reply matches Ok(Err(e)) ==> r == Err::<(), WorkflowError>(WorkflowError::Channel(e)),
            reply matches Err(e) ==> (r matches Err(WorkflowError::Mailbox(m)) && m@
                == dispatcher_unreachable_text(e)),
    {
        Self::dispatch_result(reply)
    }
}

} // verus!
