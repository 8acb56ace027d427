use zarigani::agent::errors::{ChannelError, ProviderError, WorkflowError};
use zarigani::agent::messages::{HandleIncomingMessage, MailboxError, ProviderResponse};
use zarigani::agent::model::{
    ChannelKind, ConversationId, IncomingMessage, MessageId, ParticipantId, Role,
};
use zarigani::agent::workflow::{ReplyRoute, Workflow};
use zarigani::providers::openai::{
    CompletionMessage, OpenAiCompatibleProvider, OpenAiCompatibleProviderConfig,
};

const PROMPT: &str = "あなたはZariganiという名前のAIアシスタントです。";

fn workflow() -> Workflow<(), ()> {
    Workflow { provider: (), channel_dispatcher_addr: () }
}

fn incoming(content: &str) -> HandleIncomingMessage {
    HandleIncomingMessage {
        message: IncomingMessage {
            kind: ChannelKind::Discord,
            conversation_id: ConversationId("room-1".to_string()),
            participant_id: ParticipantId("alice".to_string()),
            message_id: Some(MessageId("m-9".to_string())),
            reply_to: Some(MessageId("m-3".to_string())),
            content: content.to_string(),
        },
    }
}

#[test]
fn history_is_one_user_message() {
    let h = workflow().prepare_chat_history("hello");
    assert_eq!(h.len(), 1);
    assert_eq!(h[0].role, Role::User);
    assert_eq!(h[0].content, "hello");
}

#[test]
fn begin_builds_request_and_remembers_route() {
    let (route, req) = workflow().begin_incoming(incoming("what time is it?"));
    assert_eq!(route.kind, ChannelKind::Discord);
    assert_eq!(route.conversation_id, ConversationId("room-1".to_string()));
    assert_eq!(route.in_reply_to, Some(MessageId("m-9".to_string())));
    assert_eq!(req.conversation_id, ConversationId("room-1".to_string()));
    assert_eq!(req.history.len(), 1);
    assert_eq!(req.history[0].role, Role::User);
    assert_eq!(req.history[0].content, "what time is it?");
    assert_eq!(req.system_prompt.as_deref(), Some(PROMPT));
}

#[test]
fn completed_reply_goes_back_to_sender() {
    let (route, _) = workflow().begin_incoming(incoming("ping"));
    let d = Workflow::<(), ()>::on_completion(
        route,
        Ok(Ok(ProviderResponse { content: "pong".to_string() })),
    )
    .unwrap();
    assert_eq!(d.message.kind, ChannelKind::Discord);
    assert_eq!(d.message.conversation_id, ConversationId("room-1".to_string()));
    assert_eq!(d.message.content, "pong");
    assert_eq!(d.message.in_reply_to, Some(MessageId("m-9".to_string())));
}

#[test]
fn provider_failures_end_without_reply() {
    let route = ReplyRoute {
        kind: ChannelKind::Cli,
        conversation_id: ConversationId("c".to_string()),
        in_reply_to: None,
    };
    match Workflow::<(), ()>::on_completion(route.clone(), Ok(Err(ProviderError::AuthError))) {
        Err(WorkflowError::Provider(ProviderError::AuthError)) => {}
        other => panic!("unexpected {:?}", other),
    }
    match Workflow::<(), ()>::on_completion(route, Err(MailboxError::Closed)) {
        Err(WorkflowError::Mailbox(m)) => assert_eq!(
            m,
            "Failed to communicate with Provider: MailboxError(Mailbox has closed)"
        ),
        other => panic!("unexpected {:?}", other),
    }
}

#[test]
fn completion_content_cases() {
    assert_eq!(
        Workflow::<(), ()>::completion_content(Ok(Ok(ProviderResponse { content: "a".to_string() })))
            .unwrap(),
        "a"
    );
    match Workflow::<(), ()>::completion_content(Err(MailboxError::Timeout)) {
        Err(WorkflowError::Mailbox(m)) => assert_eq!(
            m,
            "Failed to communicate with Provider: MailboxError(Message delivery timed out)"
        ),
        other => panic!("unexpected {:?}", other),
    }
}

#[test]
fn dispatch_outcomes() {
    assert!(Workflow::<(), ()>::on_dispatched(Ok(Ok(()))).is_ok());
    match Workflow::<(), ()>::on_dispatched(Ok(Err(ChannelError::NotFound("n".to_string())))) {
        Err(WorkflowError::Channel(ChannelError::NotFound(m))) => assert_eq!(m, "n"),
        other => panic!("unexpected {:?}", other),
    }
    match Workflow::<(), ()>::dispatch_result(Err(MailboxError::Closed)) {
        Err(WorkflowError::Mailbox(m)) => assert_eq!(
            m,
            "Failed to communicate with ChannelDispatcher: MailboxError(Mailbox has closed)"
        ),
        other => panic!("unexpected {:?}", other),
    }
}

#[test]
fn reply_request_fields() {
    let d = Workflow::<(), ()>::reply_request(
        ChannelKind::Cli,
        ConversationId("x".to_string()),
        None,
        "body".to_string(),
    );
    assert_eq!(d.message.kind, ChannelKind::Cli);
    assert_eq!(d.message.conversation_id.0, "x");
    assert_eq!(d.message.content, "body");
    assert_eq!(d.message.in_reply_to, None);
}

#[test]
fn workflow_prompt_wins_and_message_is_the_only_prompt() {
    let config = OpenAiCompatibleProviderConfig::from_settings(
        "http://localhost:8080/v1".to_string(),
        None,
        "local-model".to_string(),
        Some("configured prompt".to_string()),
        None,
        None,
    );
    let provider = OpenAiCompatibleProvider::new(config).unwrap();
    let (_, req) = workflow().begin_incoming(incoming("hello"));
    let plan = provider.plan_completion(req).unwrap();
    assert_eq!(plan.preamble.as_deref(), Some(PROMPT));
    assert_eq!(plan.prompt, CompletionMessage::User("hello".to_string()));
    assert!(plan.history.is_empty());
}
