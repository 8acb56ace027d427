use zarigani::agent::errors::{ChannelError, ProviderError, WorkflowError};
use zarigani::agent::messages::MailboxError;
use zarigani::agent::model::ChannelKind;

#[test]
fn provider_error_texts() {
    assert_eq!(ProviderError::General("boom".to_string()).message(), "Provider error: boom");
    assert_eq!(ProviderError::CapacityExceeded.message(), "Capacity exceeded");
    assert_eq!(ProviderError::AuthError.message(), "Authentication failed");
}

#[test]
fn channel_error_texts() {
    assert_eq!(ChannelError::General("x".to_string()).message(), "Channel error: x");
    assert_eq!(ChannelError::NotFound("y".to_string()).message(), "Target not found: y");
    assert_eq!(
        ChannelError::AlreadyRegistered("z".to_string()).message(),
        "Already registered: z"
    );
}

#[test]
fn workflow_error_texts_nest_their_causes() {
    assert_eq!(WorkflowError::General("g".to_string()).message(), "Workflow error: g");
    assert_eq!(WorkflowError::Mailbox("m".to_string()).message(), "Mailbox error: m");
    assert_eq!(
        WorkflowError::Provider(ProviderError::AuthError).message(),
        "Provider error: Authentication failed"
    );
    assert_eq!(
        WorkflowError::Channel(ChannelError::NotFound("Cli".to_string())).message(),
        "Channel error: Target not found: Cli"
    );
}

#[test]
fn workflow_error_from_causes() {
    let e: WorkflowError = ProviderError::CapacityExceeded.into();
    assert!(matches!(e, WorkflowError::Provider(ProviderError::CapacityExceeded)));
    let e: WorkflowError = ChannelError::General("c".to_string()).into();
    assert!(matches!(e, WorkflowError::Channel(ChannelError::General(ref m)) if m == "c"));
}

#[test]
fn channel_kind_names() {
    assert_eq!(ChannelKind::Cli.name(), "Cli");
    assert_eq!(ChannelKind::Discord.name(), "Discord");
    assert_eq!(ChannelKind::Cli.name(), format!("{:?}", ChannelKind::Cli));
}

#[test]
fn mailbox_error_debug_texts() {
    assert_eq!(MailboxError::Closed.debug_text(), "MailboxError(Mailbox has closed)");
    assert_eq!(MailboxError::Timeout.debug_text(), "MailboxError(Message delivery timed out)");
    assert_eq!(format!("{:?}", actix::MailboxError::Closed), MailboxError::Closed.debug_text());
    assert_eq!(format!("{:?}", actix::MailboxError::Timeout), MailboxError::Timeout.debug_text());
}
