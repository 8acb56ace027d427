use zarigani::agent::channel_dispatcher::ChannelDispatcher;
use zarigani::agent::errors::ChannelError;
use zarigani::agent::messages::{
    DispatchOutgoingMessage, MailboxError, RegisterChannelRoute, UnregisterChannelRoute,
};
use zarigani::agent::model::{ChannelKind, ConversationId, OutgoingMessage};

fn outgoing(kind: ChannelKind) -> DispatchOutgoingMessage {
    DispatchOutgoingMessage {
        message: OutgoingMessage {
            kind,
            conversation_id: ConversationId("c".to_string()),
            content: "hi".to_string(),
            in_reply_to: None,
        },
    }
}

#[test]
fn empty_dispatcher_has_no_route() {
    let d: ChannelDispatcher<u32> = ChannelDispatcher::new();
    match d.route(ChannelKind::Cli) {
        Err(ChannelError::NotFound(m)) => assert_eq!(m, "no route registered for Cli"),
        other => panic!("unexpected {:?}", other),
    }
    match d.route_for(&outgoing(ChannelKind::Discord)) {
        Err(ChannelError::NotFound(m)) => assert_eq!(m, "no route registered for Discord"),
        other => panic!("unexpected {:?}", other),
    }
    let d: ChannelDispatcher<u32> = ChannelDispatcher::default();
    assert!(d.route(ChannelKind::Discord).is_err());
}

#[test]
fn registered_route_receives_its_kind() {
    let mut d = ChannelDispatcher::new();
    assert!(d.register_route(ChannelKind::Cli, 7u32).is_ok());
    assert_eq!(*d.route(ChannelKind::Cli).unwrap(), 7);
    assert_eq!(*d.route_for(&outgoing(ChannelKind::Cli)).unwrap(), 7);
}

#[test]
fn second_registration_is_refused_and_first_stays() {
    let mut d = ChannelDispatcher::new();
    d.register_route(ChannelKind::Cli, 1u32).unwrap();
    match d.register_route(ChannelKind::Cli, 2u32) {
        Err(ChannelError::AlreadyRegistered(m)) => {
            assert_eq!(m, "route for Cli is already registered")
        }
        other => panic!("unexpected {:?}", other),
    }
    assert_eq!(*d.route(ChannelKind::Cli).unwrap(), 1);
    match d.handle_register(RegisterChannelRoute { kind: ChannelKind::Cli, recipient: 3u32 }) {
        Err(ChannelError::AlreadyRegistered(m)) => {
            assert_eq!(m, "route for Cli is already registered")
        }
        other => panic!("unexpected {:?}", other),
    }
}

#[test]
fn unregister_removes_route_and_allows_new_one() {
    let mut d = ChannelDispatcher::new();
    d.register_route(ChannelKind::Discord, 5u32).unwrap();
    assert!(d.handle_unregister(UnregisterChannelRoute { kind: ChannelKind::Discord }).is_ok());
    assert!(matches!(d.route(ChannelKind::Discord), Err(ChannelError::NotFound(_))));
    assert!(d.handle_register(RegisterChannelRoute { kind: ChannelKind::Discord, recipient: 6u32 }).is_ok());
    assert_eq!(*d.route(ChannelKind::Discord).unwrap(), 6);
    d.unregister_route(ChannelKind::Cli);
    assert_eq!(*d.route(ChannelKind::Discord).unwrap(), 6);
}

#[test]
fn kinds_do_not_interfere() {
    let mut d = ChannelDispatcher::new();
    d.register_route(ChannelKind::Cli, 1u32).unwrap();
    d.register_route(ChannelKind::Discord, 2u32).unwrap();
    assert_eq!(*d.route(ChannelKind::Cli).unwrap(), 1);
    assert_eq!(*d.route(ChannelKind::Discord).unwrap(), 2);
    d.unregister_route(ChannelKind::Cli);
    assert!(d.route(ChannelKind::Cli).is_err());
    assert_eq!(*d.route(ChannelKind::Discord).unwrap(), 2);
}

#[test]
fn dispatch_result_passes_answer_or_names_mailbox_failure() {
    assert!(ChannelDispatcher::<u32>::dispatch_message_result(Ok(Ok(()))).is_ok());
    match ChannelDispatcher::<u32>::dispatch_message_result(Ok(Err(ChannelError::General(
        "down".to_string(),
    )))) {
        Err(ChannelError::General(m)) => assert_eq!(m, "down"),
        other => panic!("unexpected {:?}", other),
    }
    match ChannelDispatcher::<u32>::dispatch_message_result(Err(MailboxError::Closed)) {
        Err(ChannelError::General(m)) => assert_eq!(
            m,
            "failed to communicate with route: MailboxError(Mailbox has closed)"
        ),
        other => panic!("unexpected {:?}", other),
    }
    match ChannelDispatcher::<u32>::dispatch_message_result(Err(MailboxError::Timeout)) {
        Err(ChannelError::General(m)) => assert_eq!(
            m,
            "failed to communicate with route: MailboxError(Message delivery timed out)"
        ),
        other => panic!("unexpected {:?}", other),
    }
}
