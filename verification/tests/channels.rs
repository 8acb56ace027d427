use zarigani::agent::messages::DispatchOutgoingMessage;
use zarigani::agent::model::{ChannelKind, ConversationId, OutgoingMessage};
use zarigani::channels::cli::{CliChannel, CliDecision, CliSession, LineRead};
use zarigani::channels::stub::StubChannel;

fn reply(kind: ChannelKind, content: &str) -> DispatchOutgoingMessage {
    DispatchOutgoingMessage {
        message: OutgoingMessage {
            kind,
            conversation_id: ConversationId("cli:default".to_string()),
            content: content.to_string(),
            in_reply_to: None,
        },
    }
}

#[test]
fn cli_channel_shows_reply_after_name() {
    assert_eq!(CliChannel.render(&reply(ChannelKind::Cli, "こんにちは")), "\nzarigani> こんにちは\n");
}

#[test]
fn stub_channel_frames_reply() {
    let rule = "-".repeat(50);
    let expected = format!(
        "{rule}\nStub Channel outgoing message for Discord conversation cli:default: \n  >>> hi\n{rule}\n"
    );
    assert_eq!(StubChannel.render(&reply(ChannelKind::Discord, "hi")), expected);
}

#[test]
fn cli_session_numbers_messages() {
    let mut s = CliSession::new();
    assert_eq!(s.next_message_id, 1);
    match s.on_read(LineRead::Line("hello  \n".to_string())) {
        CliDecision::Deliver(h) => {
            let m = h.message;
            assert_eq!(m.kind, ChannelKind::Cli);
            assert_eq!(m.conversation_id.0, "cli:default");
            assert_eq!(m.participant_id.0, "cli:user");
            assert_eq!(m.message_id.unwrap().0, "cli-msg-1");
            assert!(m.reply_to.is_none());
            assert_eq!(m.content, "hello");
        }
        other => panic!("unexpected {:?}", other),
    }
    match s.on_read(LineRead::Line("  again".to_string())) {
        CliDecision::Deliver(h) => {
            assert_eq!(h.message.message_id.unwrap().0, "cli-msg-2");
            assert_eq!(h.message.content, "  again");
        }
        other => panic!("unexpected {:?}", other),
    }
    assert_eq!(s.next_message_id, 3);
}

#[test]
fn cli_session_skips_and_stops() {
    let mut s = CliSession::new();
    assert!(matches!(s.on_read(LineRead::Line(" \t\n".to_string())), CliDecision::Skip));
    assert!(matches!(s.on_read(LineRead::Line("/exit\n".to_string())), CliDecision::ExitCommand));
    assert!(matches!(s.on_read(LineRead::EndOfInput), CliDecision::EndOfInput));
    match s.on_read(LineRead::Failed("broken pipe".to_string())) {
        CliDecision::ReadFailed(e) => assert_eq!(e, "broken pipe"),
        other => panic!("unexpected {:?}", other),
    }
    assert_eq!(s.next_message_id, 1);
    assert!(matches!(s.on_read(LineRead::Line(" /exit".to_string())), CliDecision::Deliver(_)));
}

#[test]
fn cli_message_ids_are_distinct() {
    let mut s = CliSession { next_message_id: 9 };
    let mut ids = Vec::new();
    for _ in 0..3 {
        if let CliDecision::Deliver(h) = s.on_read(LineRead::Line("x".to_string())) {
            ids.push(h.message.message_id.unwrap().0);
        }
    }
    assert_eq!(ids, vec!["cli-msg-9", "cli-msg-10", "cli-msg-11"]);
}

#[test]
fn cli_session_at_last_number_still_stops_and_skips() {
    let mut s = CliSession { next_message_id: u64::MAX };
    assert!(matches!(s.on_read(LineRead::Line("  ".to_string())), CliDecision::Skip));
    assert!(matches!(s.on_read(LineRead::Line("/exit".to_string())), CliDecision::ExitCommand));
    assert!(matches!(s.on_read(LineRead::EndOfInput), CliDecision::EndOfInput));
    assert_eq!(s.next_message_id, u64::MAX);
}
