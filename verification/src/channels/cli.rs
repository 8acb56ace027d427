//! The command line channel: lines typed by the user come in as messages,
//! replies are written back to the terminal.
use vstd::prelude::*;
use vstd::string::*;
use crate::agent::messages::{DispatchOutgoingMessage, HandleIncomingMessage};
use crate::agent::model::{ChannelKind, ConversationId, IncomingMessage, MessageId, ParticipantId};
use crate::text::{decimal, law_parse_decimal_roundtrip, same_text, to_decimal, trim_end, trimmed_end};

verus! {

/// The command line channel.
pub struct CliChannel;

/// What the terminal shows for a reply with `content`: an empty line, then
/// the reply after the assistant's name.
pub open spec fn cli_reply_text(content: Seq<char>) -> Seq<char> {
    "\n"@ + "zarigani> "@ + content + "\n"@
}

/// The terminal shows a reply whole: an empty line, the assistant's name,
/// every character of the content in order, and a line break.
pub proof fn law_cli_reply_shows_whole_content(content: Seq<char>)
    ensures
        cli_reply_text(content).len() == content.len() + 12,
        cli_reply_text(content).take(11) == "\nzarigani> "@,
        cli_reply_text(content).subrange(11, 11 + content.len() as int) == content,
        cli_reply_text(content).last() == '\n',
{
    reveal_strlit("\n");
    reveal_strlit("zarigani> ");
    reveal_strlit("\nzarigani> ");
    let r = cli_reply_text(content);
    assert(r.take(11) =~= "\nzarigani> "@);
    assert(r.subrange(11, 11 + content.len() as int) =~= content);
}

impl CliChannel {
    /// The text written to the terminal for an outgoing message.
    pub fn render(&self, msg: &DispatchOutgoingMessage) -> (r: String)
        ensures
            r@ == cli_reply_text(msg.message.content@),
    {
        String::from_str("\n").concat("zarigani> ").concat(msg.message.content.as_str()).concat(
            "\n",
        )
    }
}

/// What reading a line from the terminal gave.
#[derive(Debug, Clone, PartialEq, Eq)]
pub enum LineRead {
    /// The input has ended.
    EndOfInput,
    /// A line, with its line break if it had one.
    Line(String),
    /// Reading failed; the text tells why.
    Failed(String),
}

/// What the command line front end does with what was read.
#[derive(Debug)]
pub enum CliDecision {
    /// The input has ended: stop.
    EndOfInput,
    /// The user asked to leave: stop.
    ExitCommand,
    /// Nothing was typed: ask again.
    Skip,
    /// Hand the message to the workflow, then ask again.
    Deliver(HandleIncomingMessage),
    /// Reading failed: stop.
    ReadFailed(String),
}

/// The state of the command line front end: the number of the next
/// message.
#[derive(Debug, Clone, PartialEq, Eq)]
pub struct CliSession {
    pub next_message_id: u64,
}

/// The conversation all command line messages belong to.
pub open spec fn cli_conversation() -> Seq<char> {
    "cli:default"@
}

/// The participant all command line messages come from.
pub open spec fn cli_participant() -> Seq<char> {
    "cli:user"@
}

/// The identifier of the command line message numbered `n`.
pub open spec fn cli_message_id(n: u64) -> Seq<char> {
    "cli-msg-"@ + decimal(n as nat)
}

/// The command that ends the session.
pub open spec fn exit_command() -> Seq<char> {
    "/exit"@
}

/// Whether reading `read` delivers a message: a line that is neither empty
/// once trailing white space is removed nor the exit command.
pub open spec fn delivers(read: LineRead) -> bool {
    read matches LineRead::Line(l) && trimmed_end(l@).len() > 0 && trimmed_end(l@)
        != exit_command()
}

/// Whether `msg` is the command line message numbered `n` with `content`.
pub open spec fn cli_message(msg: HandleIncomingMessage, n: u64, content: Seq<char>) -> bool {
    let m = msg.message;
    &&& m.kind == ChannelKind::Cli
    &&& m.conversation_id.0@ == cli_conversation()
    &&& m.participant_id.0@ == cli_participant()
    &&& m.message_id matches Some(id) && id.0@ == cli_message_id(n)
    &&& m.reply_to is None
    &&& m.content@ == content
}

/// Messages with different numbers have different identifiers, so every
/// message of a session can be told apart.
pub proof fn law_cli_message_ids_distinct(n: u64, k: u64)
    requires
        n != k,
    ensures
        cli_message_id(n) != cli_message_id(k),
{
    let p = "cli-msg-"@;
    if cli_message_id(n) == cli_message_id(k) {
        assert((p + decimal(n as nat)).skip(p.len() as int) =~= decimal(n as nat));
        assert((p + decimal(k as nat)).skip(p.len() as int) =~= decimal(k as nat));
        law_parse_decimal_roundtrip(n);
        law_parse_decimal_roundtrip(k);
    }
}

impl CliSession {
    /// A session whose first message is numbered 1.
    pub fn new() -> (s: Self)
        ensures
            s.next_message_id == 1,
    {
        CliSession { next_message_id: 1 }
    }

    /// Decides what to do with what was read. A line loses its trailing
    /// white space; an empty line is skipped, `/exit` ends the session, and
    /// any other line becomes the next numbered message.
    pub fn on_read(&mut self, read: LineRead) -> (d: CliDecision)
        requires
            delivers(read) ==> old(self).next_message_id < u64::MAX,
        ensures
            read is EndOfInput ==> (d is EndOfInput && *final(self) == *old(self)),
            read matches LineRead::Failed(e) ==> (d matches CliDecision::ReadFailed(f) && f == e
                && *final(self) == *old(self)),
            read matches LineRead::Line(l) ==> ({
                let c = trimmed_end(l@);
                &&& c.len() == 0 ==> (d is Skip && *final(self) == *old(self))
                &&& c == exit_command() ==> (d is ExitCommand && *final(self) == *old(self))
                &&& c.len() > 0 && c != exit_command() ==> {
                    &&& d matches CliDecision::Deliver(msg) && cli_message(
                        msg,
                        old(self).next_message_id,
                        c,
                    )
                    &&& final(self).next_message_id == old(self).next_message_id + 1
                }
            }),
    {
        match read {
            LineRead::EndOfInput => CliDecision::EndOfInput,
            LineRead::Failed(e) => CliDecision::ReadFailed(e),
            LineRead::Line(l) => {
                proof {
                    reveal_strlit("/exit");
                }
                let content = trim_end(l.as_str());
                if content.as_str().is_empty() {
                    return CliDecision::Skip;
                }
                if same_text(content.as_str(), "/exit") {
                    return CliDecision::ExitCommand;
                }
                let id = String::from_str("cli-msg-").concat(
                    to_decimal(self.next_message_id).as_str(),
                );
                let message = IncomingMessage {
                    kind: ChannelKind::Cli,
                    conversation_id: ConversationId(String::from_str("cli:default")),
                    participant_id: ParticipantId(String::from_str("cli:user")),
                    message_id: Some(MessageId(id)),
                    reply_to: None,
                    content,
                };
                self.next_message_id = self.next_message_id + 1;
                CliDecision::Deliver(HandleIncomingMessage { message })
            },
        }
    }
}

} // verus!
