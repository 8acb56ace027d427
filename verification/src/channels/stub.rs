//! A channel that only shows what would have been sent.
use vstd::prelude::*;
use vstd::string::*;
use crate::agent::messages::DispatchOutgoingMessage;
use crate::agent::model::{channel_kind_name, ChannelKind};

verus! {

/// A channel that writes outgoing messages to the terminal in a framed
/// block instead of sending them anywhere.
pub struct StubChannel;

/// The rule above and below the block.
pub open spec fn stub_rule() -> Seq<char> {
    "--------------------------------------------------\n"@
}

/// The block the stub channel shows for a message of `kind` in the
/// conversation `conversation` with `content`.
pub open spec fn stub_block(kind: ChannelKind, conversation: Seq<char>, content: Seq<char>) -> Seq<
    char,
> {
    stub_rule() + "Stub Channel outgoing message for "@ + channel_kind_name(kind)
        + " conversation "@ + conversation + ": \n"@ + "  >>> "@ + content + "\n"@ + stub_rule()
}

/// The block shows the whole content, between the header line and the
/// closing rule.
pub proof fn law_stub_block_shows_whole_content(
    kind: ChannelKind,
    conversation: Seq<char>,
    content: Seq<char>,
)
    ensures
        ({
            let start = 51 + 34 + channel_kind_name(kind).len() + 14 + conversation.len() + 3 + 6;
            &&& stub_block(kind, conversation, content).len() == start + content.len() + 1 + 51
            &&& stub_block(kind, conversation, content).subrange(start as int, (start + content.len()) as int)
                == content
            &&& stub_block(kind, conversation, content).take(51) == stub_rule()
        }),
{
    reveal_strlit("--------------------------------------------------\n");
    reveal_strlit("Stub Channel outgoing message for ");
    reveal_strlit(" conversation ");
    reveal_strlit(": \n");
    reveal_strlit("  >>> ");
    reveal_strlit("\n");
    let start = 51 + 34 + channel_kind_name(kind).len() + 14 + conversation.len() + 3 + 6;
    let b = stub_block(kind, conversation, content);
    assert(b.subrange(start as int, (start + content.len()) as int) =~= content);
    assert(b.take(51) =~= stub_rule());
}

impl StubChannel {
    /// The block shown for an outgoing message.
    pub fn render(&self, msg: &DispatchOutgoingMessage) -> (r: String)
        ensures
            r@ == stub_block(
                msg.message.kind,
                msg.message.conversation_id.0@,
                msg.message.content@,
            ),
    {
        let rule = "--------------------------------------------------\n";
        String::from_str(rule).concat("Stub Channel outgoing message for ").concat(
            msg.message.kind.name(),
        ).concat(" conversation ").concat(msg.message.conversation_id.0.as_str()).concat(
            ": \n",
        ).concat("  >>> ").concat(msg.message.content.as_str()).concat("\n").concat(rule)
    }
}

} // verus!
