//! A provider that echoes the last message of the conversation back.
use vstd::prelude::*;
use vstd::string::*;
use crate::agent::errors::ProviderError;
use crate::agent::messages::{GenerateCompletion, ProviderResponse};
use crate::agent::model::ChatMessage;

verus! {

/// A provider that needs no model: it answers with the last message of the
/// conversation it is given.
pub struct StubProvider;

/// What the stub answers to a conversation whose messages have the
/// contents `history`.
pub open spec fn echo_text(history: Seq<Seq<char>>) -> Seq<char> {
    "[Echo from Provider] "@ + if history.len() > 0 {
        history.last()
    } else {
        "No input provided"@
    }
}

/// The stub answers with the content of the last message, whole, after
/// its marker; only a conversation without messages gets "No input
/// provided".
pub proof fn law_stub_echoes_last_message(history: Seq<Seq<char>>)
    ensures
        history.len() > 0 ==> echo_text(history) == "[Echo from Provider] "@ + history[history.len()
            - 1],
        history.len() > 0 ==> echo_text(history).len() == 21 + history[history.len() - 1].len(),
        history.len() == 0 ==> echo_text(history) == "[Echo from Provider] No input provided"@,
{
    reveal_strlit("[Echo from Provider] ");
    reveal_strlit("No input provided");
    reveal_strlit("[Echo from Provider] No input provided");
    assert("[Echo from Provider] "@ + "No input provided"@ =~= "[Echo from Provider] No input provided"@);
}

impl StubProvider {
    /// Answers a completion request; the stub never fails.
    pub fn handle(&self, msg: &GenerateCompletion) -> (r: Result<ProviderResponse, ProviderError>)
        ensures
            r matches Ok(resp) && resp.content@ == echo_text(
                msg.history@.map_values(|m: ChatMessage| m.content@),
            ),
    {
        let n = msg.history.len();
        let last = if n > 0 {
            msg.history[n - 1].content.as_str()
        } else {
            "No input provided"
        };
        let content = String::from_str("[Echo from Provider] ").concat(last);
        Ok(ProviderResponse { content })
    }
}

} // verus!
