//! The provider that talks to an OpenAI-compatible chat completions API.
//!
//! What goes over the network is the program's part. The library decides
//! what is asked: which system prompt, which messages as the prompt and
//! which as the preceding history, with which model and sampling settings;
//! and it reads the text out of what comes back.
use vstd::prelude::*;
use vstd::string::*;
use crate::agent::errors::ProviderError;
use crate::agent::messages::{GenerateCompletion, ProviderResponse};
use crate::agent::model::{ChatMessage, Role};
use crate::text::{parse_u64, parse_u64_spec};

verus! {

/// A sampling temperature, held as the bits of its IEEE 754 binary64
/// encoding (what `f64::to_bits` gives) together with the number as `{}`
/// prints it, which is how it is shown in messages.
#[derive(Debug, Clone, PartialEq, Eq)]
pub struct Temperature {
    pub bits: u64,
    pub text: String,
}

/// Whether the binary64 number with these bits is finite and lies in
/// `0.0..=2.0`. Among numbers with the sign bit clear, the bits are ordered
/// as the values are, and `2.0` is `0x4000_0000_0000_0000`; with the sign
/// bit set only `-0.0`, which equals `0.0`, lies in the range. Infinities
/// and NaNs have bits above `0x7ff0_0000_0000_0000` or the sign bit set.
pub open spec fn temperature_allowed(bits: u64) -> bool {
    bits <= 0x4000_0000_0000_0000 || bits == 0x8000_0000_0000_0000
}

/// The sign bit of a binary64 number.
pub open spec fn binary64_sign(bits: u64) -> u64 {
    bits >> 63u64
}

/// The biased exponent field of a binary64 number: `0x7ff` for infinities
/// and NaNs, else the power of two is this minus 1023 (minus 1022 for
/// subnormals, whose field is 0).
pub open spec fn binary64_exponent(bits: u64) -> u64 {
    (bits >> 52u64) & 0x7ffu64
}

/// The fraction field of a binary64 number.
pub open spec fn binary64_fraction(bits: u64) -> u64 {
    bits & 0xf_ffff_ffff_ffffu64
}

/// The number with these bits is finite and lies in `0.0..=2.0`: it is not
/// an infinity or a NaN; if positive, it is below `2.0` (exponent below
/// that of `2.0`, whose field is `0x400`) or is `2.0` itself; if negative,
/// it is `-0.0`.
pub open spec fn binary64_finite_in_zero_to_two(bits: u64) -> bool {
    &&& binary64_exponent(bits) != 0x7ff
    &&& binary64_sign(bits) == 0 ==> (binary64_exponent(bits) < 0x400 || (binary64_exponent(bits)
        == 0x400 && binary64_fraction(bits) == 0))
    &&& binary64_sign(bits) == 1 ==> (binary64_exponent(bits) == 0 && binary64_fraction(bits) == 0)
}

/// A temperature is allowed exactly when its number is finite and lies in
/// `0.0..=2.0`, read from the fields of its encoding.
pub proof fn law_temperature_allowed_is_float_range(bits: u64)
    ensures
        temperature_allowed(bits) <==> binary64_finite_in_zero_to_two(bits),
{
    assert((bits <= 0x4000_0000_0000_0000u64 || bits == 0x8000_0000_0000_0000u64) <==> ({
        &&& ((bits >> 52u64) & 0x7ffu64) != 0x7ffu64
        &&& (bits >> 63u64) == 0u64 ==> (((bits >> 52u64) & 0x7ffu64) < 0x400u64 || (((bits
            >> 52u64) & 0x7ffu64) == 0x400u64 && (bits & 0xf_ffff_ffff_ffffu64) == 0u64))
        &&& (bits >> 63u64) == 1u64 ==> (((bits >> 52u64) & 0x7ffu64) == 0u64 && (bits
            & 0xf_ffff_ffff_ffffu64) == 0u64)
    })) by (bit_vector);
}

impl Temperature {
    /// A copy of an optional temperature.
    pub fn copy_of(t: &Option<Temperature>) -> (r: Option<Temperature>)
        ensures
            r == *t,
    {
        match t {
            Some(t) => Some(Temperature { bits: t.bits, text: t.text.clone() }),
            None => None,
        }
    }

    /// Whether the temperature is finite and lies in `0.0..=2.0`.
    pub fn is_allowed(&self) -> (r: bool)
        ensures
            r == temperature_allowed(self.bits),
    {
        self.bits <= 0x4000_0000_0000_0000 || self.bits == 0x8000_0000_0000_0000
    }
}

/// How to reach and use an OpenAI-compatible API.
#[derive(Debug, Clone)]
pub struct OpenAiCompatibleProviderConfig {
    pub base_url: String,
    pub api_key: String,
    pub model: String,
    pub system_prompt: Option<String>,
    pub temperature: Option<Temperature>,
    pub max_tokens: Option<u64>,
}

/// The API key used where none is configured.
pub open spec fn default_api_key() -> Seq<char> {
    "dummy"@
}

impl OpenAiCompatibleProviderConfig {
    /// A configuration from its settings; a missing API key becomes
    /// `"dummy"`, as local servers need none.
    pub fn from_settings(
        base_url: String,
        api_key: Option<String>,
        model: String,
        system_prompt: Option<String>,
        temperature: Option<Temperature>,
        max_tokens: Option<u64>,
    ) -> (r: Self)
        ensures
            r.base_url == base_url,
            api_key matches Some(k) ==> r.api_key == k,
            api_key is None ==> r.api_key@ == default_api_key(),
            r.model == model,
            r.system_prompt == system_prompt,
            r.temperature == temperature,
            r.max_tokens == max_tokens,
    {
        let api_key = match api_key {
            Some(k) => k,
            None => String::from_str("dummy"),
        };
        OpenAiCompatibleProviderConfig {
            base_url,
            api_key,
            model,
            system_prompt,
            temperature,
            max_tokens,
        }
    }

    /// A configuration from the values of the `OPENAI_*` environment
    /// variables: none without a base URL and a model. A maximum token count
    /// that is not a number is left out; so is a temperature that is not one,
    /// which the caller passes as `None`.
    pub fn from_env_values(
        base_url: Option<String>,
        model: Option<String>,
        api_key: Option<String>,
        system_prompt: Option<String>,
        temperature: Option<Temperature>,
        max_tokens: Option<String>,
    ) -> (r: Option<Self>)
        ensures
            (base_url is None || model is None) <==> r is None,
            r matches Some(c) ==> {
                &&& Some(c.base_url) == base_url
                &&& Some(c.model) == model
                &&& api_key matches Some(k) ==> c.api_key == k
                &&& api_key is None ==> c.api_key@ == default_api_key()
                &&& c.system_prompt == system_prompt
                &&& c.temperature == temperature
                &&& c.max_tokens == match max_tokens {
                    Some(t) => parse_u64_spec(t@),
                    None => None,
                }
            },
    {
        let base_url = match base_url {
            Some(b) => b,
            None => return None,
        };
        let model = match model {
            Some(m) => m,
            None => return None,
        };
        let max_tokens = match max_tokens {
            Some(t) => parse_u64(t.as_str()),
            None => None,
        };
        Some(Self::from_settings(base_url, api_key, model, system_prompt, temperature, max_tokens))
    }
}

/// A message as the chat completions API takes it: from the user or from
/// the assistant.
#[derive(Debug, Clone, PartialEq, Eq)]
pub enum CompletionMessage {
    User(String),
    Assistant(String),
}

/// A part of the assistant's answer: text, or anything else (such as a
/// tool call).
#[derive(Debug, Clone, PartialEq, Eq)]
pub enum AssistantContentPart {
    Text(String),
    Other,
}

/// Everything a completion request is made of.
#[derive(Debug)]
pub struct CompletionPlan {
    pub model: String,
    pub preamble: Option<String>,
    pub prompt: CompletionMessage,
    pub history: Vec<CompletionMessage>,
    pub temperature: Option<Temperature>,
    pub max_tokens: Option<u64>,
}

/// The conversation in the form the API takes: system messages are left
/// out, the others keep their order.
pub open spec fn completion_messages(history: Seq<ChatMessage>) -> Seq<CompletionMessage>
    decreases history.len(),
{
    if history.len() == 0 {
        Seq::empty()
    } else {
        let rest = completion_messages(history.drop_last());
        let m = history.last();
        match m.role {
            Role::System => rest,
            Role::User => rest.push(CompletionMessage::User(m.content)),
            Role::Assistant => rest.push(CompletionMessage::Assistant(m.content)),
        }
    }
}

/// The texts among the parts of an answer, in order.
pub open spec fn text_parts(parts: Seq<AssistantContentPart>) -> Seq<Seq<char>>
    decreases parts.len(),
{
    if parts.len() == 0 {
        Seq::empty()
    } else {
        let rest = text_parts(parts.drop_last());
        match parts.last() {
            AssistantContentPart::Text(t) => rest.push(t@),
            AssistantContentPart::Other => rest,
        }
    }
}

/// The texts joined into one, with a line break between each two, as
/// `[String]::join("\n")` does.
pub open spec fn join_lines(texts: Seq<Seq<char>>) -> Seq<char>
    decreases texts.len(),
{
    if texts.len() == 0 {
        Seq::empty()
    } else if texts.len() == 1 {
        texts[0]
    } else {
        join_lines(texts.drop_last()) + "\n"@ + texts.last()
    }
}

/// The message the API takes for one chat message: none for a system
/// message, otherwise one from the same speaker with the same content.
pub open spec fn as_completion_message(m: ChatMessage) -> Option<CompletionMessage> {
    match m.role {
        Role::System => None,
        Role::User => Some(CompletionMessage::User(m.content)),
        Role::Assistant => Some(CompletionMessage::Assistant(m.content)),
    }
}

/// The full text of a part of an answer, if it is text.
pub open spec fn part_text(p: AssistantContentPart) -> Option<Seq<char>> {
    match p {
        AssistantContentPart::Text(t) => Some(t@),
        AssistantContentPart::Other => None,
    }
}

/// Only system messages are left out of what the API is sent: every user
/// and assistant message is kept, whole, with its speaker, in its order.
pub proof fn law_only_system_messages_dropped(history: Seq<ChatMessage>)
    ensures
        completion_messages(history) == history.filter_map(
            |m: ChatMessage| as_completion_message(m),
        ),
    decreases history.len(),
{
    if history.len() > 0 {
        law_only_system_messages_dropped(history.drop_last());
        let rest = history.drop_last().filter_map(|m: ChatMessage| as_completion_message(m));
        match as_completion_message(history.last()) {
            Some(c) => {
                assert(rest.push(c) =~= rest + seq![c]);
            },
            None => {},
        }
    }
}

/// A chat message that is not a system message is sent after the ones
/// before it, as a message from the same speaker with the same content.
pub proof fn law_non_system_message_appended(history: Seq<ChatMessage>, m: ChatMessage)
    requires
        m.role != Role::System,
    ensures
        completion_messages(history.push(m)).len() == completion_messages(history).len() + 1,
        completion_messages(history.push(m)).drop_last() == completion_messages(history),
        completion_messages(history.push(m)).last() == (if m.role == Role::User {
            CompletionMessage::User(m.content)
        } else {
            CompletionMessage::Assistant(m.content)
        }),
{
    assert(history.push(m).drop_last() =~= history);
    law_only_system_messages_dropped(history.push(m));
    law_only_system_messages_dropped(history);
    let rest = history.filter_map(|x: ChatMessage| as_completion_message(x));
    let c = as_completion_message(m)->0;
    assert((rest + seq![c]).drop_last() =~= rest);
}

/// The texts of an answer are the full texts of its text parts, in order;
/// no text is cut and nothing else is added.
pub proof fn law_text_parts_are_whole(parts: Seq<AssistantContentPart>)
    ensures
        text_parts(parts) == parts.filter_map(|p: AssistantContentPart| part_text(p)),
    decreases parts.len(),
{
    if parts.len() > 0 {
        law_text_parts_are_whole(parts.drop_last());
        let rest = parts.drop_last().filter_map(|p: AssistantContentPart| part_text(p));
        match part_text(parts.last()) {
            Some(t) => {
                assert(rest.push(t) =~= rest + seq![t]);
            },
            None => {},
        }
    }
}

/// Joining keeps every text whole: a single text is itself, and one more
/// text comes after a line break at the end of what the others give.
pub proof fn law_join_lines_keeps_texts_whole(texts: Seq<Seq<char>>, x: Seq<char>)
    ensures
        join_lines(Seq::<Seq<char>>::empty()).len() == 0,
        join_lines(seq![x]) == x,
        texts.len() > 0 ==> join_lines(texts.push(x)) == join_lines(texts) + "\n"@ + x,
        texts.len() > 0 ==> join_lines(texts.push(x)).len() == join_lines(texts).len() + 1
            + x.len(),
{
    reveal_strlit("\n");
    assert(seq![x].len() == 1);
    assert(texts.push(x).drop_last() =~= texts);
}

/// An answer made of one text gives that text, whole.
pub proof fn law_single_text_answer(t: String)
    ensures
        join_lines(text_parts(seq![AssistantContentPart::Text(t)])) == t@,
{
    let parts = seq![AssistantContentPart::Text(t)];
    assert(parts.drop_last() =~= Seq::<AssistantContentPart>::empty());
    assert(parts.last() == AssistantContentPart::Text(t));
    assert(text_parts(parts.drop_last()) =~= Seq::<Seq<char>>::empty());
    assert(text_parts(parts) =~= seq![t@]);
}

/// The text of the error for a request without chat messages.
pub open spec fn no_messages_text() -> Seq<char> {
    "provider request did not contain any chat messages"@
}

/// The text of the error for an answer without text.
pub open spec fn no_text_text() -> Seq<char> {
    "provider response did not contain text content"@
}

/// The system prompt of a request: its own, else the configured one.
pub open spec fn resolved_system_prompt(
    request: Option<String>,
    configured: Option<String>,
) -> Option<String> {
    match request {
        Some(p) => Some(p),
        None => configured,
    }
}

/// rig's client, generic over its provider extension and HTTP client.
#[verifier::external_type_specification]
#[verifier::external_body]
#[verifier::reject_recursive_types(Ext)]
#[verifier::reject_recursive_types(H)]
pub struct ExRigClient<Ext, H>(rig::client::Client<Ext, H>);

/// rig's marker for OpenAI's chat completions API.
#[verifier::external_type_specification]
#[verifier::external_body]
pub struct ExOpenAICompletionsExt(rig::providers::openai::OpenAICompletionsExt);

/// The HTTP client rig sends requests with (reqwest's).
#[verifier::external_type_specification]
#[verifier::external_body]
pub struct ExReqwestClient(rig::http_client::ReqwestClient);

/// Builds the HTTP client that rig sends requests with
/// (`reqwest::Client::builder().build()`); a failure, such as TLS that
/// cannot be set up on this machine, comes back as its text. Nothing is
/// stated of the outcome: it depends on the machine.
#[verifier::external_body]
fn build_http_client() -> (r: Result<rig::http_client::ReqwestClient, String>) {
    match rig::http_client::ReqwestClient::builder().build() {
        Ok(http) => Ok(http),
        Err(e) => Err(e.to_string()),
    }
}

/// Builds rig's OpenAI client on `http` for `api_key` and `base_url`
/// (`rig::providers::openai::Client::builder().api_key(..).base_url(..)
/// .http_client(..).build()`), switches it to the chat completions API
/// (`completions_api`) and pairs it with the key and URL it was built for; a
/// failure comes back as its text. Whether the build succeeds is not
/// stated.
#[verifier::external_body]
fn build_completions_client(
    api_key: &str,
    base_url: &str,
    http: rig::http_client::ReqwestClient,
) -> (r: Result<OpenAiClient, String>)
    ensures
        r matches Ok(c) ==> c.api_key@ == api_key@ && c.base_url@ == base_url@,
{
    let builder = rig::providers::openai::Client::builder().api_key(api_key).base_url(base_url);
    match builder.http_client(http).build() {
        Ok(client) => Ok(
            OpenAiClient {
                inner: client.completions_api(),
                api_key: api_key.to_string(),
                base_url: base_url.to_string(),
            },
        ),
        Err(e) => Err(e.to_string()),
    }
}

/// A client of the chat completions API, with the API key and base URL it
/// was built for.
pub struct OpenAiClient {
    pub inner: rig::providers::openai::CompletionsClient,
    pub api_key: String,
    pub base_url: String,
}

/// The text of the error for a client that could not be built.
pub open spec fn client_build_failed_text(detail: Seq<char>) -> Seq<char> {
    "failed to build OpenAI-compatible client: "@ + detail
}

/// A request's own system prompt wins; without one the configured prompt
/// is used, and without either there is none.
pub proof fn law_request_prompt_wins(request: Option<String>, configured: Option<String>)
    ensures
        request matches Some(p) ==> resolved_system_prompt(request, configured) == Some(p),
        request is None ==> resolved_system_prompt(request, configured) == configured,
{
}

/// The provider: its configuration and the client it reaches the API with.
pub struct OpenAiCompatibleProvider {
    pub config: OpenAiCompatibleProviderConfig,
    pub client: OpenAiClient,
}

impl OpenAiCompatibleProvider {
    /// A provider for `config`, with a client built for its API key and
    /// base URL. Whether the client can be built depends on the machine:
    /// either the provider keeps the configuration and a client built for
    /// its key and URL, or the failure is reported.
    pub fn new(config: OpenAiCompatibleProviderConfig) -> (r: Result<Self, ProviderError>)
        ensures
            r matches Ok(p) ==> {
                &&& p.config == config
                &&& p.client.api_key@ == config.api_key@
                &&& p.client.base_url@ == config.base_url@
            },
            r matches Err(e) ==> (e matches ProviderError::General(m) && exists|d: Seq<char>|
                m@ == #[trigger] client_build_failed_text(d)),
    {
        let built = match build_http_client() {
            Ok(http) => build_completions_client(
                config.api_key.as_str(),
                config.base_url.as_str(),
                http,
            ),
            Err(e) => Err(e),
        };
        Self::with_client(config, built)
    }

    /// A provider from its configuration and the outcome of building its
    /// client, whose error is given as its text.
    pub fn with_client(
        config: OpenAiCompatibleProviderConfig,
        client: Result<OpenAiClient, String>,
    ) -> (r: Result<Self, ProviderError>)
        ensures
            client matches Ok(c) ==> (r matches Ok(p) && p.config == config && p.client == c),
            client matches Err(e) ==> (r matches Err(ProviderError::General(m)) && m@
                == client_build_failed_text(e@)),
    {
        match client {
            Ok(client) => Ok(OpenAiCompatibleProvider { config, client }),
            Err(e) => {
                let m = String::from_str("failed to build OpenAI-compatible client: ").concat(
                    e.as_str(),
                );
                Err(ProviderError::General(m))
            },
        }
    }

    /// The conversation in the form the API takes: system messages are left
    /// out.
    pub fn map_messages(history: Vec<ChatMessage>) -> (r: Vec<CompletionMessage>)
        ensures
            r@ == completion_messages(history@),
    {
        let mut out: Vec<CompletionMessage> = Vec::new();
        let n = history.len();
        let mut i: usize = 0;
        while i < n
            invariant
                n == history@.len(),
                i <= n,
                out@ == completion_messages(history@.take(i as int)),
            decreases n - i,
        {
            assert(history@.take(i + 1).drop_last() =~= history@.take(i as int));
            assert(history@.take(i + 1).last() == history@[i as int]);
            let m = &history[i];
            match m.role {
                Role::System => {},
                Role::User => {
                    out.push(CompletionMessage::User(m.content.clone()));
                },
                Role::Assistant => {
                    out.push(CompletionMessage::Assistant(m.content.clone()));
                },
            }
            i = i + 1;
        }
        assert(history@.take(n as int) =~= history@);
        out
    }

    /// The system prompt of a request: its own, else the configured one.
    pub fn resolve_system_prompt(&self, request: &GenerateCompletion) -> (r: Option<String>)
        ensures
            r == resolved_system_prompt(request.system_prompt, self.config.system_prompt),
    {
        match &request.system_prompt {
            Some(p) => Some(p.clone()),
            None => match &self.config.system_prompt {
                Some(p) => Some(p.clone()),
                None => None,
            },
        }
    }

    /// The last message becomes the prompt; those before it are the
    /// history.
    pub fn split_prompt_and_history(history: Vec<CompletionMessage>) -> (r: Result<
        (CompletionMessage, Vec<CompletionMessage>),
        ProviderError,
    >)
        ensures
            history@.len() == 0 ==> (r matches Err(ProviderError::General(m)) && m@
                == no_messages_text()),
            history@.len() > 0 ==> (r matches Ok((p, h)) && p == history@.last() && h@
                == history@.drop_last()),
    {
        let mut history = history;
        match history.pop() {
            Some(prompt) => Ok((prompt, history)),
            None => Err(
                ProviderError::General(
                    String::from_str("provider request did not contain any chat messages"),
                ),
            ),
        }
    }

    /// The text of an answer: its text parts joined by line breaks. An
    /// answer whose text comes to nothing is an error.
    pub fn extract_text(parts: Vec<AssistantContentPart>) -> (r: Result<String, ProviderError>)
        ensures
            join_lines(text_parts(parts@)).len() > 0 ==> (r matches Ok(t) && t@ == join_lines(
                text_parts(parts@),
            )),
            join_lines(text_parts(parts@)).len() == 0 ==> (r matches Err(ProviderError::General(m))
                && m@ == no_text_text()),
    {
        let mut acc = String::new();
        let mut count: usize = 0;
        let n = parts.len();
        let mut i: usize = 0;
        while i < n
            invariant
                n == parts@.len(),
                i <= n,
                count == text_parts(parts@.take(i as int)).len(),
                count <= i,
                acc@ == join_lines(text_parts(parts@.take(i as int))),
            decreases n - i,
        {
            let ghost before = text_parts(parts@.take(i as int));
            assert(parts@.take(i + 1).drop_last() =~= parts@.take(i as int));
            assert(parts@.take(i + 1).last() == parts@[i as int]);
            match &parts[i] {
                AssistantContentPart::Text(t) => {
                    proof {
                        let after = before.push(t@);
                        assert(after.drop_last() =~= before);
                    }
                    if count > 0 {
                        acc.append("\n");
                    }
                    acc.append(t.as_str());
                    count = count + 1;
                },
                AssistantContentPart::Other => {},
            }
            i = i + 1;
        }
        assert(parts@.take(n as int) =~= parts@);
        if acc.as_str().is_empty() {
            return Err(
                ProviderError::General(
                    String::from_str("provider response did not contain text content"),
                ),
            );
        }
        Ok(acc)
    }

    /// The response for an answer made of `parts`.
    pub fn completion_response(parts: Vec<AssistantContentPart>) -> (r: Result<
        ProviderResponse,
        ProviderError,
    >)
        ensures
            join_lines(text_parts(parts@)).len() > 0 ==> (r matches Ok(resp) && resp.content@
                == join_lines(text_parts(parts@))),
            join_lines(text_parts(parts@)).len() == 0 ==> (r matches Err(ProviderError::General(m))
                && m@ == no_text_text()),
    {
        let content = Self::extract_text(parts)?;
        Ok(ProviderResponse { content })
    }

    /// The error for a request that the API did not answer; `detail` is the
    /// text of what went wrong.
    pub fn request_failed(detail: &str) -> (r: ProviderError)
        ensures
            r matches ProviderError::General(m) && m@ == "provider request failed: "@ + detail@,
    {
        ProviderError::General(String::from_str("provider request failed: ").concat(detail))
    }

    /// What to ask the API for a completion request: the configured model
    /// and settings, the resolved system prompt, the last message of the
    /// conversation as the prompt and the ones before it as history.
    pub fn plan_completion(&self, msg: GenerateCompletion) -> (r: Result<
        CompletionPlan,
        ProviderError,
    >)
        ensures
            completion_messages(msg.history@).len() == 0 ==> (r matches Err(
                ProviderError::General(m),
            ) && m@ == no_messages_text()),
            completion_messages(msg.history@).len() > 0 ==> (r matches Ok(plan) && {
                &&& plan.model == self.config.model
                &&& plan.preamble == resolved_system_prompt(
                    msg.system_prompt,
                    self.config.system_prompt,
                )
                &&& plan.prompt == completion_messages(msg.history@).last()
                &&& plan.history@ == completion_messages(msg.history@).drop_last()
                &&& plan.temperature == self.config.temperature
                &&& plan.max_tokens == self.config.max_tokens
            }),
    {
        let preamble = self.resolve_system_prompt(&msg);
        let mapped = Self::map_messages(msg.history);
        let (prompt, history) = Self::split_prompt_and_history(mapped)?;
        Ok(
            CompletionPlan {
                model: self.config.model.clone(),
                preamble,
                prompt,
                history,
                temperature: Temperature::copy_of(&self.config.temperature),
                max_tokens: self.config.max_tokens,
            },
        )
    }
}

} // verus!
