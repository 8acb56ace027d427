use zarigani::agent::errors::ProviderError;
use zarigani::agent::messages::GenerateCompletion;
use zarigani::agent::model::{ChatMessage, ConversationId, Role};
use zarigani::providers::openai::{
    AssistantContentPart, CompletionMessage, OpenAiCompatibleProvider,
    OpenAiCompatibleProviderConfig, Temperature,
};
use zarigani::providers::stub::StubProvider;

fn temp(t: f64) -> Temperature {
    Temperature { bits: t.to_bits(), text: t.to_string() }
}

fn msg(role: Role, content: &str) -> ChatMessage {
    ChatMessage { role, content: content.to_string() }
}

fn config(system_prompt: Option<&str>) -> OpenAiCompatibleProviderConfig {
    OpenAiCompatibleProviderConfig::from_settings(
        "http://127.0.0.1:8080/v1".to_string(),
        Some("key".to_string()),
        "local-model".to_string(),
        system_prompt.map(|s| s.to_string()),
        Some(temp(0.7)),
        Some(1024),
    )
}

fn provider(system_prompt: Option<&str>) -> OpenAiCompatibleProvider {
    OpenAiCompatibleProvider::new(config(system_prompt)).unwrap()
}

type P = OpenAiCompatibleProvider;

#[test]
fn stub_echoes_last_message() {
    let req = GenerateCompletion {
        conversation_id: ConversationId("c".to_string()),
        history: vec![msg(Role::User, "first"), msg(Role::User, "second")],
        system_prompt: None,
    };
    assert_eq!(StubProvider.handle(&req).unwrap().content, "[Echo from Provider] second");
    let empty = GenerateCompletion {
        conversation_id: ConversationId("c".to_string()),
        history: vec![],
        system_prompt: None,
    };
    assert_eq!(
        StubProvider.handle(&empty).unwrap().content,
        "[Echo from Provider] No input provided"
    );
}

#[test]
fn map_messages_drops_system_and_keeps_order() {
    let mapped = P::map_messages(vec![
        msg(Role::System, "sys"),
        msg(Role::User, "u1"),
        msg(Role::Assistant, "a1"),
        msg(Role::System, "sys2"),
        msg(Role::User, "u2"),
    ]);
    assert_eq!(
        mapped,
        vec![
            CompletionMessage::User("u1".to_string()),
            CompletionMessage::Assistant("a1".to_string()),
            CompletionMessage::User("u2".to_string()),
        ]
    );
    assert!(P::map_messages(vec![]).is_empty());
}

#[test]
fn system_prompt_resolution() {
    let with = GenerateCompletion {
        conversation_id: ConversationId("c".to_string()),
        history: vec![],
        system_prompt: Some("request".to_string()),
    };
    let without = GenerateCompletion {
        conversation_id: ConversationId("c".to_string()),
        history: vec![],
        system_prompt: None,
    };
    assert_eq!(provider(Some("config")).resolve_system_prompt(&with), Some("request".to_string()));
    assert_eq!(provider(Some("config")).resolve_system_prompt(&without), Some("config".to_string()));
    assert_eq!(provider(None).resolve_system_prompt(&without), None);
}

#[test]
fn split_prompt_and_history_cases() {
    let (p, h) = P::split_prompt_and_history(vec![
        CompletionMessage::User("a".to_string()),
        CompletionMessage::Assistant("b".to_string()),
        CompletionMessage::User("c".to_string()),
    ])
    .unwrap();
    assert_eq!(p, CompletionMessage::User("c".to_string()));
    assert_eq!(h.len(), 2);
    match P::split_prompt_and_history(vec![]) {
        Err(ProviderError::General(m)) => {
            assert_eq!(m, "provider request did not contain any chat messages")
        }
        other => panic!("unexpected {:?}", other),
    }
}

#[test]
fn extract_text_joins_text_parts() {
    let t = |s: &str| AssistantContentPart::Text(s.to_string());
    assert_eq!(P::extract_text(vec![t("one")]).unwrap(), "one");
    assert_eq!(
        P::extract_text(vec![t("one"), AssistantContentPart::Other, t("two")]).unwrap(),
        "one\ntwo"
    );
    assert_eq!(P::extract_text(vec![t(""), t("")]).unwrap(), "\n");
    for parts in [vec![], vec![AssistantContentPart::Other], vec![t("")]] {
        match P::extract_text(parts) {
            Err(ProviderError::General(m)) => {
                assert_eq!(m, "provider response did not contain text content")
            }
            other => panic!("unexpected {:?}", other),
        }
    }
    assert_eq!(P::completion_response(vec![t("x"), t("y")]).unwrap().content, "x\ny");
}

#[test]
fn new_reports_client_failures() {
    match OpenAiCompatibleProvider::with_client(config(None), Err("bad url".to_string())) {
        Err(ProviderError::General(m)) => {
            assert_eq!(m, "failed to build OpenAI-compatible client: bad url")
        }
        _ => panic!("expected an error"),
    }
    match P::request_failed("timeout") {
        ProviderError::General(m) => assert_eq!(m, "provider request failed: timeout"),
        other => panic!("unexpected {:?}", other),
    }
}

#[test]
fn plan_completion_uses_config_and_last_message() {
    let p = provider(Some("config prompt"));
    let plan = p
        .plan_completion(GenerateCompletion {
            conversation_id: ConversationId("c".to_string()),
            history: vec![msg(Role::User, "q1"), msg(Role::Assistant, "a1"), msg(Role::User, "q2")],
            system_prompt: None,
        })
        .unwrap();
    assert_eq!(plan.model, "local-model");
    assert_eq!(plan.preamble, Some("config prompt".to_string()));
    assert_eq!(plan.prompt, CompletionMessage::User("q2".to_string()));
    assert_eq!(
        plan.history,
        vec![
            CompletionMessage::User("q1".to_string()),
            CompletionMessage::Assistant("a1".to_string())
        ]
    );
    assert_eq!(plan.temperature, Some(temp(0.7)));
    assert_eq!(plan.max_tokens, Some(1024));
    match p.plan_completion(GenerateCompletion {
        conversation_id: ConversationId("c".to_string()),
        history: vec![msg(Role::System, "only system")],
        system_prompt: None,
    }) {
        Err(ProviderError::General(m)) => {
            assert_eq!(m, "provider request did not contain any chat messages")
        }
        _ => panic!("expected an error"),
    }
}

#[test]
fn api_key_defaults_to_dummy() {
    let c = OpenAiCompatibleProviderConfig::from_settings(
        "u".to_string(),
        None,
        "m".to_string(),
        None,
        None,
        None,
    );
    assert_eq!(c.api_key, "dummy");
    assert_eq!(config(None).api_key, "key");
}

#[test]
fn config_from_environment_values() {
    let s = |v: &str| Some(v.to_string());
    assert!(OpenAiCompatibleProviderConfig::from_env_values(None, s("m"), None, None, None, None)
        .is_none());
    assert!(OpenAiCompatibleProviderConfig::from_env_values(s("u"), None, None, None, None, None)
        .is_none());
    let c = OpenAiCompatibleProviderConfig::from_env_values(
        s("u"),
        s("m"),
        None,
        s("prompt"),
        Some(temp(1.5)),
        s("256"),
    )
    .unwrap();
    assert_eq!(c.base_url, "u");
    assert_eq!(c.model, "m");
    assert_eq!(c.api_key, "dummy");
    assert_eq!(c.system_prompt, s("prompt"));
    assert_eq!(c.temperature, Some(temp(1.5)));
    assert_eq!(c.max_tokens, Some(256));
    let c = OpenAiCompatibleProviderConfig::from_env_values(
        s("u"),
        s("m"),
        s("k"),
        None,
        None,
        s("many"),
    )
    .unwrap();
    assert_eq!(c.api_key, "k");
    assert_eq!(c.max_tokens, None);
}

#[test]
fn new_builds_a_client_for_the_configured_key_and_url() {
    let p = OpenAiCompatibleProvider::new(config(Some("sp"))).unwrap();
    assert_eq!(p.config.base_url, "http://127.0.0.1:8080/v1");
    assert_eq!(p.config.api_key, "key");
    assert_eq!(p.config.model, "local-model");
    assert_eq!(p.config.system_prompt, Some("sp".to_string()));
    assert_eq!(p.client.api_key, "key");
    assert_eq!(p.client.base_url, "http://127.0.0.1:8080/v1");
    assert_eq!(p.client.inner.base_url(), "http://127.0.0.1:8080/v1");
    let q = OpenAiCompatibleProvider::with_client(config(None), Ok(p.client)).unwrap();
    assert_eq!(q.config.model, "local-model");
    assert_eq!(q.client.api_key, "key");
}
