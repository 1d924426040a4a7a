use lm_runner::error::RunnerError;
use lm_runner::provider::LanguageModelProviderName;
use lm_runner::runner::{LanguageModelProvider, LanguageModelRunner};

#[test]
fn route_to_registered_executor() {
    let runner = LanguageModelRunner::with_all_providers();
    let r = runner.route("bedrock:anthropic.haiku-3:v1").unwrap();
    assert_eq!(r.executor, LanguageModelProvider::Bedrock);
    assert_eq!(r.provider_name, LanguageModelProviderName::Bedrock);
    assert_eq!(r.model_name, "anthropic.haiku-3:v1");
    let r = runner.route("openai-azure:gpt-4o").unwrap();
    assert_eq!(r.executor, LanguageModelProvider::OpenAIAzure);
    assert_eq!(r.model_name, "gpt-4o");
}

#[test]
fn route_every_provider() {
    let runner = LanguageModelRunner::with_all_providers();
    for tag in ["anthropic", "mistral", "openai", "openai-azure", "gemini", "groq", "bedrock"] {
        let r = runner.route(&format!("{}:m", tag)).unwrap();
        assert_eq!(r.provider_name.tag(), tag);
        assert_eq!(r.executor.provider_name(), r.provider_name);
        assert_eq!(r.model_name, "m");
    }
}

#[test]
fn route_rejects_malformed_before_lookup() {
    let runner = LanguageModelRunner::new(Vec::new());
    assert!(matches!(runner.route("openai"), Err(RunnerError::InvalidFormat)));
    assert!(matches!(runner.route("made-up:"), Err(RunnerError::InvalidFormat)));
}

#[test]
fn route_rejects_unknown_provider() {
    let runner = LanguageModelRunner::with_all_providers();
    match runner.route("made-up:model") {
        Err(RunnerError::UnknownProvider(t)) => assert_eq!(t, "made-up"),
        other => panic!("unexpected {:?}", other),
    }
}

#[test]
fn route_reports_missing_executor() {
    let runner = LanguageModelRunner::new(vec![(
        LanguageModelProviderName::Groq,
        LanguageModelProvider::Groq,
    )]);
    assert!(matches!(runner.route("openai:gpt-4"), Err(RunnerError::ExecutorMissing)));
    assert!(runner.route("groq:llama").is_ok());
}

#[test]
fn later_registration_wins() {
    let runner = LanguageModelRunner::new(vec![
        (LanguageModelProviderName::Groq, LanguageModelProvider::Groq),
        (LanguageModelProviderName::Groq, LanguageModelProvider::Mistral),
    ]);
    assert_eq!(
        runner.executor_for(LanguageModelProviderName::Groq),
        Some(LanguageModelProvider::Mistral)
    );
    assert_eq!(runner.executor_for(LanguageModelProviderName::OpenAI), None);
}

#[test]
fn executor_identity_and_pricing_key() {
    for p in [
        LanguageModelProviderName::Anthropic,
        LanguageModelProviderName::Mistral,
        LanguageModelProviderName::OpenAI,
        LanguageModelProviderName::OpenAIAzure,
        LanguageModelProviderName::Gemini,
        LanguageModelProviderName::Groq,
        LanguageModelProviderName::Bedrock,
    ] {
        let e = LanguageModelProvider::for_provider(p);
        assert_eq!(e.provider_name(), p);
        assert_eq!(e.db_provider_name(), p.tag());
    }
}
