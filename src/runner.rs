use vstd::prelude::*;
use crate::error::RunnerError;
use crate::model_id::{parse_model_id, split_model};
use crate::provider::{provider_of_tag, LanguageModelProviderName};

verus! {

/// A backend executor: an immutable handle for one provider family.
#[derive(Debug, Clone, Copy, PartialEq, Eq, Hash, Structural)]
pub enum LanguageModelProvider {
    Anthropic,
    Gemini,
    Groq,
    Mistral,
    OpenAI,
    OpenAIAzure,
    Bedrock,
}

/// The key under which an executor's prices are stored.
pub open spec fn db_provider_name_of(e: LanguageModelProvider) -> Seq<char> {
    match e {
        LanguageModelProvider::Anthropic => "anthropic"@,
        LanguageModelProvider::Gemini => "gemini"@,
        LanguageModelProvider::Groq => "groq"@,
        LanguageModelProvider::Mistral => "mistral"@,
        LanguageModelProvider::OpenAI => "openai"@,
        LanguageModelProvider::OpenAIAzure => "openai-azure"@,
        LanguageModelProvider::Bedrock => "bedrock"@,
    }
}

impl LanguageModelProvider {
    /// The executor that serves a provider identity.
    pub fn for_provider(name: LanguageModelProviderName) -> (r: LanguageModelProvider)
        ensures
            r == Self::for_provider_spec(name),
            r.provider_name_spec() == name,
    {
        match name {
            LanguageModelProviderName::Anthropic => LanguageModelProvider::Anthropic,
            LanguageModelProviderName::Mistral => LanguageModelProvider::Mistral,
            LanguageModelProviderName::OpenAI => LanguageModelProvider::OpenAI,
            LanguageModelProviderName::OpenAIAzure => LanguageModelProvider::OpenAIAzure,
            LanguageModelProviderName::Gemini => LanguageModelProvider::Gemini,
            LanguageModelProviderName::Groq => LanguageModelProvider::Groq,
            LanguageModelProviderName::Bedrock => LanguageModelProvider::Bedrock,
        }
    }

    /// The executor that serves a provider identity.
    pub open spec fn for_provider_spec(name: LanguageModelProviderName) -> LanguageModelProvider {
        match name {
            LanguageModelProviderName::Anthropic => LanguageModelProvider::Anthropic,
            LanguageModelProviderName::Mistral => LanguageModelProvider::Mistral,
            LanguageModelProviderName::OpenAI => LanguageModelProvider::OpenAI,
            LanguageModelProviderName::OpenAIAzure => LanguageModelProvider::OpenAIAzure,
            LanguageModelProviderName::Gemini => LanguageModelProvider::Gemini,
            LanguageModelProviderName::Groq => LanguageModelProvider::Groq,
            LanguageModelProviderName::Bedrock => LanguageModelProvider::Bedrock,
        }
    }

    /// The provider identity this executor serves.
    pub open spec fn provider_name_spec(self) -> LanguageModelProviderName {
        match self {
            LanguageModelProvider::Anthropic => LanguageModelProviderName::Anthropic,
            LanguageModelProvider::Gemini => LanguageModelProviderName::Gemini,
            LanguageModelProvider::Groq => LanguageModelProviderName::Groq,
            LanguageModelProvider::Mistral => LanguageModelProviderName::Mistral,
            LanguageModelProvider::OpenAI => LanguageModelProviderName::OpenAI,
            LanguageModelProvider::OpenAIAzure => LanguageModelProviderName::OpenAIAzure,
            LanguageModelProvider::Bedrock => LanguageModelProviderName::Bedrock,
        }
    }

    /// The provider identity this executor serves.
    pub fn provider_name(&self) -> (r: LanguageModelProviderName)
        ensures
            r == self.provider_name_spec(),
    {
        match self {
            LanguageModelProvider::Anthropic => LanguageModelProviderName::Anthropic,
            LanguageModelProvider::Gemini => LanguageModelProviderName::Gemini,
            LanguageModelProvider::Groq => LanguageModelProviderName::Groq,
            LanguageModelProvider::Mistral => LanguageModelProviderName::Mistral,
            LanguageModelProvider::OpenAI => LanguageModelProviderName::OpenAI,
            LanguageModelProvider::OpenAIAzure => LanguageModelProviderName::OpenAIAzure,
            LanguageModelProvider::Bedrock => LanguageModelProviderName::Bedrock,
        }
    }

    /// The key under which this executor's prices are stored.
    pub fn db_provider_name(&self) -> (r: &'static str)
        ensures
            r@ == db_provider_name_of(*self),
    {
        match self {
            LanguageModelProvider::Anthropic => "anthropic",
            LanguageModelProvider::Gemini => "gemini",
            LanguageModelProvider::Groq => "groq",
            LanguageModelProvider::Mistral => "mistral",
            LanguageModelProvider::OpenAI => "openai",
            LanguageModelProvider::OpenAIAzure => "openai-azure",
            LanguageModelProvider::Bedrock => "bedrock",
        }
    }
}

/// The executor registered for `name`: a later registration replaces an earlier one.
pub open spec fn registered(
    models: Seq<(LanguageModelProviderName, LanguageModelProvider)>,
    name: LanguageModelProviderName,
) -> Option<LanguageModelProvider>
    decreases models.len(),
{
    if models.len() == 0 {
        None
    } else if models.last().0 == name {
        Some(models.last().1)
    } else {
        registered(models.drop_last(), name)
    }
}

/// Where a completion request goes: the executor, the provider identity and
/// the provider-local model name.
#[derive(Debug, Clone)]
pub struct CompletionRoute {
    pub executor: LanguageModelProvider,
    pub provider_name: LanguageModelProviderName,
    pub model_name: String,
}

/// What routing a model identifier gives against a registry.
pub open spec fn route_outcome(
    models: Seq<(LanguageModelProviderName, LanguageModelProvider)>,
    model: Seq<char>,
    r: Result<CompletionRoute, RunnerError>,
) -> bool {
    match parse_model_id(model) {
        None => r == Err::<CompletionRoute, RunnerError>(RunnerError::InvalidFormat),
        Some((tag, name)) => match provider_of_tag(tag) {
            None => r matches Err(RunnerError::UnknownProvider(t)) && t@ == tag,
            Some(p) => match registered(models, p) {
                None => r == Err::<CompletionRoute, RunnerError>(RunnerError::ExecutorMissing),
                Some(e) => r matches Ok(c) && c.executor == e && c.provider_name == p
                    && c.model_name@ == name,
            },
        },
    }
}

/// The entry point: a registry from provider identity to backend executor,
/// built once and read-only afterwards.
pub struct LanguageModelRunner {
    pub models: Vec<(LanguageModelProviderName, LanguageModelProvider)>,
}

impl LanguageModelRunner {
    /// A runner over the given registrations.
    pub fn new(models: Vec<(LanguageModelProviderName, LanguageModelProvider)>) -> (r: Self)
        ensures
            r.models@ == models@,
    {
        Self { models }
    }

    /// A runner with each provider's own executor registered.
    pub fn with_all_providers() -> (r: Self)
        ensures
            forall|p: LanguageModelProviderName| #[trigger] registered(r.models@, p) == Some(
                LanguageModelProvider::for_provider_spec(p),
            ),
    {
        let mut models: Vec<(LanguageModelProviderName, LanguageModelProvider)> = Vec::new();
        models.push((LanguageModelProviderName::Anthropic, LanguageModelProvider::Anthropic));
        models.push((LanguageModelProviderName::Mistral, LanguageModelProvider::Mistral));
        models.push((LanguageModelProviderName::OpenAI, LanguageModelProvider::OpenAI));
        models.push((LanguageModelProviderName::OpenAIAzure, LanguageModelProvider::OpenAIAzure));
        models.push((LanguageModelProviderName::Gemini, LanguageModelProvider::Gemini));
        models.push((LanguageModelProviderName::Groq, LanguageModelProvider::Groq));
        models.push((LanguageModelProviderName::Bedrock, LanguageModelProvider::Bedrock));
        let r = Self { models };
        proof {
            let s = r.models@;
            assert(s.drop_last() =~= s.subrange(0, 6));
            assert(s.subrange(0, 6).drop_last() =~= s.subrange(0, 5));
            assert(s.subrange(0, 5).drop_last() =~= s.subrange(0, 4));
            assert(s.subrange(0, 4).drop_last() =~= s.subrange(0, 3));
            assert(s.subrange(0, 3).drop_last() =~= s.subrange(0, 2));
            assert(s.subrange(0, 2).drop_last() =~= s.subrange(0, 1));
            assert(s.subrange(0, 1).drop_last() =~= s.subrange(0, 0));
            assert forall|p: LanguageModelProviderName| #[trigger] registered(s, p) == Some(
                LanguageModelProvider::for_provider_spec(p),
            ) by {
                reveal_with_fuel(registered, 8);
            }
        }
        r
    }

    /// The executor registered for `name`, if any.
    pub fn executor_for(&self, name: LanguageModelProviderName) -> (r: Option<LanguageModelProvider>)
        ensures
            r == registered(self.models@, name),
    {
        let mut i: usize = self.models.len();
        assert(self.models@.subrange(0, i as int) =~= self.models@);
        while i > 0
            invariant
                i <= self.models@.len(),
                registered(self.models@, name) == registered(self.models@.subrange(0, i as int), name),
            decreases i,
        {
            let ghost prefix = self.models@.subrange(0, i as int);
            assert(prefix.drop_last() =~= self.models@.subrange(0, i - 1));
            if self.models[i - 1].0 == name {
                return Some(self.models[i - 1].1);
            }
            i = i - 1;
        }
        None
    }

    /// Resolves a model identifier `"<provider-tag>:<model-name>"` to the
    /// executor that completes it: the identifier is split first, the tag is
    /// resolved next, and only then is the registry consulted.
    pub fn route(&self, model: &str) -> (r: Result<CompletionRoute, RunnerError>)
        ensures
            route_outcome(self.models@, model@, r),
    {
        let (tag, model_name) = match split_model(model) {
            Ok(parts) => parts,
            Err(e) => {
                return Err(e);
            },
        };
        let provider_name = match LanguageModelProviderName::from_str(tag.as_str()) {
            Ok(p) => p,
            Err(e) => {
                return Err(e);
            },
        };
        match self.executor_for(provider_name) {
            Some(executor) => Ok(CompletionRoute { executor, provider_name, model_name }),
            None => Err(RunnerError::ExecutorMissing),
        }
    }
}

} // verus!
