use vstd::prelude::*;
use crate::env::Env;
use crate::error::RunnerError;
use crate::strings::str_eq;

verus! {

/// Environment variable holding the Bedrock secret access key.
pub const AWS_SECRET_ACCESS_KEY: &'static str = "AWS_SECRET_ACCESS_KEY";
/// Environment variable holding the Bedrock region.
pub const AWS_REGION: &'static str = "AWS_REGION";
/// Environment variable holding the Bedrock access key id.
pub const AWS_ACCESS_KEY_ID: &'static str = "AWS_ACCESS_KEY_ID";
/// Environment variable holding the Azure OpenAI resource id.
pub const OPENAI_AZURE_RESOURCE_ID: &'static str = "OPENAI_AZURE_RESOURCE_ID";
/// Environment variable holding the Azure OpenAI deployment name.
pub const OPENAI_AZURE_DEPLOYMENT_NAME: &'static str = "OPENAI_AZURE_DEPLOYMENT_NAME";

/// The closed set of supported provider identities.
#[derive(Debug, Clone, Copy, PartialEq, Eq, Hash, Structural)]
pub enum LanguageModelProviderName {
    Anthropic,
    Mistral,
    OpenAI,
    OpenAIAzure,
    Gemini,
    Groq,
    Bedrock,
}

/// The tag that names a provider in model identifiers.
pub open spec fn tag_of(p: LanguageModelProviderName) -> Seq<char> {
    match p {
        LanguageModelProviderName::Anthropic => "anthropic"@,
        LanguageModelProviderName::Mistral => "mistral"@,
        LanguageModelProviderName::OpenAI => "openai"@,
        LanguageModelProviderName::OpenAIAzure => "openai-azure"@,
        LanguageModelProviderName::Gemini => "gemini"@,
        LanguageModelProviderName::Groq => "groq"@,
        LanguageModelProviderName::Bedrock => "bedrock"@,
    }
}

/// The provider whose tag is exactly `s`, if any.
pub open spec fn provider_of_tag(s: Seq<char>) -> Option<LanguageModelProviderName> {
    if s == "anthropic"@ {
        Some(LanguageModelProviderName::Anthropic)
    } else if s == "mistral"@ {
        Some(LanguageModelProviderName::Mistral)
    } else if s == "openai"@ {
        Some(LanguageModelProviderName::OpenAI)
    } else if s == "openai-azure"@ {
        Some(LanguageModelProviderName::OpenAIAzure)
    } else if s == "gemini"@ {
        Some(LanguageModelProviderName::Gemini)
    } else if s == "groq"@ {
        Some(LanguageModelProviderName::Groq)
    } else if s == "bedrock"@ {
        Some(LanguageModelProviderName::Bedrock)
    } else {
        None
    }
}

/// The environment variable that holds a provider's primary API key.
pub open spec fn api_key_name_of(p: LanguageModelProviderName) -> Seq<char> {
    match p {
        LanguageModelProviderName::Anthropic => "ANTHROPIC_API_KEY"@,
        LanguageModelProviderName::Mistral => "MISTRAL_API_KEY"@,
        LanguageModelProviderName::OpenAI => "OPENAI_API_KEY"@,
        LanguageModelProviderName::OpenAIAzure => "AZURE_API_KEY"@,
        LanguageModelProviderName::Gemini => "GEMINI_API_KEY"@,
        LanguageModelProviderName::Groq => "GROQ_API_KEY"@,
        LanguageModelProviderName::Bedrock => AWS_SECRET_ACCESS_KEY@,
    }
}

/// The environment variables a provider needs, primary key first.
pub open spec fn required_vars_of(p: LanguageModelProviderName) -> Seq<Seq<char>> {
    match p {
        LanguageModelProviderName::Bedrock => seq![api_key_name_of(p), AWS_REGION@, AWS_ACCESS_KEY_ID@],
        LanguageModelProviderName::OpenAIAzure => seq![
            api_key_name_of(p),
            OPENAI_AZURE_RESOURCE_ID@,
            OPENAI_AZURE_DEPLOYMENT_NAME@,
        ],
        _ => seq![api_key_name_of(p)],
    }
}

impl LanguageModelProviderName {
    /// Resolves a provider tag; the match is exact and case-sensitive.
    pub fn from_str(s: &str) -> (r: Result<Self, RunnerError>)
        ensures
            match provider_of_tag(s@) {
                Some(p) => r == Ok::<Self, RunnerError>(p),
                None => r matches Err(RunnerError::UnknownProvider(t)) && t@ == s@,
            },
    {
        if str_eq(s, "anthropic") {
            Ok(Self::Anthropic)
        } else if str_eq(s, "mistral") {
            Ok(Self::Mistral)
        } else if str_eq(s, "openai") {
            Ok(Self::OpenAI)
        } else if str_eq(s, "openai-azure") {
            Ok(Self::OpenAIAzure)
        } else if str_eq(s, "gemini") {
            Ok(Self::Gemini)
        } else if str_eq(s, "groq") {
            Ok(Self::Groq)
        } else if str_eq(s, "bedrock") {
            Ok(Self::Bedrock)
        } else {
            Err(RunnerError::UnknownProvider(s.to_owned()))
        }
    }

    /// The tag that names this provider in model identifiers.
    pub fn tag(&self) -> (r: &'static str)
        ensures
            r@ == tag_of(*self),
    {
        match self {
            Self::Anthropic => "anthropic",
            Self::Mistral => "mistral",
            Self::OpenAI => "openai",
            Self::OpenAIAzure => "openai-azure",
            Self::Gemini => "gemini",
            Self::Groq => "groq",
            Self::Bedrock => "bedrock",
        }
    }

    /// The primary API key held in `env`; fails when the variable is not set.
    pub fn api_key(&self, env: &Env) -> (r: Result<String, RunnerError>)
        ensures
            match env.lookup(api_key_name_of(*self)) {
                Some(v) => r matches Ok(k) && k@ == v,
                None => r matches Err(RunnerError::MissingCredential(n)) && n@ == api_key_name_of(*self),
            },
    {
        let name = self.api_key_name();
        match env.get(name) {
            Some(v) => Ok(v.clone()),
            None => Err(RunnerError::MissingCredential(name.to_owned())),
        }
    }

    /// The environment variable that holds this provider's primary API key.
    pub fn api_key_name(&self) -> (r: &'static str)
        ensures
            r@ == api_key_name_of(*self),
    {
        match self {
            Self::Anthropic => "ANTHROPIC_API_KEY",
            Self::Mistral => "MISTRAL_API_KEY",
            Self::OpenAI => "OPENAI_API_KEY",
            Self::OpenAIAzure => "AZURE_API_KEY",
            Self::Gemini => "GEMINI_API_KEY",
            Self::Groq => "GROQ_API_KEY",
            Self::Bedrock => AWS_SECRET_ACCESS_KEY,
        }
    }

    /// The environment variables this provider needs: the primary key, plus
    /// region and access key id for Bedrock, plus resource id and deployment
    /// name for Azure OpenAI.
    pub fn required_env_vars(&self) -> (r: Vec<String>)
        ensures
            r@.len() == required_vars_of(*self).len(),
            forall|i: int| 0 <= i < r@.len() ==> #[trigger] r@[i]@ == required_vars_of(*self)[i],
    {
        let mut env_vars: Vec<String> = Vec::new();
        env_vars.push(self.api_key_name().to_owned());
        match self {
            Self::Bedrock => {
                env_vars.push(AWS_REGION.to_owned());
                env_vars.push(AWS_ACCESS_KEY_ID.to_owned());
            },
            Self::OpenAIAzure => {
                env_vars.push(OPENAI_AZURE_RESOURCE_ID.to_owned());
                env_vars.push(OPENAI_AZURE_DEPLOYMENT_NAME.to_owned());
            },
            _ => {},
        }
        env_vars
    }
}

/// Every provider's tag resolves to that provider, so distinct providers have
/// distinct tags.
pub proof fn lemma_tag_round_trip(p: LanguageModelProviderName, q: LanguageModelProviderName)
    ensures
        provider_of_tag(tag_of(p)) == Some(p),
        p != q ==> tag_of(p) != tag_of(q),
{
    reveal_strlit("anthropic");
    reveal_strlit("mistral");
    reveal_strlit("openai");
    reveal_strlit("openai-azure");
    reveal_strlit("gemini");
    reveal_strlit("groq");
    reveal_strlit("bedrock");
    assert("anthropic"@.len() == 9 && "anthropic"@[0] == 'a');
    assert("mistral"@.len() == 7 && "mistral"@[0] == 'm');
    assert("openai"@.len() == 6 && "openai"@[0] == 'o');
    assert("openai-azure"@.len() == 12 && "openai-azure"@[0] == 'o');
    assert("gemini"@.len() == 6 && "gemini"@[0] == 'g');
    assert("groq"@.len() == 4 && "groq"@[0] == 'g');
    assert("bedrock"@.len() == 7 && "bedrock"@[0] == 'b');
}

/// Bedrock and Azure OpenAI need three distinct variables each, every other
/// provider exactly one; the primary key variable is always among them.
pub proof fn lemma_required_env_vars_size(p: LanguageModelProviderName)
    ensures
        required_vars_of(p).to_set().contains(api_key_name_of(p)),
        p == LanguageModelProviderName::Bedrock ==> required_vars_of(p).to_set().len() == 3,
        p == LanguageModelProviderName::OpenAIAzure ==> required_vars_of(p).to_set().len() == 3,
        p != LanguageModelProviderName::Bedrock && p != LanguageModelProviderName::OpenAIAzure
            ==> required_vars_of(p).to_set().len() == 1,
{
    let vars = required_vars_of(p);
    assert(vars[0] == api_key_name_of(p));
    assert(vars.contains(api_key_name_of(p)));
    match p {
        LanguageModelProviderName::Bedrock => {
            reveal_strlit("AWS_SECRET_ACCESS_KEY");
            assert("AWS_SECRET_ACCESS_KEY"@.len() == 21);
            reveal_strlit("AWS_REGION");
            assert("AWS_REGION"@.len() == 10);
            reveal_strlit("AWS_ACCESS_KEY_ID");
            assert("AWS_ACCESS_KEY_ID"@.len() == 17);
            assert(AWS_SECRET_ACCESS_KEY@ != AWS_REGION@);
            assert(AWS_SECRET_ACCESS_KEY@ != AWS_ACCESS_KEY_ID@);
            assert(AWS_REGION@ != AWS_ACCESS_KEY_ID@);
            assert(vars.no_duplicates());
            vars.unique_seq_to_set();
        },
        LanguageModelProviderName::OpenAIAzure => {
            reveal_strlit("AZURE_API_KEY");
            assert("AZURE_API_KEY"@.len() == 13);
            reveal_strlit("OPENAI_AZURE_RESOURCE_ID");
            assert("OPENAI_AZURE_RESOURCE_ID"@.len() == 24);
            reveal_strlit("OPENAI_AZURE_DEPLOYMENT_NAME");
            assert("OPENAI_AZURE_DEPLOYMENT_NAME"@.len() == 28);
            assert("AZURE_API_KEY"@ != OPENAI_AZURE_RESOURCE_ID@);
            assert("AZURE_API_KEY"@ != OPENAI_AZURE_DEPLOYMENT_NAME@);
            assert(OPENAI_AZURE_RESOURCE_ID@ != OPENAI_AZURE_DEPLOYMENT_NAME@);
            assert(vars.no_duplicates());
            vars.unique_seq_to_set();
        },
        _ => {
            assert(vars.no_duplicates());
            vars.unique_seq_to_set();
        },
    }
}

} // verus!
