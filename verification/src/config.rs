//! Provider configuration: endpoint, credential and model identifier.

use vstd::prelude::*;
use vstd::string::*;

use crate::error::ConfigError;

verus! {

/// View of the default service endpoint.
pub open spec fn default_endpoint() -> Seq<char> {
    "https://api.openai.com/v1/embeddings"@
}

/// View of the default model identifier.
pub open spec fn default_model() -> Seq<char> {
    "text-embedding-3-small"@
}

/// Configuration of the embedding provider. Constructed once and
/// read-only thereafter.
#[derive(Debug, Clone, PartialEq)]
pub struct OpenAIConfig {
    pub api_endpoint: String,
    pub api_key: String,
    pub model: String,
}

impl OpenAIConfig {
    /// Builds the default configuration: the fixed endpoint and model,
    /// and the credential as the caller resolved it from the process
    /// environment. Fails, deterministically and before any network
    /// activity, when the credential is absent.
    pub fn default_with_credential(credential: Option<String>) -> (r: Result<OpenAIConfig, ConfigError>)
        ensures
            match r {
                Ok(c) => {
                    &&& credential matches Some(k) && c.api_key@ == k@
                    &&& c.api_endpoint@ == default_endpoint()
                    &&& c.model@ == default_model()
                },
                Err(e) => credential is None && e == ConfigError::MissingCredential,
            },
    {
        match credential {
            Some(api_key) => Ok(OpenAIConfig {
                api_endpoint: String::from_str("https://api.openai.com/v1/embeddings"),
                api_key,
                model: String::from_str("text-embedding-3-small"),
            }),
            None => Err(ConfigError::MissingCredential),
        }
    }
}

} // verus!
