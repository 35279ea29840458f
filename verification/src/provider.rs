//! The embedding provider itself.

use vstd::prelude::*;
use vstd::string::*;
use vstd::utf8::encode_utf8;

use crate::config::OpenAIConfig;
use crate::embedding::Embedding;
use crate::error::EmbedError;
use crate::session::EmbedSession;
use crate::session::ServiceOutcome;
use crate::session::embed_result_matches;
use crate::wire::build_request_body;
use crate::wire::request_body_spec;

verus! {

/// The embedding provider: configured once, it turns a batch of text
/// documents into one embedding per document via the remote service.
///
/// The provider frames every request and judges every outcome; the
/// caller performs the HTTP exchanges under an [`EmbedSession`] the
/// provider starts.
pub struct OpenAIEmbeddings {
    config: OpenAIConfig,
}

impl OpenAIEmbeddings {
    /// The configuration the provider was built with.
    pub closed spec fn spec_config(&self) -> OpenAIConfig {
        self.config
    }

    pub fn new(config: OpenAIConfig) -> (p: OpenAIEmbeddings)
        ensures
            p.spec_config() == config,
    {
        OpenAIEmbeddings { config }
    }

    /// Read access to the configuration.
    pub fn config(&self) -> (c: &OpenAIConfig)
        ensures
            *c == self.spec_config(),
    {
        &self.config
    }

    /// The JSON request body sent for one document: the configured
    /// model identifier and the document text, framed and escaped as
    /// `request_body_spec` states, byte for byte.
    pub fn request_body_for(&self, doc: &str) -> (r: Vec<u8>)
        ensures
            r@ == request_body_spec(
                encode_utf8(self.spec_config().model@),
                encode_utf8(doc@),
            ),
    {
        build_request_body(self.config.model.as_str(), doc)
    }

    /// The value of the `Authorization` header sent with every
    /// request: the configured credential as a bearer token.
    pub fn auth_header_value(&self) -> (r: String)
        ensures
            r@ == "Bearer "@ + self.spec_config().api_key@,
    {
        let mut s = String::from_str("Bearer ");
        s.append(self.config.api_key.as_str());
        s
    }

    /// Starts an embed operation over the given documents. The caller
    /// performs one exchange per document, as the session asks for
    /// them, and ends the session for the result.
    pub fn start_embed(&self, docs: Vec<String>) -> (s: EmbedSession)
        ensures
            s.wf(),
            s.docs == docs,
            s.pos == 0,
            s.failed is None,
            s.history@ == Seq::<ServiceOutcome>::empty(),
    {
        EmbedSession::new(docs)
    }

    /// The whole embed operation over a precomputed outcome per
    /// document: one embedding per document, in input order, when
    /// every exchange succeeds, else exactly the first exchange's
    /// error — no partial result.
    pub fn embed_outcomes(
        &self,
        docs: Vec<String>,
        outcomes: Vec<ServiceOutcome>,
    ) -> (r: Result<Vec<Embedding>, EmbedError>)
        requires
            outcomes@.len() == docs@.len(),
        ensures
            embed_result_matches(outcomes@, r),
    {
        EmbedSession::new(docs).run(outcomes)
    }
}

} // verus!
