//! Embedding provider for a remote embedding service.
//!
//! The provider turns a batch of text documents into one fixed-length
//! vector per document, obtained from the service over HTTP. This crate
//! holds the provider's logic: building the per-document request body,
//! deciding what each service outcome means, and accumulating the
//! embeddings in input order with all-or-nothing failure semantics.
//! The network exchange itself is left to the caller, which feeds each
//! outcome back into the running embed session.

pub mod config;
pub mod embedding;
pub mod error;
pub mod provider;
pub mod session;
pub mod wire;

pub use config::OpenAIConfig;
pub use embedding::Embedding;
pub use error::ConfigError;
pub use error::EmbedError;
pub use error::ShapeKind;
pub use provider::OpenAIEmbeddings;
pub use session::EmbedSession;
pub use session::ServiceOutcome;
pub use wire::ResponseBody;
pub use wire::ResultEntry;
