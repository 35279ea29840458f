//! Error taxonomy of the provider.

use vstd::prelude::*;

verus! {

/// Failure while building a configuration, before any network activity.
#[derive(Debug, Clone, PartialEq, Eq, Structural)]
pub enum ConfigError {
    /// The credential was not available from the environment.
    MissingCredential,
}

/// Why a response that the service did answer yielded no embedding:
/// the body was not the expected shape.
#[derive(Debug, Clone, PartialEq, Eq)]
pub enum ShapeKind {
    /// The response body did not parse as the expected JSON shape.
    MalformedBody { detail: String },
    /// The response parsed, but its result sequence was empty.
    EmptyData,
    /// The first result entry carried no `embedding` field.
    MissingEmbedding,
}

/// Failure of a whole `embed` operation. Every variant carries the index
/// of the document whose exchange failed, so the caller can diagnose
/// without retrying blindly.
#[derive(Debug, Clone, PartialEq, Eq)]
pub enum EmbedError {
    /// Connection, DNS or TLS failure reaching the service.
    Transport { index: usize, detail: String },
    /// The service answered with a non-success HTTP status.
    Service { index: usize, status: u16, body: String },
    /// The service answered with a body that does not honour its contract.
    Shape { index: usize, kind: ShapeKind },
}

impl EmbedError {
    /// Index of the document whose exchange caused the failure.
    pub open spec fn spec_index(&self) -> usize {
        match *self {
            EmbedError::Transport { index, .. } => index,
            EmbedError::Service { index, .. } => index,
            EmbedError::Shape { index, .. } => index,
        }
    }

    /// Index of the document whose exchange caused the failure.
    pub fn document_index(&self) -> (i: usize)
        ensures
            i == self.spec_index(),
    {
        match self {
            EmbedError::Transport { index, .. } => *index,
            EmbedError::Service { index, .. } => *index,
            EmbedError::Shape { index, .. } => *index,
        }
    }
}

} // verus!
