use vstd::prelude::*;

verus! {

/// The error taxonomy of every filesystem operation.
#[derive(Debug, Clone, PartialEq, Eq)]
pub enum FuseLlmError {
    /// The path or entity does not exist.
    NotFound,
    /// The operation is not allowed on this node.
    AccessDenied,
    /// A request for the same conversation is still outstanding.
    Busy,
    /// A bad name or a malformed document.
    InvalidInput(String),
    /// The language-model service failed.
    LlmFailure(String),
    /// The search service failed or refused.
    SearchFailure(String),
    /// The operation is outside the supported surface.
    Unsupported,
}

/// Result of a filesystem operation.
pub type Result<T> = core::result::Result<T, FuseLlmError>;

} // verus!
