//! The domain error.
use vstd::prelude::*;

verus! {

/// A failure in the domain or infrastructure layer, with its reason.
#[derive(Debug, Clone, PartialEq, Eq)]
pub enum AiomeError {
    Infrastructure { reason: String },
    /// A safety rule was broken.
    SecurityViolation { reason: String },
}

} // verus!
