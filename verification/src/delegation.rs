//! Results of sandboxed executions and their failure classification.
use vstd::prelude::*;
use crate::text::{contains, str_contains};

verus! {

/// The outcome of one run inside the sandbox.
#[derive(Debug, Clone)]
pub struct DelegationResult {
    pub stdout: String,
    pub stderr: String,
    pub exit_code: i32,
    pub duration_ms: u64,
}

/// Coarse class of a failed run.
#[derive(Debug, Clone, Copy, PartialEq, Eq, Structural)]
pub enum FailureCategory {
    NoFailure,
    Timeout,
    Oom,
    DependencyMissing,
    SyntaxError,
    UnknownRuntime,
}

/// The class of a run from its exit code and error output: success, then
/// timeout (code 124 or "timeout"), out of memory (code 137, "OOM" or "Out
/// of memory"), missing dependency ("Module not found" or "ImportError"),
/// syntax error ("SyntaxError"), otherwise an unknown runtime failure.
pub open spec fn category_of(exit_code: i32, stderr: Seq<char>) -> FailureCategory {
    if exit_code == 0 {
        FailureCategory::NoFailure
    } else if exit_code == 124 || contains(stderr, "timeout"@) {
        FailureCategory::Timeout
    } else if exit_code == 137 || contains(stderr, "OOM"@) || contains(stderr, "Out of memory"@) {
        FailureCategory::Oom
    } else if contains(stderr, "Module not found"@) || contains(stderr, "ImportError"@) {
        FailureCategory::DependencyMissing
    } else if contains(stderr, "SyntaxError"@) {
        FailureCategory::SyntaxError
    } else {
        FailureCategory::UnknownRuntime
    }
}

impl DelegationResult {
    /// The run succeeded: exit code 0.
    pub fn is_success(&self) -> (r: bool)
        ensures
            r == (self.exit_code == 0),
    {
        self.exit_code == 0
    }

    /// Classifies the failure of the run.
    pub fn failure_category(&self) -> (r: FailureCategory)
        ensures
            r == category_of(self.exit_code, self.stderr@),
    {
        if self.is_success() {
            return FailureCategory::NoFailure;
        }
        let err = self.stderr.as_str();
        if self.exit_code == 124 || str_contains(err, "timeout") {
            FailureCategory::Timeout
        } else if self.exit_code == 137 || str_contains(err, "OOM") || str_contains(err, "Out of memory") {
            FailureCategory::Oom
        } else if str_contains(err, "Module not found") || str_contains(err, "ImportError") {
            FailureCategory::DependencyMissing
        } else if str_contains(err, "SyntaxError") {
            FailureCategory::SyntaxError
        } else {
            FailureCategory::UnknownRuntime
        }
    }
}

} // verus!
