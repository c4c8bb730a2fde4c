//! Persistent jobs and their status.
use vstd::prelude::*;
use crate::text::{copy_str, str_eq};

verus! {

/// The lifecycle state of a job.
#[derive(Debug, Clone, Copy, PartialEq, Eq, Structural)]
pub enum JobStatus {
    Pending,
    Processing,
    Completed,
    Failed,
}

/// The stored name of each status.
pub open spec fn status_name(s: JobStatus) -> Seq<char> {
    match s {
        JobStatus::Pending => "Pending"@,
        JobStatus::Processing => "Processing"@,
        JobStatus::Completed => "Completed"@,
        JobStatus::Failed => "Failed"@,
    }
}

/// The status a stored name denotes; any unknown name reads as `Pending`.
pub open spec fn status_of_name(s: Seq<char>) -> JobStatus {
    if s == "Processing"@ {
        JobStatus::Processing
    } else if s == "Completed"@ {
        JobStatus::Completed
    } else if s == "Failed"@ {
        JobStatus::Failed
    } else {
        JobStatus::Pending
    }
}

impl JobStatus {
    /// The stored name of the status.
    pub fn to_string(&self) -> (r: String)
        ensures
            r@ == status_name(*self),
    {
        match self {
            JobStatus::Pending => copy_str("Pending"),
            JobStatus::Processing => copy_str("Processing"),
            JobStatus::Completed => copy_str("Completed"),
            JobStatus::Failed => copy_str("Failed"),
        }
    }

    /// The status a stored name denotes (`Pending` for an unknown name).
    pub fn from_string(s: &str) -> (r: JobStatus)
        ensures
            r == status_of_name(s@),
    {
        if str_eq(s, "Processing") {
            JobStatus::Processing
        } else if str_eq(s, "Completed") {
            JobStatus::Completed
        } else if str_eq(s, "Failed") {
            JobStatus::Failed
        } else {
            JobStatus::Pending
        }
    }
}

/// Reading back a stored status name gives the status that was stored.
pub proof fn law_status_name_round_trip(s: JobStatus)
    ensures
        status_of_name(status_name(s)) == s,
{
    reveal_strlit("Pending");
    reveal_strlit("Processing");
    reveal_strlit("Completed");
    reveal_strlit("Failed");
    assert("Pending"@.len() == 7);
    assert("Processing"@.len() == 10);
    assert("Completed"@.len() == 9);
    assert("Failed"@.len() == 6);
}

/// A persisted job.
#[derive(Debug, Clone)]
pub struct Job {
    pub id: String,
    pub category: String,
    pub topic: String,
    pub style: String,
    /// Structured LLM directives, as JSON text.
    pub karma_directives: Option<String>,
    pub status: JobStatus,
    /// When processing started (for zombie reclamation).
    pub started_at: Option<String>,
    /// Liveness stamp of the worker.
    pub last_heartbeat: Option<String>,
    /// Whether technical lessons were extracted.
    pub tech_karma_extracted: bool,
    /// Human rating: -1, 0 or 1; `None` when unrated.
    pub creative_rating: Option<i32>,
    /// Persisted execution log.
    pub execution_log: Option<String>,
    pub error_message: Option<String>,
    pub sns_platform: Option<String>,
    pub sns_content_id: Option<String>,
    pub published_at: Option<String>,
    /// Output artifacts, as JSON text.
    pub output_artifacts: Option<String>,
}

} // verus!
