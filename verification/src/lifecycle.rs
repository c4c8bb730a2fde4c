//! The life of a job after it is handed out: completion, failure, liveness,
//! zombie reclamation, rating, retries and purging.
use vstd::prelude::*;
use crate::error::AiomeError;
use crate::job::{Job, JobStatus};
use crate::text::{append_str, copy_str};

verus! {

/// The reason recorded on a reclaimed zombie.
pub open spec fn zombie_reason() -> Seq<char> {
    "Zombie reclaimed: heartbeat timeout exceeded"@
}

/// The reason recorded when retries run out.
pub open spec fn poison_pill_reason() -> Seq<char> {
    "Poison Pill Activated: API continually fails."@
}

/// A job with only its status and error changed.
pub open spec fn same_but_status_and_error(a: Job, b: Job) -> bool {
    &&& a.id == b.id
    &&& a.category == b.category
    &&& a.topic == b.topic
    &&& a.style == b.style
    &&& a.karma_directives == b.karma_directives
    &&& a.started_at == b.started_at
    &&& a.last_heartbeat == b.last_heartbeat
    &&& a.tech_karma_extracted == b.tech_karma_extracted
    &&& a.creative_rating == b.creative_rating
    &&& a.execution_log == b.execution_log
    &&& a.sns_platform == b.sns_platform
    &&& a.sns_content_id == b.sns_content_id
    &&& a.published_at == b.published_at
    &&& a.output_artifacts == b.output_artifacts
}

/// A finished job: completed, with its output artifacts (JSON text)
/// recorded; all else as it was.
pub fn complete_job(job: Job, output_artifacts: Option<String>) -> (r: Job)
    ensures
        r == (Job { status: JobStatus::Completed, output_artifacts, ..job }),
{
    Job { status: JobStatus::Completed, output_artifacts, ..job }
}

/// A failed job, with the reason recorded.
pub fn fail_job(job: Job, reason: String) -> (r: Job)
    ensures
        r.status == JobStatus::Failed,
        r.error_message == Some(reason),
        same_but_status_and_error(job, r),
{
    Job { status: JobStatus::Failed, error_message: Some(reason), ..job }
}

/// A job a worker still reports alive at `now`; all else as it was.
pub fn heartbeat_pulse(job: Job, now: String) -> (r: Job)
    ensures
        r == (Job { last_heartbeat: Some(now), ..job }),
{
    Job { last_heartbeat: Some(now), ..job }
}

/// A zombie: a processing job whose last heartbeat is older than the
/// timeout. `heartbeat_age_secs` is the time since the last heartbeat, or
/// `None` when the job never sent one.
pub open spec fn zombie(status: JobStatus, heartbeat_age_secs: Option<i64>, timeout_minutes: int) -> bool {
    status == JobStatus::Processing && match heartbeat_age_secs {
        Some(a) => a > timeout_minutes * 60,
        None => false,
    }
}

pub fn is_zombie(job: &Job, heartbeat_age_secs: Option<i64>, timeout_minutes: i64) -> (r: bool)
    ensures
        r == zombie(job.status, heartbeat_age_secs, timeout_minutes as int),
{
    if job.status != JobStatus::Processing {
        return false;
    }
    match heartbeat_age_secs {
        Some(a) => (a as i128) > (timeout_minutes as i128) * 60,
        None => false,
    }
}

/// Fails a zombie with the zombie reason; any other job is left as it is.
pub fn reclaim_zombie(job: Job, heartbeat_age_secs: Option<i64>, timeout_minutes: i64) -> (r: Job)
    ensures
        zombie(job.status, heartbeat_age_secs, timeout_minutes as int) ==> r.status == JobStatus::Failed
            && (r.error_message matches Some(m) && m@ == zombie_reason()) && same_but_status_and_error(job, r),
        !zombie(job.status, heartbeat_age_secs, timeout_minutes as int) ==> r == job,
{
    if is_zombie(&job, heartbeat_age_secs, timeout_minutes) {
        fail_job(job, copy_str("Zombie reclaimed: heartbeat timeout exceeded"))
    } else {
        job
    }
}

/// A reclaimed job is no zombie any more: reclaiming twice is reclaiming once.
pub proof fn law_reclaim_settles(status: JobStatus, age: Option<i64>, timeout: int)
    ensures
        zombie(status, age, timeout) ==> !zombie(JobStatus::Failed, age, timeout),
{
}

/// Only completed or processing jobs may be rated.
pub open spec fn rateable(status: JobStatus) -> bool {
    status == JobStatus::Completed || status == JobStatus::Processing
}

/// The refusal of a rating for job `id`.
pub open spec fn rating_refusal(id: Seq<char>) -> Seq<char> {
    "Atomic Guard: Job '"@ + id + "' is not in Completed/Processing state, rating rejected"@
}

/// Records a human rating on a completed or processing job; any other job
/// is refused and left as it is.
pub fn set_creative_rating(job: Job, rating: i32) -> (r: Result<Job, (Job, AiomeError)>)
    ensures
        rateable(job.status) ==> (r matches Ok(j) && j == (Job { creative_rating: Some(rating), ..job })),
        !rateable(job.status) ==> (r matches Err((j, AiomeError::Infrastructure { reason }))
            && j == job && reason@ == rating_refusal(job.id@)),
{
    if job.status == JobStatus::Completed || job.status == JobStatus::Processing {
        Ok(Job { creative_rating: Some(rating), ..job })
    } else {
        let mut m = copy_str("Atomic Guard: Job '");
        append_str(&mut m, job.id.as_str());
        append_str(&mut m, "' is not in Completed/Processing state, rating rejected");
        Err((job, AiomeError::Infrastructure { reason: m }))
    }
}

/// Counts one more retry of `job`, which had `retry_count`; at three the
/// job is failed as a poison pill. Returns the job, the new count and
/// whether the pill was triggered.
pub fn record_retry(job: Job, retry_count: i64) -> (r: (Job, i64, bool))
    requires
        retry_count < i64::MAX,
    ensures
        r.1 == retry_count + 1,
        r.2 == (retry_count + 1 >= 3),
        r.2 ==> r.0.status == JobStatus::Failed && (r.0.error_message matches Some(m) && m@ == poison_pill_reason())
            && same_but_status_and_error(job, r.0),
        !r.2 ==> r.0 == job,
{
    let count = retry_count + 1;
    if count >= 3 {
        (fail_job(job, copy_str("Poison Pill Activated: API continually fails.")), count, true)
    } else {
        (job, count, false)
    }
}

/// A finished job (completed or failed) created more than `days` days ago
/// is purged. `age_secs` is the time since its creation.
pub open spec fn purgeable(status: JobStatus, age_secs: int, days: int) -> bool {
    (status == JobStatus::Completed || status == JobStatus::Failed) && age_secs > days * 86400
}

pub fn is_purgeable(job: &Job, age_secs: i64, days: i64) -> (r: bool)
    ensures
        r == purgeable(job.status, age_secs as int, days as int),
{
    (job.status == JobStatus::Completed || job.status == JobStatus::Failed) && (age_secs as i128) > (days
        as i128) * 86400
}

/// Purging removes exactly the finished jobs older than the cut-off: a
/// completed or a failed job is purged once its age exceeds `days` days (of
/// 86400 seconds), never before; a pending or processing job never is.
pub proof fn law_purge_finished_only(status: JobStatus, age_secs: int, days: int)
    ensures
        (status == JobStatus::Completed || status == JobStatus::Failed) && age_secs > days * 86400
            ==> purgeable(status, age_secs, days),
        age_secs <= days * 86400 ==> !purgeable(status, age_secs, days),
        status == JobStatus::Pending ==> !purgeable(status, age_secs, days),
        status == JobStatus::Processing ==> !purgeable(status, age_secs, days),
        purgeable(JobStatus::Failed, age_secs, days) == purgeable(JobStatus::Completed, age_secs, days),
{
}

} // verus!
