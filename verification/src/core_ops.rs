//! Decisions of the job queue: dequeueing, retry limits and storage reclamation.
use vstd::prelude::*;
use crate::ident::now_rfc3339;
use crate::job::{Job, JobStatus};
use crate::text::{append_str, copy_str, str_eq};

verus! {

/// Retries after which a job (or an evaluation) is given up as a poison pill.
pub const POISON_PILL_RETRIES: i64 = 3;

/// Whether a retry count reaches the poison-pill limit.
pub fn is_poison_pill(retry_count: i64) -> (r: bool)
    ensures
        r == (retry_count >= POISON_PILL_RETRIES),
{
    retry_count >= POISON_PILL_RETRIES
}

/// The sum of the first `k` sizes.
pub open spec fn prefix_sum(sizes: Seq<u64>, k: int) -> int
    decreases k,
{
    if k <= 0 {
        0
    } else {
        prefix_sum(sizes, k - 1) + sizes[k - 1]
    }
}

/// How many of the oldest jobs must lose their artifacts so that storage
/// falls to the threshold: none when within it; otherwise jobs are taken
/// oldest first until the space they held reaches the excess (or all are taken).
pub open spec fn gc_victims(sizes: Seq<u64>, threshold: int) -> int {
    let total = prefix_sum(sizes, sizes.len() as int);
    if total <= threshold {
        0
    } else {
        first_reaching(sizes, total - threshold, 0)
    }
}

/// The least `k >= from` whose prefix sum reaches `target`, or the length.
pub open spec fn first_reaching(sizes: Seq<u64>, target: int, from: int) -> int
    decreases sizes.len() - from,
{
    if from >= sizes.len() || prefix_sum(sizes, from) >= target {
        if from >= sizes.len() && prefix_sum(sizes, from) < target {
            sizes.len() as int
        } else {
            from
        }
    } else {
        first_reaching(sizes, target, from + 1)
    }
}

proof fn lemma_prefix_sum_monotone(sizes: Seq<u64>, a: int, b: int)
    requires
        0 <= a <= b <= sizes.len(),
    ensures
        prefix_sum(sizes, a) <= prefix_sum(sizes, b),
    decreases b - a,
{
    if a < b {
        lemma_prefix_sum_monotone(sizes, a, b - 1);
    }
}

/// Plans storage reclamation over jobs listed oldest first with the bytes
/// their artifacts take: returns how many of the oldest jobs to clear.
pub fn plan_storage_gc(sizes: &[u64], threshold_bytes: u64) -> (r: usize)
    requires
        prefix_sum(sizes@, sizes@.len() as int) <= u64::MAX,
    ensures
        r == gc_victims(sizes@, threshold_bytes as int),
        r <= sizes@.len(),
{
    let mut total: u64 = 0;
    let mut i: usize = 0;
    while i < sizes.len()
        invariant
            i <= sizes@.len(),
            total == prefix_sum(sizes@, i as int),
            prefix_sum(sizes@, sizes@.len() as int) <= u64::MAX,
        decreases sizes.len() - i,
    {
        proof {
            lemma_prefix_sum_monotone(sizes@, i + 1, sizes@.len() as int);
        }
        total = total + sizes[i];
        i = i + 1;
    }
    if total <= threshold_bytes {
        return 0;
    }
    let target = total - threshold_bytes;
    let mut reduced: u64 = 0;
    let mut k: usize = 0;
    while k < sizes.len()
        invariant
            k <= sizes@.len(),
            reduced == prefix_sum(sizes@, k as int),
            prefix_sum(sizes@, sizes@.len() as int) <= u64::MAX,
            total == prefix_sum(sizes@, sizes@.len() as int),
            target == total - threshold_bytes,
            first_reaching(sizes@, target as int, 0) == first_reaching(sizes@, target as int, k as int),
        decreases sizes.len() - k,
    {
        if reduced >= target {
            return k;
        }
        proof {
            lemma_prefix_sum_monotone(sizes@, k + 1, sizes@.len() as int);
        }
        reduced = reduced + sizes[k];
        k = k + 1;
    }
    k
}

/// Clearing the planned jobs frees at least the excess over the threshold,
/// unless every job is cleared; and no shorter prefix of the oldest jobs
/// would have freed it.
pub proof fn law_gc_frees_enough(sizes: Seq<u64>, threshold: int)
    ensures
        0 <= gc_victims(sizes, threshold) <= sizes.len(),
        gc_victims(sizes, threshold) < sizes.len() ==> prefix_sum(sizes, gc_victims(sizes, threshold))
            >= prefix_sum(sizes, sizes.len() as int) - threshold,
        forall|j: int| 0 <= j < gc_victims(sizes, threshold) ==> #[trigger] prefix_sum(sizes, j)
            < prefix_sum(sizes, sizes.len() as int) - threshold,
{
    let total = prefix_sum(sizes, sizes.len() as int);
    if total > threshold {
        lemma_first_reaching(sizes, total - threshold, 0);
    }
}

proof fn lemma_first_reaching(sizes: Seq<u64>, target: int, from: int)
    requires
        0 <= from <= sizes.len(),
        forall|j: int| 0 <= j < from ==> #[trigger] prefix_sum(sizes, j) < target,
    ensures
        from <= first_reaching(sizes, target, from) <= sizes.len(),
        first_reaching(sizes, target, from) < sizes.len() ==> prefix_sum(sizes, first_reaching(sizes, target, from)) >= target,
        forall|j: int| 0 <= j < first_reaching(sizes, target, from) ==> #[trigger] prefix_sum(sizes, j) < target,
    decreases sizes.len() - from,
{
    if from >= sizes.len() || prefix_sum(sizes, from) >= target {
    } else {
        lemma_first_reaching(sizes, target, from + 1);
    }
}

/// The SQL placeholder list of `n` bound values: `?, ?, ..., ?`.
pub open spec fn placeholders(n: nat) -> Seq<char>
    decreases n,
{
    if n == 0 {
        Seq::empty()
    } else if n == 1 {
        "?"@
    } else {
        placeholders((n - 1) as nat) + ", ?"@
    }
}

pub fn sql_placeholders(n: usize) -> (r: String)
    ensures
        r@ == placeholders(n as nat),
{
    let mut out = String::new();
    let mut i: usize = 0;
    while i < n
        invariant
            i <= n,
            out@ == placeholders(i as nat),
        decreases n - i,
    {
        if i == 0 {
            append_str(&mut out, "?");
        } else {
            append_str(&mut out, ", ?");
        }
        i = i + 1;
    }
    out
}

/// The categories' views.
pub open spec fn category_views(caps: Seq<String>) -> Seq<Seq<char>> {
    caps.map_values(|c: String| c@)
}

/// A job a worker of the categories `caps` may take: pending, in one of them.
pub open spec fn claimable(job: Job, caps: Seq<Seq<char>>) -> bool {
    job.status == JobStatus::Pending && caps.contains(job.category@)
}

/// The job to hand out next, the jobs being in order of creation: the
/// oldest claimable one.
pub open spec fn is_next_claim(jobs: Seq<Job>, caps: Seq<Seq<char>>, i: int) -> bool {
    &&& 0 <= i < jobs.len()
    &&& claimable(jobs[i], caps)
    &&& forall|k: int| 0 <= k < i ==> !claimable(#[trigger] jobs[k], caps)
}

fn has_category(caps: &Vec<String>, category: &str) -> (r: bool)
    ensures
        r == category_views(caps@).contains(category@),
{
    let mut i: usize = 0;
    while i < caps.len()
        invariant
            i <= caps@.len(),
            forall|k: int| 0 <= k < i ==> caps@[k]@ != category@,
        decreases caps.len() - i,
    {
        if str_eq(caps[i].as_str(), category) {
            proof {
                assert(category_views(caps@)[i as int] == category@);
            }
            return true;
        }
        i = i + 1;
    }
    proof {
        if category_views(caps@).contains(category@) {
            let k = choose|k: int| 0 <= k < caps@.len() && category_views(caps@)[k] == category@;
            assert(caps@[k]@ == category@);
        }
    }
    false
}

/// The index of the job a worker of the categories `caps` takes next, the
/// jobs being listed oldest first; `None` when none is claimable.
pub fn next_claim(jobs: &Vec<Job>, caps: &Vec<String>) -> (r: Option<usize>)
    ensures
        r matches Some(i) ==> is_next_claim(jobs@, category_views(caps@), i as int),
        r is None ==> forall|k: int| 0 <= k < jobs@.len() ==> !claimable(#[trigger] jobs@[k], category_views(caps@)),
{
    let mut i: usize = 0;
    while i < jobs.len()
        invariant
            i <= jobs@.len(),
            forall|k: int| 0 <= k < i ==> !claimable(#[trigger] jobs@[k], category_views(caps@)),
        decreases jobs.len() - i,
    {
        if jobs[i].status == JobStatus::Pending && has_category(caps, jobs[i].category.as_str()) {
            return Some(i);
        }
        i = i + 1;
    }
    None
}

/// A claimed job: processing, started and last seen alive at `now`; all
/// else as it was.
pub fn claim_job(job: Job, now: &str) -> (r: Job)
    ensures
        r.status == JobStatus::Processing,
        r.started_at matches Some(s) && s@ == now@,
        r.last_heartbeat matches Some(h) && h@ == now@,
        r.id == job.id,
        r.category == job.category,
        r.topic == job.topic,
        r.style == job.style,
        r.karma_directives == job.karma_directives,
        r.tech_karma_extracted == job.tech_karma_extracted,
        r.creative_rating == job.creative_rating,
        r.execution_log == job.execution_log,
        r.error_message == job.error_message,
        r.sns_platform == job.sns_platform,
        r.sns_content_id == job.sns_content_id,
        r.published_at == job.published_at,
        r.output_artifacts == job.output_artifacts,
{
    Job {
        status: JobStatus::Processing,
        started_at: Some(copy_str(now)),
        last_heartbeat: Some(copy_str(now)),
        ..job
    }
}

/// A job claimed at the current time: processing, started and last seen
/// alive at one and the same reading of the clock; all else as it was.
pub fn claim_job_now(job: Job) -> (r: Job)
    ensures
        r.status == JobStatus::Processing,
        r.started_at matches Some(s) && r.last_heartbeat matches Some(h) && s@ == h@,
        r.id == job.id,
        r.category == job.category,
        r.topic == job.topic,
        r.style == job.style,
        r.karma_directives == job.karma_directives,
        r.tech_karma_extracted == job.tech_karma_extracted,
        r.creative_rating == job.creative_rating,
        r.execution_log == job.execution_log,
        r.error_message == job.error_message,
        r.sns_platform == job.sns_platform,
        r.sns_content_id == job.sns_content_id,
        r.published_at == job.published_at,
        r.output_artifacts == job.output_artifacts,
{
    let now = now_rfc3339();
    Job { status: JobStatus::Processing, started_at: Some(copy_str(now.as_str())), last_heartbeat: Some(now), ..job }
}

} // verus!
