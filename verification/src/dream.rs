//! The dream state: what an idle agent does while no job is pending.
use vstd::prelude::*;
use crate::ident::now_instant;
use crate::job::{Job, JobStatus};
use crate::text::{append_str, copy_str};

verus! {

/// The kinds of dream.
#[derive(Debug, Clone, Copy, PartialEq, Eq, Structural)]
pub enum DreamKind {
    /// Seek resonance with other nodes of the biome.
    Communicative,
    /// Look for new trends around a seed topic.
    Explorative,
    /// Revisit a past failure.
    Reflective,
}

/// The dreaming agent; it holds no state of its own.
pub struct DreamState {}

impl DreamState {
    pub fn new() -> (r: Self)
        ensures
            r == (DreamState {}),
    {
        DreamState {}
    }
}

/// Rust's remainder `a % b` (truncated towards zero), for `b > 0`.
pub open spec fn trunc_rem(a: int, b: int) -> int {
    if a >= 0 {
        a % b
    } else {
        -((-a) % b)
    }
}

/// The dice of a dream: the timestamp's remainder modulo 100.
pub open spec fn roll_of(timestamp: i64) -> int {
    trunc_rem(timestamp as int, 100)
}

/// Percent chance of a communicative dream at `level`: `(level - 1) * 5`,
/// clamped into `0..=50`.
pub open spec fn communicative_percent(level: int) -> int {
    let p = (level - 1) * 5;
    if p < 0 {
        0
    } else if p > 50 {
        50
    } else {
        p
    }
}

/// The dream chosen for a roll: communicative below the level's percentage,
/// otherwise explorative on an even roll and reflective on an odd one.
pub open spec fn dream_for(roll: int, level: int) -> DreamKind {
    if roll < communicative_percent(level) {
        DreamKind::Communicative
    } else if roll % 2 == 0 {
        DreamKind::Explorative
    } else {
        DreamKind::Reflective
    }
}

/// The roll of a dream taken at `timestamp`.
pub fn dream_roll(timestamp: i64) -> (r: i64)
    ensures
        r == roll_of(timestamp),
        -100 < r < 100,
{
    timestamp % 100
}

/// The communicative percentage at `level`.
pub fn communicative_probability(level: i32) -> (r: i64)
    ensures
        r == communicative_percent(level as int),
        0 <= r <= 50,
{
    let p: i64 = (level as i64 - 1) * 5;
    if p < 0 {
        0
    } else if p > 50 {
        50
    } else {
        p
    }
}

/// Which dream to have, or `None` when `pending` jobs wait: real work wakes the dreamer.
pub fn choose_dream(pending: u64, timestamp: i64, level: i32) -> (r: Option<DreamKind>)
    ensures
        pending > 0 ==> r is None,
        pending == 0 ==> r == Some(dream_for(roll_of(timestamp), level as int)),
{
    if pending > 0 {
        return None;
    }
    let roll = dream_roll(timestamp);
    let p = communicative_probability(level);
    if roll < p {
        Some(DreamKind::Communicative)
    } else if roll % 2 == 0 {
        Some(DreamKind::Explorative)
    } else {
        Some(DreamKind::Reflective)
    }
}

/// Which dream to have now, the clock's seconds rolling the dice.
pub fn choose_dream_now(pending: u64, level: i32) -> (r: Option<DreamKind>)
    ensures
        pending > 0 ==> r is None,
        pending == 0 ==> exists|t: i64| r == Some(#[trigger] dream_for(roll_of(t), level as int)),
{
    let (t, _) = now_instant();
    choose_dream(pending, t, level)
}

/// The seed topics of an explorative dream.
pub open spec fn dream_seeds() -> Seq<Seq<char>> {
    seq![
        "cyberpunk aesthetics"@,
        "ancient lost technology"@,
        "biomimicry"@,
        "lo-fi horror"@,
        "solarpunk architecture"@,
    ]
}

/// The seed index of a dream at `timestamp`: the timestamp read as a `usize`, modulo 5.
pub open spec fn seed_index(timestamp: i64) -> int {
    (timestamp as usize) as int % 5
}

/// The seed topic of an explorative dream at `timestamp`.
pub fn dream_seed(timestamp: i64) -> (r: &'static str)
    ensures
        r@ == dream_seeds()[seed_index(timestamp)],
{
    let i: usize = (timestamp as usize) % 5;
    if i == 0 {
        "cyberpunk aesthetics"
    } else if i == 1 {
        "ancient lost technology"
    } else if i == 2 {
        "biomimicry"
    } else if i == 3 {
        "lo-fi horror"
    } else {
        "solarpunk architecture"
    }
}

/// The seed topic of an explorative dream now.
pub fn dream_seed_now() -> (r: &'static str)
    ensures
        exists|t: i64| r@ == dream_seeds()[#[trigger] seed_index(t)],
{
    let (t, _) = now_instant();
    dream_seed(t)
}

/// The directives of a job born from an explorative dream on `seed`.
pub open spec fn explorative_directives_text(seed: Seq<char>) -> Seq<char> {
    "{\"dream_born\": true, \"seed\": \""@ + seed + "\", \"phantom\": true}"@
}

pub fn explorative_directives(seed: &str) -> (r: String)
    ensures
        r@ == explorative_directives_text(seed@),
{
    let mut out = copy_str("{\"dream_born\": true, \"seed\": \"");
    append_str(&mut out, seed);
    append_str(&mut out, "\", \"phantom\": true}");
    out
}

/// Index of the first failed job.
pub open spec fn is_first_failed(jobs: Seq<Job>, i: int) -> bool {
    &&& 0 <= i < jobs.len()
    &&& jobs[i].status == JobStatus::Failed
    &&& forall|k: int| 0 <= k < i ==> jobs[k].status != JobStatus::Failed
}

/// The first failed job among `jobs`, which a reflective dream remixes.
pub fn first_failed(jobs: &Vec<Job>) -> (r: Option<usize>)
    ensures
        r matches Some(i) ==> is_first_failed(jobs@, i as int),
        r is None ==> forall|k: int| 0 <= k < jobs@.len() ==> jobs@[k].status != JobStatus::Failed,
{
    let mut i: usize = 0;
    while i < jobs.len()
        invariant
            i <= jobs@.len(),
            forall|k: int| 0 <= k < i ==> jobs@[k].status != JobStatus::Failed,
        decreases jobs.len() - i,
    {
        if jobs[i].status == JobStatus::Failed {
            return Some(i);
        }
        i = i + 1;
    }
    None
}

/// The topic of a redemption remix of `topic`.
pub open spec fn redemption_topic_text(topic: Seq<char>) -> Seq<char> {
    topic + " (Redemption Remix)"@
}

pub fn redemption_topic(topic: &str) -> (r: String)
    ensures
        r@ == redemption_topic_text(topic@),
{
    let mut out = copy_str(topic);
    append_str(&mut out, " (Redemption Remix)");
    out
}

/// The directives of a remix of the job `job_id`.
pub open spec fn remix_directives_text(job_id: Seq<char>) -> Seq<char> {
    "{\"remix_of\": \""@ + job_id + "\", \"dream_born\": true}"@
}

pub fn remix_directives(job_id: &str) -> (r: String)
    ensures
        r@ == remix_directives_text(job_id@),
{
    let mut out = copy_str("{\"remix_of\": \"");
    append_str(&mut out, job_id);
    append_str(&mut out, "\", \"dream_born\": true}");
    out
}

/// What inspired a communicative dream: an arena match `skill_a` vs `skill_b` on `topic`.
pub open spec fn inspiration_text(skill_a: Seq<char>, skill_b: Seq<char>, topic: Seq<char>) -> Seq<char> {
    "Inspiration sparked by Biome Arena Match: "@ + skill_a + " vs "@ + skill_b + " for topic '"@ + topic
        + "'."@
}

pub fn inspiration_description(skill_a: &str, skill_b: &str, topic: &str) -> (r: String)
    ensures
        r@ == inspiration_text(skill_a@, skill_b@, topic@),
{
    let mut out = copy_str("Inspiration sparked by Biome Arena Match: ");
    append_str(&mut out, skill_a);
    append_str(&mut out, " vs ");
    append_str(&mut out, skill_b);
    append_str(&mut out, " for topic '");
    append_str(&mut out, topic);
    append_str(&mut out, "'.");
    out
}

/// The topic of the job that synthesizes an arena match.
pub open spec fn synthesis_topic_text(skill_a: Seq<char>, skill_b: Seq<char>) -> Seq<char> {
    "Synthesizing lessons from Biome Match: "@ + skill_a + " vs "@ + skill_b
}

pub fn synthesis_topic(skill_a: &str, skill_b: &str) -> (r: String)
    ensures
        r@ == synthesis_topic_text(skill_a@, skill_b@),
{
    let mut out = copy_str("Synthesizing lessons from Biome Match: ");
    append_str(&mut out, skill_a);
    append_str(&mut out, " vs ");
    append_str(&mut out, skill_b);
    out
}

} // verus!
