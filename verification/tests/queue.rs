use aiome::budget::{BudgetExhaustedError, JobBudget};
use aiome::circuit_breaker::{CircuitBreaker, CircuitBreakerConfig, CircuitState};
use aiome::core_ops::{claim_job, claim_job_now, is_poison_pill, next_claim, plan_storage_gc, sql_placeholders};
use aiome::dream::{
    choose_dream, choose_dream_now, communicative_probability, dream_seed_now, dream_roll, dream_seed, explorative_directives, first_failed,
    inspiration_description, redemption_topic, remix_directives, synthesis_topic, DreamKind, DreamState,
};
use aiome::evolution::{sync_samsara_level, SamsaraEvent};
use aiome::error::AiomeError;
use aiome::job::{Job, JobStatus};
use aiome::lifecycle::{
    complete_job, fail_job, heartbeat_pulse, is_purgeable, is_zombie, reclaim_zombie, record_retry, set_creative_rating,
};
use aiome::karma_cache::KarmaCache;
use aiome::karma::{fts_phrase_query, is_final_verdict, karma_cache_key, karma_entries, label_lesson, maintain_tier, tier_name, KarmaTier, RankedLesson};
use aiome::settings::SettingEntry;

fn job(id: &str, category: &str, status: JobStatus) -> Job {
    Job {
        id: id.to_string(),
        category: category.to_string(),
        topic: format!("topic of {}", id),
        style: "style".to_string(),
        karma_directives: None,
        status,
        started_at: None,
        last_heartbeat: None,
        tech_karma_extracted: false,
        creative_rating: None,
        execution_log: None,
        error_message: None,
        sns_platform: None,
        sns_content_id: None,
        published_at: None,
        output_artifacts: Some("[\"artifact.txt\"]".to_string()),
    }
}

#[test]
fn job_status_names_round_trip() {
    for s in [JobStatus::Pending, JobStatus::Processing, JobStatus::Completed, JobStatus::Failed] {
        assert_eq!(JobStatus::from_string(&s.to_string()), s);
    }
    assert_eq!(JobStatus::Failed.to_string(), "Failed");
    assert_eq!(JobStatus::from_string("garbage"), JobStatus::Pending);
    assert_eq!(JobStatus::from_string("failed"), JobStatus::Pending);
}

#[test]
fn dequeue_takes_the_oldest_claimable_job() {
    let jobs = vec![
        job("a", "render", JobStatus::Pending),
        job("b", "data_processing", JobStatus::Processing),
        job("c", "data_processing", JobStatus::Pending),
        job("d", "data_processing", JobStatus::Pending),
    ];
    let caps = vec!["data_processing".to_string()];
    assert_eq!(next_claim(&jobs, &caps), Some(2));
    assert_eq!(next_claim(&jobs, &vec!["other".to_string()]), None);
    assert_eq!(next_claim(&Vec::new(), &caps), None);

    let claimed = claim_job(jobs[2].clone(), "2026-01-01T00:00:00Z");
    assert_eq!(claimed.status, JobStatus::Processing);
    assert_eq!(claimed.started_at.as_deref(), Some("2026-01-01T00:00:00Z"));
    assert_eq!(claimed.last_heartbeat.as_deref(), Some("2026-01-01T00:00:00Z"));
    assert_eq!(claimed.id, "c");
    assert_eq!(claimed.output_artifacts.as_deref(), Some("[\"artifact.txt\"]"));
}

#[test]
fn placeholders() {
    assert_eq!(sql_placeholders(0), "");
    assert_eq!(sql_placeholders(1), "?");
    assert_eq!(sql_placeholders(3), "?, ?, ?");
}

#[test]
fn retry_poison_pill() {
    assert!(!is_poison_pill(2));
    assert!(is_poison_pill(3));
    assert!(is_poison_pill(4));
}

#[test]
fn storage_gc_plan() {
    assert_eq!(plan_storage_gc(&[10, 20, 30], 60), 0);
    assert_eq!(plan_storage_gc(&[10, 20, 30], 35), 2);
    assert_eq!(plan_storage_gc(&[10, 20, 30], 50), 1);
    assert_eq!(plan_storage_gc(&[10, 20, 30], 0), 3);
    assert_eq!(plan_storage_gc(&[], 0), 0);
}

#[test]
fn circuit_breaker_cycle() {
    let mut cb = CircuitBreaker::new(CircuitBreakerConfig { failure_threshold: 2, reset_timeout_ms: 1000 });
    assert_eq!(cb.state(), CircuitState::Closed);
    assert!(cb.check_state(0).is_ok());
    cb.record_failure(10);
    assert_eq!(cb.state(), CircuitState::Closed);
    assert_eq!(cb.failures(), 1);
    cb.record_failure(20);
    assert_eq!(cb.state(), CircuitState::Open);
    assert_eq!(cb.check_state(500), Err("CircuitBreaker is OPEN. Failing fast."));
    assert_eq!(cb.check_state(1020), Err("CircuitBreaker is OPEN. Failing fast."));
    assert!(cb.check_state(1021).is_ok());
    assert_eq!(cb.state(), CircuitState::HalfOpen);
    cb.record_failure(1100);
    assert_eq!(cb.state(), CircuitState::Open);
    assert!(cb.check_state(2101).is_ok());
    cb.record_success();
    assert_eq!(cb.state(), CircuitState::Closed);
    assert_eq!(cb.failures(), 0);
}

#[test]
fn budget_refuses_overdraft() {
    let mut b = JobBudget::new_micro(1_000_000);
    assert_eq!(b.charge_micro(400_000), Ok(()));
    assert_eq!(b.charge_micro(600_000), Ok(()));
    assert_eq!(b.current_cost_micro(), 1_000_000);
    assert_eq!(
        b.charge_micro(1),
        Err(BudgetExhaustedError { limit_micro: 1_000_000, actual_micro: 1_000_001 })
    );
    assert_eq!(b.current_cost_micro(), 1_000_000);
    assert_eq!(b.limit_micro(), 1_000_000);
}

#[test]
fn samsara_levels() {
    assert_eq!(sync_samsara_level(4000, 1), (3, Some(SamsaraEvent::LevelUp { old_level: 1, new_level: 3 })));
    assert_eq!(sync_samsara_level(999, 1), (1, None));
    assert_eq!(sync_samsara_level(0, 0), (1, Some(SamsaraEvent::LevelUp { old_level: 0, new_level: 1 })));
    assert_eq!(sync_samsara_level(i64::MAX, 98), (100, Some(SamsaraEvent::LevelUp { old_level: 98, new_level: 100 })));
    assert_eq!(sync_samsara_level(i64::MAX, 150), (151, Some(SamsaraEvent::LevelUp { old_level: 150, new_level: 151 })));
    // The largest level whose threshold fits in an i64: 96_038_388² × 1000.
    assert_eq!(sync_samsara_level(0, 96_038_388), (96_038_388, None));
    assert_eq!(sync_samsara_level(0, -96_038_388), (-96_038_388, None));
}

#[test]
fn dream_choices() {
    let _ = DreamState::new();
    assert_eq!(communicative_probability(1), 0);
    assert_eq!(communicative_probability(5), 20);
    assert_eq!(communicative_probability(30), 50);
    assert_eq!(communicative_probability(-3), 0);
    assert_eq!(dream_roll(1234), 34);
    assert_eq!(dream_roll(-1234), -34);
    assert_eq!(choose_dream(1, 10, 5), None);
    assert_eq!(choose_dream(0, 10, 5), Some(DreamKind::Communicative));
    assert_eq!(choose_dream(0, 40, 5), Some(DreamKind::Explorative));
    assert_eq!(choose_dream(0, 41, 5), Some(DreamKind::Reflective));
    assert_eq!(choose_dream(0, -3, 1), Some(DreamKind::Communicative));
    assert_eq!(choose_dream(0, -3, 0), Some(DreamKind::Communicative));
    assert_eq!(choose_dream(0, 3, 1), Some(DreamKind::Reflective));
    assert_eq!(dream_seed(0), "cyberpunk aesthetics");
    assert_eq!(dream_seed(7), "biomimicry");
    assert_eq!(dream_seed(-1), "cyberpunk aesthetics"); // usize::MAX % 5 == 0
}

#[test]
fn dream_texts() {
    assert_eq!(explorative_directives("biomimicry"), "{\"dream_born\": true, \"seed\": \"biomimicry\", \"phantom\": true}");
    assert_eq!(redemption_topic("AI Future"), "AI Future (Redemption Remix)");
    assert_eq!(remix_directives("job-1"), "{\"remix_of\": \"job-1\", \"dream_born\": true}");
    assert_eq!(
        inspiration_description("a", "b", "t"),
        "Inspiration sparked by Biome Arena Match: a vs b for topic 't'."
    );
    assert_eq!(synthesis_topic("a", "b"), "Synthesizing lessons from Biome Match: a vs b");
    let jobs = vec![job("x", "c", JobStatus::Completed), job("y", "c", JobStatus::Failed), job("z", "c", JobStatus::Failed)];
    assert_eq!(first_failed(&jobs), Some(1));
    assert_eq!(first_failed(&jobs[..1].to_vec()), None);
}

#[test]
fn karma_query_texts() {
    assert_eq!(fts_phrase_query("security"), "\"security\"");
    assert_eq!(fts_phrase_query("say \"hi\""), "\"say \"\"hi\"\"\"");
    assert_eq!(fts_phrase_query(""), "\"\"");
    assert_eq!(karma_cache_key("skill-1", "Topic", 10, "hash_v1"), "skill-1:Topic:10:hash_v1");
    assert_eq!(karma_cache_key("s", "t", -1, ""), "s:t:-1:");
    // A new soul version gives a new key, so cached labels never go stale.
    assert_ne!(karma_cache_key("soul_skill", "Soul Test", 10, "hash_v1"), karma_cache_key("soul_skill", "Soul Test", 10, "hash_v2"));
}

#[test]
fn legacy_lessons_are_marked() {
    assert_eq!(label_lesson("Use X", Some("hash_v1"), "hash_v2"), "[LEGACY KARMA - from an older Soul version]\nUse X");
    assert_eq!(label_lesson("Use X", Some("hash_v2"), "hash_v2"), "Use X");
    assert_eq!(label_lesson("Use X", None, "hash_v2"), "Use X");
}

#[test]
fn karma_tiering() {
    const DAY: u64 = 86400;
    assert_eq!(maintain_tier(KarmaTier::Warm, false, 3, Some(DAY)), (KarmaTier::Hot, false));
    assert_eq!(maintain_tier(KarmaTier::Warm, false, 2, Some(DAY)), (KarmaTier::Warm, false));
    assert_eq!(maintain_tier(KarmaTier::Warm, true, 5, Some(DAY)), (KarmaTier::Warm, true));
    assert_eq!(maintain_tier(KarmaTier::Hot, false, 9, Some(31 * DAY)), (KarmaTier::Warm, false));
    assert_eq!(maintain_tier(KarmaTier::Hot, false, 9, Some(30 * DAY)), (KarmaTier::Hot, false));
    assert_eq!(maintain_tier(KarmaTier::Hot, false, 9, None), (KarmaTier::Cold, true));
    assert_eq!(maintain_tier(KarmaTier::Warm, false, 0, Some(91 * DAY)), (KarmaTier::Cold, true));
    assert_eq!(maintain_tier(KarmaTier::Cold, true, 9, Some(0)), (KarmaTier::Cold, true));
    assert_eq!(tier_name(KarmaTier::Hot), "HOT");
    assert_eq!(tier_name(KarmaTier::Cold), "COLD");
}

#[test]
fn settings_rows() {
    let e = SettingEntry::from_row("k".into(), "v".into(), "llm".into(), 1, "now".into());
    assert!(e.is_secret);
    let e = SettingEntry::from_row("k".into(), "v".into(), "llm".into(), 0, "now".into());
    assert!(!e.is_secret);
    assert_eq!(SettingEntry::secret_flag(true), 1);
    assert_eq!(SettingEntry::secret_flag(false), 0);
}

#[test]
fn karma_cache_read_after_write_and_expiry() {
    let mut c: KarmaCache<u32> = KarmaCache::new();
    assert_eq!(c.get("k", 0), None);
    c.insert("k".to_string(), 7, 1_000);
    assert_eq!(c.get("k", 1_000), Some(&7));
    assert_eq!(c.get("k", 300_999), Some(&7));
    assert_eq!(c.get("k", 301_000), None);
    assert_eq!(c.get("k", 10), Some(&7));
    c.insert("k".to_string(), 8, 2_000);
    assert_eq!(c.len(), 1);
    assert_eq!(c.get("k", 2_000), Some(&8));
}

#[test]
fn karma_cache_clears_when_over_capacity() {
    let mut c: KarmaCache<usize> = KarmaCache::new();
    for i in 0..51 {
        c.insert(format!("k{}", i), i, 0);
    }
    assert_eq!(c.len(), 51);
    assert_eq!(c.get("k3", 0), Some(&3));
    c.insert("new".to_string(), 99, 0);
    assert_eq!(c.len(), 1);
    assert_eq!(c.get("k3", 0), None);
    assert_eq!(c.get("new", 0), Some(&99));
}

#[test]
fn job_lifecycle_transitions() {
    let j = complete_job(job("a", "c", JobStatus::Processing), Some("[\"x\"]".to_string()));
    assert_eq!(j.status, JobStatus::Completed);
    assert_eq!(j.output_artifacts.as_deref(), Some("[\"x\"]"));
    let f = fail_job(job("b", "c", JobStatus::Processing), "Test failure reason".to_string());
    assert_eq!(f.status, JobStatus::Failed);
    assert_eq!(f.error_message.as_deref(), Some("Test failure reason"));
    let p = heartbeat_pulse(job("c", "c", JobStatus::Processing), "now".to_string());
    assert_eq!(p.last_heartbeat.as_deref(), Some("now"));
}

#[test]
fn zombie_reclamation() {
    let running = job("z", "c", JobStatus::Processing);
    assert!(is_zombie(&running, Some(15 * 60 + 1), 15));
    assert!(!is_zombie(&running, Some(15 * 60), 15));
    assert!(!is_zombie(&running, None, 15));
    assert!(!is_zombie(&job("p", "c", JobStatus::Pending), Some(10_000), 15));
    let reclaimed = reclaim_zombie(running.clone(), Some(3600), 15);
    assert_eq!(reclaimed.status, JobStatus::Failed);
    assert_eq!(reclaimed.error_message.as_deref(), Some("Zombie reclaimed: heartbeat timeout exceeded"));
    let again = reclaim_zombie(reclaimed.clone(), Some(3600), 15);
    assert_eq!(again.status, JobStatus::Failed);
    let alive = reclaim_zombie(running, Some(60), 15);
    assert_eq!(alive.status, JobStatus::Processing);
}

#[test]
fn creative_rating_guard() {
    let rated = set_creative_rating(job("r", "c", JobStatus::Completed), 1).ok().unwrap();
    assert_eq!(rated.creative_rating, Some(1));
    assert!(set_creative_rating(job("r", "c", JobStatus::Processing), -1).is_ok());
    match set_creative_rating(job("g", "c", JobStatus::Failed), 1) {
        Err((j, AiomeError::Infrastructure { reason })) => {
            assert!(reason.contains("Atomic Guard"));
            assert_eq!(reason, "Atomic Guard: Job 'g' is not in Completed/Processing state, rating rejected");
            assert_eq!(j.creative_rating, None);
        }
        _ => panic!("rating a failed job must be refused"),
    }
    assert!(set_creative_rating(job("q", "c", JobStatus::Pending), 1).is_err());
}

#[test]
fn retries_and_purging() {
    let (j, n, pill) = record_retry(job("t", "c", JobStatus::Processing), 0);
    assert_eq!((n, pill), (1, false));
    assert_eq!(j.status, JobStatus::Processing);
    let (j, n, pill) = record_retry(j, 2);
    assert_eq!((n, pill), (3, true));
    assert_eq!(j.status, JobStatus::Failed);
    assert_eq!(j.error_message.as_deref(), Some("Poison Pill Activated: API continually fails."));
    assert!(is_purgeable(&job("o", "c", JobStatus::Completed), 60 * 86400, 30));
    assert!(!is_purgeable(&job("o", "c", JobStatus::Completed), 86400, 30));
    assert!(!is_purgeable(&job("o", "c", JobStatus::Pending), 60 * 86400, 30));
}

#[test]
fn clock_driven_variants() {
    let claimed = claim_job_now(job("n", "c", JobStatus::Pending));
    assert_eq!(claimed.status, JobStatus::Processing);
    assert_eq!(claimed.started_at, claimed.last_heartbeat);
    assert!(claimed.started_at.is_some());
    assert_eq!(choose_dream_now(3, 10), None);
    assert!(choose_dream_now(0, 10).is_some());
    let seed = dream_seed_now();
    assert!(["cyberpunk aesthetics", "ancient lost technology", "biomimicry", "lo-fi horror", "solarpunk architecture"].contains(&seed));
}

#[test]
fn karma_tiering_settles_in_one_cycle() {
    const DAY: u64 = 86400;
    let cases = [
        (KarmaTier::Warm, false, 3i64, Some(DAY)),
        (KarmaTier::Hot, false, 0, None),
        (KarmaTier::Hot, false, 5, Some(40 * DAY)),
        (KarmaTier::Warm, true, 9, Some(100 * DAY)),
        (KarmaTier::Cold, true, 1, Some(DAY)),
    ];
    for (tier, archived, count, age) in cases {
        let once = maintain_tier(tier, archived, count, age);
        assert_eq!(maintain_tier(once.0, once.1, count, age), once);
    }
}

#[test]
fn karma_entries_take_the_first_ranked_and_label_legacy() {
    let ranked = vec![
        RankedLesson { id: "k1".to_string(), lesson: "old".to_string(), soul_hash: Some("v1".to_string()) },
        RankedLesson { id: "k2".to_string(), lesson: "new".to_string(), soul_hash: Some("v2".to_string()) },
        RankedLesson { id: "k3".to_string(), lesson: "plain".to_string(), soul_hash: None },
    ];
    let e = karma_entries(&ranked, 2, "v2");
    assert_eq!(e.len(), 2);
    assert_eq!(e[0].id, "k1");
    assert_eq!(e[0].lesson, "[LEGACY KARMA - from an older Soul version]\nold");
    assert_eq!(e[1].id, "k2");
    assert_eq!(e[1].lesson, "new");
    let all = karma_entries(&ranked, 10, "v2");
    assert_eq!(all.len(), 3);
    assert_eq!(all[2].lesson, "plain");
}

#[test]
fn only_the_thirty_day_verdict_is_final() {
    assert!(is_final_verdict(30));
    assert!(!is_final_verdict(7));
    assert!(!is_final_verdict(1));
}
