use aiome::autonomous::{AutonomousBiomeEngine, AutonomousConfig, LoopAction};
use aiome::delegation::{DelegationResult, FailureCategory};
use aiome::dialogue::DialogueManager;
use aiome::error::AiomeError;
use aiome::federation::{clean_lesson, incoming_wins};
use aiome::protocol::{BiomeCryptoError, BiomeMessage};
use aiome::swarm::{accepts_remote_clock, sync_local_clock, tick_local_clock};

#[test]
fn test_biome_message_encryption_decryption() {
    let mut msg = BiomeMessage {
        sender_pubkey: "sender".to_string(),
        recipient_pubkey: "recipient".to_string(),
        topic_id: "topic1".to_string(),
        content: "Hello from Biome Protocol!".to_string(),
        karma_root_cid: "cid123".to_string(),
        signature: "sig123".to_string(),
        lamport_clock: 1,
        timestamp: "2026-03-12T05:00:00Z".to_string(),
        encryption: "none".to_string(),
    };

    let key: [u8; 32] = [42; 32]; // dummy key

    // Test encryption
    msg.encrypt(&key).expect("Encryption should succeed");
    assert_eq!(msg.encryption, "chacha20-poly1305");
    assert_ne!(msg.content, "Hello from Biome Protocol!");

    // Test decryption
    msg.decrypt(&key).expect("Decryption should succeed");
    assert_eq!(msg.content, "Hello from Biome Protocol!");

    // Test decryption bypass for "none" encryption
    let mut unencrypted_msg = msg.clone();
    unencrypted_msg.encryption = "none".to_string();
    unencrypted_msg.content = "Plain text".to_string();
    unencrypted_msg
        .decrypt(&key)
        .expect("Bypass should succeed");
    assert_eq!(unencrypted_msg.content, "Plain text");
}

fn message(content: &str, encryption: &str) -> BiomeMessage {
    BiomeMessage {
        sender_pubkey: "s".to_string(),
        recipient_pubkey: "r".to_string(),
        topic_id: "t".to_string(),
        content: content.to_string(),
        karma_root_cid: "c".to_string(),
        signature: "g".to_string(),
        lamport_clock: 7,
        timestamp: "2026-01-01T00:00:00Z".to_string(),
        encryption: encryption.to_string(),
    }
}

#[test]
fn decrypt_errors() {
    let key: [u8; 32] = [1; 32];
    let mut bad_base64 = message("!!!not base64!!!", "chacha20-poly1305");
    assert_eq!(bad_base64.decrypt(&key), Err(BiomeCryptoError::InvalidBase64));
    assert_eq!(bad_base64.content, "!!!not base64!!!");

    let mut short = message("AAAA", "chacha20-poly1305");
    assert_eq!(short.decrypt(&key), Err(BiomeCryptoError::TooShortForNonce));

    let mut sealed = message("secret", "none");
    sealed.encrypt(&key).unwrap();
    let other: [u8; 32] = [2; 32];
    let before = sealed.content.clone();
    assert_eq!(sealed.decrypt(&other), Err(BiomeCryptoError::DecryptionFailed));
    assert_eq!(sealed.content, before);
}

#[test]
fn encryption_keeps_the_header_and_round_trips_empty_content() {
    let key: [u8; 32] = [9; 32];
    let mut m = message("", "none");
    m.encrypt(&key).unwrap();
    assert_eq!(m.topic_id, "t");
    assert_eq!(m.lamport_clock, 7);
    // 12-byte nonce and 16-byte tag, base64: 28 bytes -> 40 characters.
    assert_eq!(m.content.len(), 40);
    m.decrypt(&key).unwrap();
    assert_eq!(m.content, "");
    assert_eq!(m.encryption, "chacha20-poly1305");
}

fn run(exit_code: i32, stderr: &str) -> DelegationResult {
    DelegationResult { stdout: String::new(), stderr: stderr.to_string(), exit_code, duration_ms: 5 }
}

#[test]
fn delegation_failure_categories() {
    assert!(run(0, "").is_success());
    assert_eq!(run(0, "timeout").failure_category(), FailureCategory::NoFailure);
    assert_eq!(run(124, "").failure_category(), FailureCategory::Timeout);
    assert_eq!(run(1, "connection timeout").failure_category(), FailureCategory::Timeout);
    assert_eq!(run(137, "").failure_category(), FailureCategory::Oom);
    assert_eq!(run(1, "Out of memory").failure_category(), FailureCategory::Oom);
    assert_eq!(run(1, "ImportError: x").failure_category(), FailureCategory::DependencyMissing);
    assert_eq!(run(1, "SyntaxError: bad").failure_category(), FailureCategory::SyntaxError);
    assert_eq!(run(2, "boom").failure_category(), FailureCategory::UnknownRuntime);
}

#[test]
fn dialogue_turn_rules() {
    let now = (1_700_000_000i64, 0u32);
    assert_eq!(DialogueManager::check_turn("t", &None, now), Ok(()));
    assert_eq!(DialogueManager::check_turn("t", &Some((3, None)), now), Ok(()));
    assert_eq!(
        DialogueManager::check_turn("t", &Some((10, None)), now),
        Err(AiomeError::Infrastructure {
            reason: "Biome Error: Topic t has reached MAX_DIALOGUE_TURNS (10)".to_string()
        })
    );
    let later = "2099-01-01T00:00:00Z".to_string();
    assert_eq!(
        DialogueManager::check_turn("t", &Some((1, Some(later.clone()))), now),
        Err(AiomeError::Infrastructure {
            reason: "Biome Error: Topic t is in cooldown until 2099-01-01T00:00:00Z".to_string()
        })
    );
    let past = "2000-01-01T00:00:00Z".to_string();
    assert_eq!(DialogueManager::check_turn("t", &Some((1, Some(past))), now), Ok(()));
    let garbage = "not a time".to_string();
    assert_eq!(DialogueManager::check_turn("t", &Some((1, Some(garbage))), now), Ok(()));
}

#[test]
fn lamport_clock() {
    assert_eq!(tick_local_clock(4), 5);
    assert_eq!(sync_local_clock(10, 3), 11);
    assert_eq!(sync_local_clock(10, 50), 51);
    assert!(accepts_remote_clock(10, 100_010));
    assert!(!accepts_remote_clock(10, 100_011));
    assert_eq!(sync_local_clock(10, 100_011), 10);
    // A stored clock at i64::MAX is still merged.
    let top = i64::MAX as u64;
    assert_eq!(sync_local_clock(top, 3), top + 1);
    assert!(accepts_remote_clock(top, top + 100_000));
}

#[test]
fn lesson_truncation() {
    assert_eq!(clean_lesson("short"), "short");
    let exact = "a".repeat(2000);
    assert_eq!(clean_lesson(&exact), exact);
    let long = "b".repeat(2001);
    assert_eq!(clean_lesson(&long), format!("{}... [Truncated for Swarm Safety]", "b".repeat(2000)));
    // 1000 three-byte characters: over the byte limit, under the character count.
    let wide = "あ".repeat(1000);
    assert_eq!(clean_lesson(&wide), format!("{}... [Truncated for Swarm Safety]", wide));
}

#[test]
fn last_writer_wins() {
    assert!(incoming_wins(5, "a", 4, "z"));
    assert!(!incoming_wins(4, "z", 5, "a"));
    assert!(incoming_wins(5, "node-b", 5, "node-a"));
    assert!(!incoming_wins(5, "node-a", 5, "node-b"));
    assert!(!incoming_wins(5, "node-a", 5, "node-a"));
    assert!(incoming_wins(5, "node-ab", 5, "node-a"));
}

#[test]
fn autonomous_loop_decisions() {
    assert_eq!(AutonomousBiomeEngine::next_step(0, true, 3), LoopAction::Round(1));
    assert_eq!(AutonomousBiomeEngine::next_step(2, true, 3), LoopAction::Round(3));
    assert_eq!(AutonomousBiomeEngine::next_step(3, true, 3), LoopAction::Finish);
    assert_eq!(AutonomousBiomeEngine::next_step(0, false, 3), LoopAction::Finish);
    assert!(AutonomousBiomeEngine::pause_after(1, 3));
    assert!(!AutonomousBiomeEngine::pause_after(3, 3));
}

#[test]
fn autonomous_prompts_and_message() {
    let history = vec![(false, "hi".to_string()), (true, "hello".to_string())];
    let karma = vec!["l1".to_string(), "l2".to_string(), "l3".to_string(), "l4".to_string()];
    assert_eq!(
        AutonomousBiomeEngine::reply_context(&history, &karma),
        "### RECENT DIALOGUE HISTORY\nMe: hello\nPeer: hi\n\n### INTERNAL INSIGHTS (KARMA)\n- l1\n- l2\n- l3\n"
    );
    assert_eq!(AutonomousBiomeEngine::user_prompt("ctx"), "Context:\nctx\n\nYour reply:");
    assert_eq!(AutonomousBiomeEngine::payload_to_sign("pk", "topic", 42), "pk:topic:42");
    assert!(AutonomousBiomeEngine::system_prompt("music").contains("Your Topic of interest is: music\n"));
    let config = AutonomousConfig {
        interval_secs: 60,
        max_rounds: 3,
        topic_id: "topic".to_string(),
        peer_pubkey: "peer".to_string(),
    };
    let m = AutonomousBiomeEngine::outgoing_message(
        &config,
        "me".to_string(),
        "body".to_string(),
        "sig".to_string(),
        9,
        "now".to_string(),
    );
    assert_eq!(m.recipient_pubkey, "peer");
    assert_eq!(m.topic_id, "topic");
    assert_eq!(m.karma_root_cid, "cid_auto_v20");
    assert_eq!(m.encryption, "none");
    assert_eq!(m.lamport_clock, 9);
}

#[test]
fn dialogue_distillation_texts() {
    let history = vec![(true, "one".to_string()), (false, "two".to_string())];
    assert_eq!(DialogueManager::transcript(&history), "Peer: two\nMe: one\n");
    assert_eq!(
        DialogueManager::distill_prompt("t1", &history),
        Ok("Topic: t1\n\nTranscript:\nPeer: two\nMe: one\n".to_string())
    );
    assert_eq!(
        DialogueManager::distill_prompt("t1", &Vec::new()),
        Err(AiomeError::Infrastructure { reason: "Cannot distill empty dialogue".to_string() })
    );
    assert_eq!(DialogueManager::distillation_payload("t1", "sum", "ts"), "t1:sum:ts");
    assert_eq!(DialogueManager::insight_lesson("t1", "sum"), "Biome Insight (t1): sum");
    let d = DialogueManager::distillation("t1", "sum".to_string(), "node".to_string(), "sig".to_string(), "ts".to_string());
    assert_eq!(d.participants, vec!["node".to_string()]);
    assert_eq!(d.signatures, vec!["sig".to_string()]);
    assert!(DialogueManager::distill_system_prompt().starts_with("You are an AI distilling"));
}

#[test]
fn turn_check_now() {
    assert_eq!(DialogueManager::check_turn_now("t", &None), Ok(()));
    assert!(DialogueManager::check_turn_now("t", &Some((10, None))).is_err());
    let far = "2999-01-01T00:00:00Z".to_string();
    assert!(DialogueManager::check_turn_now("t", &Some((0, Some(far)))).is_err());
}
