//! Dialogue rules of the Biome protocol: at most ten turns per topic and a
//! cooldown between turns.
use vstd::prelude::*;
use crate::error::AiomeError;
use crate::ident::now_instant;
use crate::protocol::DialogueDistillation;
use crate::text::{append_signed_decimal, append_str, copy_str, signed_decimal};

verus! {

/// The most turns a topic may take.
pub const MAX_DIALOGUE_TURNS: i32 = 10;

/// Minutes of cooldown set after each turn.
pub const TURN_COOLDOWN_MINUTES: i64 = 5;

/// Enforces the dialogue rules.
pub struct DialogueManager;

/// Kinds of misbehaviour that lower a peer's reputation.
#[derive(Debug, Clone, Copy, PartialEq, Eq, Structural)]
pub enum PenaltyCategory {
    InvalidSignature,
    Timeout,
    Spam,
    MaliciousIntent,
}

/// The instant an RFC 3339 timestamp denotes, as seconds since the Unix
/// epoch and nanoseconds, or `None` when it does not parse.
pub uninterp spec fn rfc3339_instant(s: Seq<char>) -> Option<(i64, u32)>;

/// `chrono::DateTime::parse_from_rfc3339`, read as seconds and nanoseconds
/// since the epoch (`timestamp`, `timestamp_subsec_nanos`).
/// Trusted: the outcome is the named `rfc3339_instant` of the text.
#[verifier::external_body]
pub(crate) fn parse_rfc3339(s: &str) -> (r: Option<(i64, u32)>)
    ensures
        r == rfc3339_instant(s@),
{
    match chrono::DateTime::parse_from_rfc3339(s) {
        Ok(d) => Some((d.timestamp(), d.timestamp_subsec_nanos())),
        Err(_) => None,
    }
}

/// `a` is strictly earlier than `b`.
pub open spec fn earlier(a: (i64, u32), b: (i64, u32)) -> bool {
    a.0 < b.0 || (a.0 == b.0 && a.1 < b.1)
}

/// Reason given when a topic has used its turns.
pub open spec fn turn_limit_message(topic: Seq<char>) -> Seq<char> {
    "Biome Error: Topic "@ + topic + " has reached MAX_DIALOGUE_TURNS ("@ + signed_decimal(
        MAX_DIALOGUE_TURNS as int,
    ) + ")"@
}

/// Reason given while a topic cools down.
pub open spec fn cooldown_message(topic: Seq<char>, until: Seq<char>) -> Seq<char> {
    "Biome Error: Topic "@ + topic + " is in cooldown until "@ + until
}

/// Whether a topic may take another turn at `now`, given its stored
/// status (turn count and cooldown end), and the reason if not.
pub open spec fn turn_verdict(
    topic: Seq<char>,
    status: Option<(i32, Option<Seq<char>>)>,
    now: (i64, u32),
) -> Option<Seq<char>> {
    match status {
        None => None,
        Some((count, cooldown)) => if count >= MAX_DIALOGUE_TURNS {
            Some(turn_limit_message(topic))
        } else {
            match cooldown {
                Some(until) => match rfc3339_instant(until) {
                    Some(t) => if earlier(now, t) {
                        Some(cooldown_message(topic, until))
                    } else {
                        None
                    },
                    None => None,
                },
                None => None,
            }
        },
    }
}

/// The view of a stored topic status.
pub open spec fn status_view(status: Option<(i32, Option<String>)>) -> Option<(i32, Option<Seq<char>>)> {
    match status {
        None => None,
        Some((c, u)) => Some((c, match u {
            Some(s) => Some(s@),
            None => None,
        })),
    }
}

impl DialogueManager {
    /// Decides, before a message is sent, whether topic `topic_id` may take
    /// another turn at `now`: a topic at `MAX_DIALOGUE_TURNS` is refused, and
    /// so is one whose cooldown end (when it parses) is still ahead.
    /// A topic with no stored status may always go on.
    pub fn check_turn(
        topic_id: &str,
        status: &Option<(i32, Option<String>)>,
        now: (i64, u32),
    ) -> (r: Result<(), AiomeError>)
        ensures
            match turn_verdict(topic_id@, status_view(*status), now) {
                None => r is Ok,
                Some(m) => r matches Err(AiomeError::Infrastructure { reason }) && reason@ == m,
            },
            r is Ok ==> (status_view(*status) matches Some((c, _)) ==> c < MAX_DIALOGUE_TURNS),
    {
        match status {
            None => Ok(()),
            Some((count, cooldown)) => {
                if *count >= MAX_DIALOGUE_TURNS {
                    let mut m = copy_str("Biome Error: Topic ");
                    append_str(&mut m, topic_id);
                    append_str(&mut m, " has reached MAX_DIALOGUE_TURNS (");
                    append_signed_decimal(&mut m, MAX_DIALOGUE_TURNS as i64);
                    append_str(&mut m, ")");
                    proof {
                        assert(m@ =~= turn_limit_message(topic_id@));
                    }
                    return Err(AiomeError::Infrastructure { reason: m });
                }
                match cooldown {
                    Some(until) => match parse_rfc3339(until.as_str()) {
                        Some(t) => {
                            if now.0 < t.0 || (now.0 == t.0 && now.1 < t.1) {
                                let mut m = copy_str("Biome Error: Topic ");
                                append_str(&mut m, topic_id);
                                append_str(&mut m, " is in cooldown until ");
                                append_str(&mut m, until.as_str());
                                proof {
                                    assert(m@ =~= cooldown_message(topic_id@, until@));
                                }
                                Err(AiomeError::Infrastructure { reason: m })
                            } else {
                                Ok(())
                            }
                        },
                        None => Ok(()),
                    },
                    None => Ok(()),
                }
            },
        }
    }
}

/// The views of a history.
pub open spec fn history_views(h: Seq<(bool, String)>) -> Seq<(bool, Seq<char>)> {
    h.map_values(|e: (bool, String)| (e.0, e.1@))
}

/// One `Me: ...` / `Peer: ...` line per entry, the last entry first.
pub open spec fn dialogue_lines(h: Seq<(bool, Seq<char>)>) -> Seq<char>
    decreases h.len(),
{
    if h.len() == 0 {
        Seq::empty()
    } else {
        dialogue_lines(h.drop_first()) + (if h[0].0 {
            "Me"@
        } else {
            "Peer"@
        }) + ": "@ + h[0].1 + "\n"@
    }
}

impl DialogueManager {
    /// Decides at the current time whether `topic_id` may take another turn,
    /// as `check_turn`: a topic at its turn limit is refused whatever the
    /// time; one with no status, or under the limit without a cooldown (or
    /// with one that does not parse), may go on.
    pub fn check_turn_now(topic_id: &str, status: &Option<(i32, Option<String>)>) -> (r: Result<(), AiomeError>)
        ensures
            exists|now: (i64, u32)|
                match #[trigger] turn_verdict(topic_id@, status_view(*status), now) {
                    None => r is Ok,
                    Some(m) => r matches Err(AiomeError::Infrastructure { reason }) && reason@ == m,
                },
    {
        let now = now_instant();
        let r = Self::check_turn(topic_id, status, now);
        proof {
            assert(match turn_verdict(topic_id@, status_view(*status), now) {
                None => r is Ok,
                Some(m) => r matches Err(AiomeError::Infrastructure { reason }) && reason@ == m,
            });
        }
        r
    }

    /// The transcript of a dialogue, newest message first: one `Me: ...`
    /// or `Peer: ...` line per message. A history entry is `(sent by this
    /// node, content)`, oldest first.
    pub fn transcript(history: &Vec<(bool, String)>) -> (r: String)
        ensures
            r@ == dialogue_lines(history_views(history@)),
    {
        let mut out = String::new();
        let mut i: usize = history.len();
        let ghost hv = history_views(history@);
        proof {
            assert(hv.skip(hv.len() as int) =~= Seq::<(bool, Seq<char>)>::empty());
        }
        while i > 0
            invariant
                i <= history@.len(),
                hv == history_views(history@),
                out@ == dialogue_lines(hv.skip(i as int)),
            decreases i,
        {
            i = i - 1;
            if history[i].0 {
                append_str(&mut out, "Me");
            } else {
                append_str(&mut out, "Peer");
            }
            append_str(&mut out, ": ");
            append_str(&mut out, history[i].1.as_str());
            append_str(&mut out, "\n");
            proof {
                assert(hv.skip(i as int).drop_first() =~= hv.skip(i + 1));
                assert(hv.skip(i as int)[0] == hv[i as int]);
            }
        }
        proof {
            assert(hv.skip(0) =~= hv);
        }
        out
    }

    /// The request that distills a dialogue on `topic_id`; an empty history
    /// cannot be distilled.
    pub fn distill_prompt(topic_id: &str, history: &Vec<(bool, String)>) -> (r: Result<String, AiomeError>)
        ensures
            history@.len() == 0 ==> (r matches Err(AiomeError::Infrastructure { reason })
                && reason@ == "Cannot distill empty dialogue"@),
            history@.len() > 0 ==> (r matches Ok(p) && p@ == "Topic: "@ + topic_id@ + "\n\nTranscript:\n"@
                + dialogue_lines(history_views(history@))),
    {
        if history.len() == 0 {
            return Err(AiomeError::Infrastructure { reason: copy_str("Cannot distill empty dialogue") });
        }
        let mut out = copy_str("Topic: ");
        append_str(&mut out, topic_id);
        append_str(&mut out, "\n\nTranscript:\n");
        let t = Self::transcript(history);
        append_str(&mut out, t.as_str());
        Ok(out)
    }

    /// The instructions of a distillation.
    pub fn distill_system_prompt() -> (r: &'static str)
        ensures
            r@ == "You are an AI distilling an autonomous peer-to-peer dialogue.\nProvide a concise, focused summary of the main insights, agreements, or lessons learned during this exchange.\nThis summary will be stored as permanent Karma for the AI soul. Output ONLY the summary text."@,
    {
        "You are an AI distilling an autonomous peer-to-peer dialogue.\nProvide a concise, focused summary of the main insights, agreements, or lessons learned during this exchange.\nThis summary will be stored as permanent Karma for the AI soul. Output ONLY the summary text."
    }

    /// What a node signs for a distillation: `topic:summary:timestamp`.
    pub fn distillation_payload(topic_id: &str, summary: &str, timestamp: &str) -> (r: String)
        ensures
            r@ == topic_id@ + ":"@ + summary@ + ":"@ + timestamp@,
    {
        let mut out = copy_str(topic_id);
        append_str(&mut out, ":");
        append_str(&mut out, summary);
        append_str(&mut out, ":");
        append_str(&mut out, timestamp);
        out
    }

    /// The distillation record, signed by this node alone.
    pub fn distillation(
        topic_id: &str,
        summary: String,
        node_id: String,
        signature: String,
        timestamp: String,
    ) -> (r: DialogueDistillation)
        ensures
            r.topic_id@ == topic_id@,
            r.summary == summary,
            r.participants@ == seq![node_id],
            r.signatures@ == seq![signature],
            r.timestamp == timestamp,
    {
        let mut participants: Vec<String> = Vec::new();
        participants.push(node_id);
        let mut signatures: Vec<String> = Vec::new();
        signatures.push(signature);
        DialogueDistillation { topic_id: copy_str(topic_id), summary, participants, signatures, timestamp }
    }

    /// The lesson a distillation is stored as.
    pub fn insight_lesson(topic_id: &str, summary: &str) -> (r: String)
        ensures
            r@ == "Biome Insight ("@ + topic_id@ + "): "@ + summary@,
    {
        let mut out = copy_str("Biome Insight (");
        append_str(&mut out, topic_id);
        append_str(&mut out, "): ");
        append_str(&mut out, summary);
        out
    }
}

} // verus!
