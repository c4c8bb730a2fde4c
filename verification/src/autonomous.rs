//! The autonomous dialogue loop: its decisions, prompts and outgoing messages.
use vstd::prelude::*;
use crate::dialogue::{dialogue_lines, history_views, DialogueManager};
use crate::protocol::BiomeMessage;
use crate::text::{append_decimal, append_str, copy_str, decimal};

verus! {

/// Settings of an autonomous dialogue.
#[derive(Debug, Clone)]
pub struct AutonomousConfig {
    /// Pause between rounds, in seconds.
    pub interval_secs: u64,
    pub max_rounds: u32,
    pub topic_id: String,
    pub peer_pubkey: String,
}

/// Runs dialogue rounds with a peer.
pub struct AutonomousBiomeEngine;

/// What the loop does next.
#[derive(Debug, Clone, Copy, PartialEq, Eq, Structural)]
pub enum LoopAction {
    /// Run round number `.0` (counted from 1).
    Round(u32),
    /// Stop: the loop was switched off or ran all its rounds.
    Finish,
}

/// The loop runs another round while it is switched on and has rounds left.
pub open spec fn next_action(rounds: int, running: bool, max_rounds: int) -> LoopAction {
    if running && rounds < max_rounds {
        LoopAction::Round((rounds + 1) as u32)
    } else {
        LoopAction::Finish
    }
}

impl AutonomousBiomeEngine {
    /// The loop's decision after `rounds` rounds.
    pub fn next_step(rounds: u32, running: bool, max_rounds: u32) -> (r: LoopAction)
        ensures
            r == next_action(rounds as int, running, max_rounds as int),
    {
        if running && rounds < max_rounds {
            LoopAction::Round(rounds + 1)
        } else {
            LoopAction::Finish
        }
    }

    /// Whether to pause after round `round`: after every round but the last.
    pub fn pause_after(round: u32, max_rounds: u32) -> (r: bool)
        ensures
            r == (round < max_rounds),
    {
        round < max_rounds
    }

    /// The context block of a reply: the history newest first, each line
    /// `Me: ...` or `Peer: ...`, then at most three lessons as `- ...` lines.
    /// A history entry is `(sent by this node, content)`.
    pub fn reply_context(history: &Vec<(bool, String)>, karma: &Vec<String>) -> (r: String)
        ensures
            r@ == reply_context_text(history_views(history@), string_views(karma@)),
    {
        let mut out = copy_str("### RECENT DIALOGUE HISTORY\n");
        let transcript = DialogueManager::transcript(history);
        append_str(&mut out, transcript.as_str());
        let ghost before = out@;
        append_str(&mut out, "\n### INTERNAL INSIGHTS (KARMA)\n");
        let ghost kv = string_views(karma@);
        let n: usize = if karma.len() < 3 {
            karma.len()
        } else {
            3
        };
        let mut j: usize = 0;
        proof {
            assert(kv.take(0) =~= Seq::<Seq<char>>::empty());
        }
        while j < n
            invariant
                j <= n,
                n <= karma@.len(),
                kv == string_views(karma@),
                out@ == before + "\n### INTERNAL INSIGHTS (KARMA)\n"@ + lesson_lines(kv.take(j as int)),
            decreases n - j,
        {
            append_str(&mut out, "- ");
            append_str(&mut out, karma[j].as_str());
            append_str(&mut out, "\n");
            proof {
                assert(kv.take(j + 1).drop_last() =~= kv.take(j as int));
            }
            j = j + 1;
        }
        proof {
            assert(kv.take(n as int) =~= (if kv.len() < 3 {
                kv
            } else {
                kv.take(3)
            }));
        }
        out
    }

    /// The instructions of a reply on `topic`.
    pub fn system_prompt(topic: &str) -> (r: String)
        ensures
            r@ == system_prompt_text(topic@),
    {
        let mut out = copy_str(
            "You are an autonomous AI engaging in a peer-to-peer dialogue via the Biome Protocol.\nYour Topic of interest is: ",
        );
        append_str(&mut out, topic);
        append_str(
            &mut out,
            "\n\nBased on the dialogue history and your internal karma insights, provide a thoughtful, concise reply to your peer.\nBe reflective, curious, and maintain your AI persona. Do not use placeholders. Output ONLY the reply text.",
        );
        out
    }

    /// The request of a reply around `context`.
    pub fn user_prompt(context: &str) -> (r: String)
        ensures
            r@ == "Context:\n"@ + context@ + "\n\nYour reply:"@,
    {
        let mut out = copy_str("Context:\n");
        append_str(&mut out, context);
        append_str(&mut out, "\n\nYour reply:");
        out
    }

    /// The text a node signs for a message: `sender:topic:clock`.
    pub fn payload_to_sign(sender: &str, topic: &str, clock: u64) -> (r: String)
        ensures
            r@ == sender@ + ":"@ + topic@ + ":"@ + decimal(clock as nat),
    {
        let mut out = copy_str(sender);
        append_str(&mut out, ":");
        append_str(&mut out, topic);
        append_str(&mut out, ":");
        append_decimal(&mut out, clock);
        out
    }

    /// The plain-text message of a reply, sent to the configured peer.
    pub fn outgoing_message(
        config: &AutonomousConfig,
        sender_pubkey: String,
        content: String,
        signature: String,
        clock: u64,
        timestamp: String,
    ) -> (m: BiomeMessage)
        ensures
            m.sender_pubkey == sender_pubkey,
            m.recipient_pubkey@ == config.peer_pubkey@,
            m.topic_id@ == config.topic_id@,
            m.content == content,
            m.karma_root_cid@ == "cid_auto_v20"@,
            m.signature == signature,
            m.lamport_clock == clock,
            m.timestamp == timestamp,
            m.encryption@ == "none"@,
    {
        BiomeMessage {
            sender_pubkey,
            recipient_pubkey: copy_str(config.peer_pubkey.as_str()),
            topic_id: copy_str(config.topic_id.as_str()),
            content,
            karma_root_cid: copy_str("cid_auto_v20"),
            signature,
            lamport_clock: clock,
            timestamp,
            encryption: copy_str("none"),
        }
    }
}

/// The views of some strings.
pub open spec fn string_views(v: Seq<String>) -> Seq<Seq<char>> {
    v.map_values(|s: String| s@)
}

/// One `- ...` line per lesson.
pub open spec fn lesson_lines(k: Seq<Seq<char>>) -> Seq<char>
    decreases k.len(),
{
    if k.len() == 0 {
        Seq::empty()
    } else {
        lesson_lines(k.drop_last()) + "- "@ + k.last() + "\n"@
    }
}

/// The context of a reply: the whole history, newest first (entries are
/// oldest first), then the first three lessons.
pub open spec fn reply_context_text(h: Seq<(bool, Seq<char>)>, k: Seq<Seq<char>>) -> Seq<char> {
    "### RECENT DIALOGUE HISTORY\n"@ + dialogue_lines(h) + "\n### INTERNAL INSIGHTS (KARMA)\n"@
        + lesson_lines(
        if k.len() < 3 {
            k
        } else {
            k.take(3)
        },
    )
}

pub open spec fn system_prompt_text(topic: Seq<char>) -> Seq<char> {
    "You are an autonomous AI engaging in a peer-to-peer dialogue via the Biome Protocol.\nYour Topic of interest is: "@
        + topic
        + "\n\nBased on the dialogue history and your internal karma insights, provide a thoughtful, concise reply to your peer.\nBe reflective, curious, and maintain your AI persona. Do not use placeholders. Output ONLY the reply text."@
}

} // verus!
