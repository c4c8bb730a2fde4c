//! Messages exchanged between the actors, and the LLM output contracts.
use std::collections::HashMap;
use vstd::prelude::*;

verus! {

/// A JSON value of `serde_json`, carried through unread.
#[verifier::external_type_specification]
#[verifier::external_body]
pub struct ExJsonValue(serde_json::Value);

/// Audit metadata of a message.
#[derive(Debug, Clone)]
pub struct MessageMeta {
    pub trace_id: String,
    pub sender_id: String,
}

/// A message with its audit metadata.
#[derive(Debug, Clone)]
pub struct Message<T> {
    pub meta: MessageMeta,
    pub payload: T,
}

#[derive(Debug, Clone)]
pub struct TrendRequest {
    pub category: String,
}

/// A script in one language.
#[derive(Debug, Clone)]
pub struct LocalizedScript {
    pub lang: String,
    pub display_intro: String,
    pub display_body: String,
    pub display_outro: String,
    pub script_intro: String,
    pub script_body: String,
    pub script_outro: String,
    pub style_intro: String,
    pub style_body: String,
    pub style_outro: String,
}

/// A generated concept.
#[derive(Debug, Clone)]
pub struct ConceptResponse {
    pub title: String,
    pub display_intro: String,
    pub display_body: String,
    pub display_outro: String,
    pub script_intro: String,
    pub script_body: String,
    pub script_outro: String,
    pub style_intro: String,
    pub style_body: String,
    pub style_outro: String,
    /// Localized scripts.
    pub scripts: Vec<LocalizedScript>,
    /// Shared visual style.
    pub common_style: String,
    /// Chosen style profile.
    pub style_profile: String,
    /// Per-scene visual prompts.
    pub visual_prompts: Vec<String>,
    /// Free-form metadata.
    pub metadata: HashMap<String, String>,
}

#[derive(Debug, Clone)]
pub struct GenerativeRequest {
    pub prompt: String,
    pub workflow_id: String,
    pub input_artifact: Option<String>,
}

#[derive(Debug, Clone)]
pub struct ArtifactResponse {
    pub output_path: String,
    pub job_id: String,
}

#[derive(Debug, Clone)]
pub struct VoiceResponse {
    pub audio_path: String,
}

#[derive(Debug, Clone)]
pub struct MediaProcessingRequest {
    pub input_path: String,
    pub context_path: Option<String>,
    pub metadata_path: Option<String>,
    pub force_style: Option<String>,
}

#[derive(Debug, Clone)]
pub struct MediaProcessingResponse {
    pub final_path: String,
}

/// An output file with its tag (e.g. its language).
#[derive(Debug, Clone)]
pub struct OutputArtifact {
    pub tag: String,
    pub path: String,
}

#[derive(Debug, Clone)]
pub struct WorkflowResponse {
    pub final_artifact_path: String,
    pub output_artifacts: Vec<OutputArtifact>,
    pub concept: ConceptResponse,
}

/// A self-defence rule.
#[derive(Debug, Clone, PartialEq, Eq)]
pub struct ImmuneRule {
    pub id: String,
    /// Detection pattern (natural language or regex).
    pub pattern: String,
    /// Severity, 1 to 100.
    pub severity: u8,
    /// Action: Block, Warn or Quarantine.
    pub action: String,
    pub created_at: String,
}

/// A match of the skill arena.
#[derive(Debug, Clone)]
pub struct ArenaMatch {
    pub id: String,
    pub skill_a: String,
    pub skill_b: String,
    pub topic: String,
    pub winner: Option<String>,
    pub reasoning: String,
    pub created_at: String,
}

#[derive(Debug, Clone)]
pub struct FederationSyncRequest {
    pub node_id: String,
    pub since: Option<String>,
    pub protocol_version: String,
}

#[derive(Debug, Clone)]
pub struct FederationSyncResponse {
    pub new_karmas: Vec<FederatedKarma>,
    pub new_immune_rules: Vec<ImmuneRule>,
    pub new_arena_matches: Vec<ArenaMatch>,
    pub server_time: String,
}

/// A lesson shared between nodes.
#[derive(Debug, Clone)]
pub struct FederatedKarma {
    pub id: String,
    pub job_id: Option<String>,
    pub karma_type: String,
    pub related_skill: String,
    pub lesson: String,
    pub weight: i32,
    pub created_at: String,
    pub soul_version_hash: Option<String>,
}

#[derive(Debug, Clone)]
pub struct FederationPushRequest {
    pub node_id: String,
    pub karmas: Vec<FederatedKarma>,
    pub rules: Vec<ImmuneRule>,
}

#[derive(Debug, Clone)]
pub struct FederationPushResponse {
    pub accepted_count: usize,
    pub message: String,
}

/// The LLM's directives for a job.
#[derive(Debug, Clone)]
pub struct KarmaDirectives {
    pub positive_prompt_additions: String,
    pub negative_prompt_additions: String,
    pub execution_notes: String,
    /// Overrides of workflow parameters, by node title and parameter name.
    pub parameter_overrides: HashMap<String, HashMap<String, serde_json::Value>>,
    /// Self-reported confidence; meant to be 0 to 100.
    pub confidence_score: u8,
}

impl Default for KarmaDirectives {
    /// Directives that add, override and note nothing, with no confidence.
    fn default() -> (r: Self)
        ensures
            r.positive_prompt_additions@ == Seq::<char>::empty(),
            r.negative_prompt_additions@ == Seq::<char>::empty(),
            r.execution_notes@ == Seq::<char>::empty(),
            r.parameter_overrides@ == Map::<String, HashMap<String, serde_json::Value>>::empty(),
            r.confidence_score == 0,
    {
        KarmaDirectives {
            positive_prompt_additions: String::new(),
            negative_prompt_additions: String::new(),
            execution_notes: String::new(),
            parameter_overrides: HashMap::new(),
            confidence_score: 0,
        }
    }
}

impl KarmaDirectives {
    /// The confidence clamped into 0..=100.
    pub fn clamped_confidence(&self) -> (r: u8)
        ensures
            r == (if self.confidence_score > 100 { 100 } else { self.confidence_score }),
    {
        if self.confidence_score > 100 {
            100
        } else {
            self.confidence_score
        }
    }
}

/// The job the LLM proposes: its theme, the workflow to use, and the
/// directives stored with it as JSON.
#[derive(Debug, Clone)]
pub struct LlmJobResponse {
    pub topic: String,
    pub style: String,
    pub directives: KarmaDirectives,
}

/// The economic situation of an agent.
#[derive(Debug, Clone, Copy)]
pub struct EconomicContext {
    pub balance: u64,
    pub spent_today: u64,
    pub daily_limit: u64,
}

} // verus!
