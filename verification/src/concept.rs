//! Acceptance of the JSON block found in a model reply.
use vstd::prelude::*;
use crate::contracts::{ConceptResponse, LocalizedScript};
use crate::error::AiomeError;
use crate::text::{chars_of, copy_str, has_char, seq_has_char, trim, trim_str};

verus! {

/// The reason given when a reply carries no JSON.
pub open spec fn no_json_message() -> Seq<char> {
    "No JSON block detected in LLM output"@
}

/// A block is accepted when, trimmed, it is not empty and it holds `{` or `[`.
pub open spec fn json_block_accepted(block: Seq<char>) -> bool {
    trim(block).len() > 0 && (has_char(block, '{') || has_char(block, '['))
}

/// Accepts the extracted JSON block of a reply, or refuses it.
pub fn check_json_block(block: &str) -> (r: Result<String, AiomeError>)
    ensures
        json_block_accepted(block@) ==> (r matches Ok(s) && s@ == block@),
        !json_block_accepted(block@) ==> (r matches Err(AiomeError::Infrastructure { reason })
            && reason@ == no_json_message()),
{
    let t = trim_str(block);
    let v = chars_of(block);
    if t.as_str().is_empty() || (!seq_has_char(v.as_slice(), '{') && !seq_has_char(v.as_slice(), '[')) {
        return Err(AiomeError::Infrastructure { reason: copy_str("No JSON block detected in LLM output") });
    }
    Ok(copy_str(block))
}

/// The English script a concept carries, tagged `en`.
pub fn english_script(c: &ConceptResponse) -> (r: LocalizedScript)
    ensures
        r.lang@ == "en"@,
        r.display_intro@ == c.display_intro@,
        r.display_body@ == c.display_body@,
        r.display_outro@ == c.display_outro@,
        r.script_intro@ == c.script_intro@,
        r.script_body@ == c.script_body@,
        r.script_outro@ == c.script_outro@,
        r.style_intro@ == c.style_intro@,
        r.style_body@ == c.style_body@,
        r.style_outro@ == c.style_outro@,
{
    LocalizedScript {
        lang: copy_str("en"),
        display_intro: copy_str(c.display_intro.as_str()),
        display_body: copy_str(c.display_body.as_str()),
        display_outro: copy_str(c.display_outro.as_str()),
        script_intro: copy_str(c.script_intro.as_str()),
        script_body: copy_str(c.script_body.as_str()),
        script_outro: copy_str(c.script_outro.as_str()),
        style_intro: copy_str(c.style_intro.as_str()),
        style_body: copy_str(c.style_body.as_str()),
        style_outro: copy_str(c.style_outro.as_str()),
    }
}

/// A translated script, tagged `ja`.
pub fn mark_japanese(script: LocalizedScript) -> (r: LocalizedScript)
    ensures
        r.lang@ == "ja"@,
        r.display_intro == script.display_intro,
        r.display_body == script.display_body,
        r.display_outro == script.display_outro,
        r.script_intro == script.script_intro,
        r.script_body == script.script_body,
        r.script_outro == script.script_outro,
        r.style_intro == script.style_intro,
        r.style_body == script.style_body,
        r.style_outro == script.style_outro,
{
    LocalizedScript { lang: copy_str("ja"), ..script }
}

/// The published concept: the English and Japanese scripts listed, and the
/// displayed and spoken texts taken from the Japanese one (styles stay).
pub fn localize_concept(concept: ConceptResponse, ja: LocalizedScript) -> (r: ConceptResponse)
    ensures
        r.scripts@.len() == 2,
        r.scripts@[0].lang@ == "en"@,
        r.scripts@[0].display_intro@ == concept.display_intro@,
        r.scripts@[0].display_body@ == concept.display_body@,
        r.scripts@[0].display_outro@ == concept.display_outro@,
        r.scripts@[0].script_intro@ == concept.script_intro@,
        r.scripts@[0].script_body@ == concept.script_body@,
        r.scripts@[0].script_outro@ == concept.script_outro@,
        r.scripts@[0].style_intro@ == concept.style_intro@,
        r.scripts@[0].style_body@ == concept.style_body@,
        r.scripts@[0].style_outro@ == concept.style_outro@,
        r.scripts@[1].lang@ == ja.lang@,
        r.scripts@[1].display_intro@ == ja.display_intro@,
        r.scripts@[1].display_body@ == ja.display_body@,
        r.scripts@[1].display_outro@ == ja.display_outro@,
        r.scripts@[1].script_intro@ == ja.script_intro@,
        r.scripts@[1].script_body@ == ja.script_body@,
        r.scripts@[1].script_outro@ == ja.script_outro@,
        r.scripts@[1].style_intro@ == ja.style_intro@,
        r.scripts@[1].style_body@ == ja.style_body@,
        r.scripts@[1].style_outro@ == ja.style_outro@,
        r.display_intro == ja.display_intro,
        r.display_body == ja.display_body,
        r.display_outro == ja.display_outro,
        r.script_intro == ja.script_intro,
        r.script_body == ja.script_body,
        r.script_outro == ja.script_outro,
        r.title == concept.title,
        r.style_intro == concept.style_intro,
        r.style_body == concept.style_body,
        r.style_outro == concept.style_outro,
        r.common_style == concept.common_style,
        r.style_profile == concept.style_profile,
        r.visual_prompts == concept.visual_prompts,
        r.metadata == concept.metadata,
{
    let en = english_script(&concept);
    let ja_copy = LocalizedScript {
        lang: copy_str(ja.lang.as_str()),
        display_intro: copy_str(ja.display_intro.as_str()),
        display_body: copy_str(ja.display_body.as_str()),
        display_outro: copy_str(ja.display_outro.as_str()),
        script_intro: copy_str(ja.script_intro.as_str()),
        script_body: copy_str(ja.script_body.as_str()),
        script_outro: copy_str(ja.script_outro.as_str()),
        style_intro: copy_str(ja.style_intro.as_str()),
        style_body: copy_str(ja.style_body.as_str()),
        style_outro: copy_str(ja.style_outro.as_str()),
    };
    let mut scripts: Vec<LocalizedScript> = Vec::new();
    scripts.push(en);
    scripts.push(ja_copy);
    ConceptResponse {
        scripts,
        display_intro: ja.display_intro,
        display_body: ja.display_body,
        display_outro: ja.display_outro,
        script_intro: ja.script_intro,
        script_body: ja.script_body,
        script_outro: ja.script_outro,
        ..concept
    }
}

} // verus!
