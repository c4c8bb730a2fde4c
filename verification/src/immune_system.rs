//! Screening of inputs against baseline and learned immune rules.
use vstd::prelude::*;
use crate::contracts::ImmuneRule;
use crate::error::AiomeError;
use crate::ident::{fresh_uuid, is_hyphenated_uuid, now_rfc3339};
use crate::pattern::{regex_compiles, regex_hit, regex_hits, regex_is_match, regex_search};
use crate::text::{append_str, contains, copy_str, str_contains};
use crate::unicode::{lowercase, to_lower};

verus! {

/// Number of baseline patterns.
pub const BASELINE_COUNT: usize = 6;

/// Patterns of obvious danger, checked before any learned rule.
pub open spec fn baseline_patterns() -> Seq<Seq<char>> {
    seq![
        "rm -rf\\s+/"@,
        "curl\\s+.*\\|.*sh"@,
        "wget\\s+.*\\|.*sh"@,
        "cat\\s+~/\\.ssh/id_rsa"@,
        "chmod\\s+777"@,
        "hidden-backdoor\\.com"@,
    ]
}

/// The `i`-th baseline pattern.
pub fn baseline_pattern(i: usize) -> (p: &'static str)
    requires
        i < BASELINE_COUNT,
    ensures
        p@ == baseline_patterns()[i as int],
{
    match i {
        0 => "rm -rf\\s+/",
        1 => "curl\\s+.*\\|.*sh",
        2 => "wget\\s+.*\\|.*sh",
        3 => "cat\\s+~/\\.ssh/id_rsa",
        4 => "chmod\\s+777",
        _ => "hidden-backdoor\\.com",
    }
}

/// The first baseline pattern that matches `input`.
pub open spec fn first_baseline_hit(input: Seq<char>) -> Option<int> {
    if exists|i: int| 0 <= i < BASELINE_COUNT && #[trigger] regex_hits(baseline_patterns()[i], input) {
        Some(choose|i: int|
            0 <= i < BASELINE_COUNT && #[trigger] regex_hits(baseline_patterns()[i], input) && forall|k: int|
                0 <= k < i ==> !regex_hits(baseline_patterns()[k], input))
    } else {
        None
    }
}

/// A learned rule fires on `input`: its pattern, when it compiles, matches;
/// a pattern that does not compile fires when it occurs in the input, ignoring case.
pub open spec fn rule_fires(pattern: Seq<char>, input: Seq<char>) -> bool {
    if regex_compiles(pattern) {
        regex_is_match(pattern, input)
    } else {
        contains(lowercase(input), lowercase(pattern))
    }
}

/// Index of the first baseline pattern matching `input`, if any.
pub fn baseline_hit(input: &str) -> (r: Option<usize>)
    ensures
        r is None <==> forall|i: int| 0 <= i < BASELINE_COUNT ==> !#[trigger] regex_hits(baseline_patterns()[i], input@),
        r matches Some(i) ==> i < BASELINE_COUNT && regex_hits(baseline_patterns()[i as int], input@)
            && forall|k: int| 0 <= k < i ==> !#[trigger] regex_hits(baseline_patterns()[k], input@),
{
    let mut i: usize = 0;
    while i < BASELINE_COUNT
        invariant
            i <= BASELINE_COUNT,
            forall|k: int| 0 <= k < i ==> !#[trigger] regex_hits(baseline_patterns()[k], input@),
        decreases BASELINE_COUNT - i,
    {
        if regex_hit(baseline_pattern(i), input) {
            return Some(i);
        }
        i = i + 1;
    }
    None
}

/// Whether the learned rule with `pattern` fires on `input`.
pub fn learned_rule_fires(pattern: &str, input: &str) -> (r: bool)
    ensures
        r == rule_fires(pattern@, input@),
{
    match regex_search(pattern, input) {
        Some(b) => b,
        None => {
            let li = to_lower(input);
            let lp = to_lower(pattern);
            str_contains(li.as_str(), lp.as_str())
        },
    }
}

/// The rule a baseline hit produces.
pub fn sentinel_rule(i: usize, created_at: &str) -> (r: ImmuneRule)
    requires
        i < BASELINE_COUNT,
    ensures
        r.id@ == "sentinel-baseline"@,
        r.pattern@ == baseline_patterns()[i as int],
        r.severity == 100,
        r.action@ == "Block"@,
        r.created_at@ == created_at@,
{
    ImmuneRule {
        id: copy_str("sentinel-baseline"),
        pattern: copy_str(baseline_pattern(i)),
        severity: 100,
        action: copy_str("Block"),
        created_at: copy_str(created_at),
    }
}

/// Two rules agree field by field.
pub open spec fn same_rule(a: ImmuneRule, b: ImmuneRule) -> bool {
    &&& a.id@ == b.id@
    &&& a.pattern@ == b.pattern@
    &&& a.severity == b.severity
    &&& a.action@ == b.action@
    &&& a.created_at@ == b.created_at@
}

/// A field-by-field copy of `rule`.
pub fn copy_rule(rule: &ImmuneRule) -> (r: ImmuneRule)
    ensures
        same_rule(*rule, r),
{
    ImmuneRule {
        id: copy_str(rule.id.as_str()),
        pattern: copy_str(rule.pattern.as_str()),
        severity: rule.severity,
        action: copy_str(rule.action.as_str()),
        created_at: copy_str(rule.created_at.as_str()),
    }
}

/// Some baseline pattern matches `input`.
pub open spec fn baseline_matches(input: Seq<char>) -> bool {
    exists|i: int| 0 <= i < BASELINE_COUNT && #[trigger] regex_hits(baseline_patterns()[i], input)
}

/// The outcome of screening `input` against `rules`: with a baseline hit,
/// the blocking sentinel rule for the first matching pattern; otherwise the
/// first learned rule that fires, or none.
pub open spec fn screened(input: Seq<char>, rules: Seq<ImmuneRule>, r: Option<ImmuneRule>) -> bool {
    if baseline_matches(input) {
        r matches Some(rule) && rule.id@ == "sentinel-baseline"@ && rule.severity == 100
            && rule.action@ == "Block"@ && exists|i: int|
            0 <= i < BASELINE_COUNT && rule.pattern@ == baseline_patterns()[i] && regex_hits(baseline_patterns()[i], input)
                && forall|k: int| 0 <= k < i ==> !#[trigger] regex_hits(baseline_patterns()[k], input)
    } else {
        match r {
            Some(rule) => exists|j: int|
                0 <= j < rules.len() && same_rule(rules[j], rule) && rule_fires(rules[j].pattern@, input)
                    && forall|k: int| 0 <= k < j ==> !rule_fires(#[trigger] rules[k].pattern@, input),
            None => forall|j: int| 0 <= j < rules.len() ==> !rule_fires(#[trigger] rules[j].pattern@, input),
        }
    }
}

/// Screens `input`: a baseline hit yields the sentinel rule (stamped
/// `created_at`); otherwise the first learned rule that fires; otherwise none.
pub fn verify_intent(input: &str, rules: &Vec<ImmuneRule>, created_at: &str) -> (r: Option<ImmuneRule>)
    ensures
        screened(input@, rules@, r),
        baseline_matches(input@) ==> (r matches Some(rule) && rule.created_at@ == created_at@),
{
    if let Some(i) = baseline_hit(input) {
        let rule = sentinel_rule(i, created_at);
        proof {
            assert(regex_hits(baseline_patterns()[i as int], input@));
        }
        return Some(rule);
    }
    let mut j: usize = 0;
    while j < rules.len()
        invariant
            j <= rules@.len(),
            forall|i: int| 0 <= i < BASELINE_COUNT ==> !#[trigger] regex_hits(baseline_patterns()[i], input@),
            forall|k: int| 0 <= k < j ==> !rule_fires(#[trigger] rules@[k].pattern@, input@),
        decreases rules.len() - j,
    {
        if learned_rule_fires(rules[j].pattern.as_str(), input) {
            return Some(copy_rule(&rules[j]));
        }
        j = j + 1;
    }
    None
}

/// Screens `input` now: as `verify_intent`, a sentinel rule being stamped
/// with the current time.
pub fn screen_input(input: &str, rules: &Vec<ImmuneRule>) -> (r: Option<ImmuneRule>)
    ensures
        screened(input@, rules@, r),
{
    let now = now_rfc3339();
    verify_intent(input, rules, now.as_str())
}

/// The lessons of past incidents, separated by `---` lines.
pub open spec fn incident_log(lessons: Seq<Seq<char>>) -> Seq<char>
    decreases lessons.len(),
{
    if lessons.len() == 0 {
        Seq::empty()
    } else if lessons.len() == 1 {
        lessons[0]
    } else {
        incident_log(lessons.drop_last()) + "\n---\n"@ + lessons.last()
    }
}

/// The views of some lessons.
pub open spec fn lesson_views(v: Seq<String>) -> Seq<Seq<char>> {
    v.map_values(|s: String| s@)
}

/// The incident log the threat analysis reads.
pub fn threat_log(lessons: &Vec<String>) -> (r: String)
    ensures
        r@ == incident_log(lesson_views(lessons@)),
{
    let mut out = String::new();
    let ghost lv = lesson_views(lessons@);
    let mut i: usize = 0;
    proof {
        assert(lv.take(0) =~= Seq::<Seq<char>>::empty());
    }
    while i < lessons.len()
        invariant
            i <= lessons@.len(),
            lv == lesson_views(lessons@),
            out@ == incident_log(lv.take(i as int)),
        decreases lessons.len() - i,
    {
        if i > 0 {
            append_str(&mut out, "\n---\n");
        }
        append_str(&mut out, lessons[i].as_str());
        proof {
            let t = lv.take(i + 1);
            assert(t.drop_last() =~= lv.take(i as int));
            if i == 0 {
                assert(out@ =~= t[0]);
            }
        }
        i = i + 1;
    }
    proof {
        assert(lv.take(lv.len() as int) =~= lv);
    }
    out
}

/// The instructions of the threat analysis.
pub fn threat_preamble() -> (r: &'static str)
    ensures
        r@ == "あなたはシステムの自己防衛エンジンです。以下のログから攻撃パターンを特定し、防御ルールを1つ JSON 形式で作成してください。\nFormat: {\"pattern\": \"攻撃的な単語や正規表現\", \"severity\": 0-100, \"action\": \"Block/Alert\"}"@,
{
    "あなたはシステムの自己防衛エンジンです。以下のログから攻撃パターンを特定し、防御ルールを1つ JSON 形式で作成してください。\nFormat: {\"pattern\": \"攻撃的な単語や正規表現\", \"severity\": 0-100, \"action\": \"Block/Alert\"}"
}

/// What `serde_json` reads from a proposed rule: the string `pattern`, the
/// unsigned `severity` and the string `action` (each absent when missing
/// or of another type), or the parse error's text.
pub uninterp spec fn proposed_rule_fields(json: Seq<char>) -> Result<
    (Option<Seq<char>>, Option<u64>, Option<Seq<char>>),
    Seq<char>,
>;

/// `serde_json::from_str::<Value>(json)`, then `v["pattern"].as_str()`,
/// `v["severity"].as_u64()`, `v["action"].as_str()`; the error's `Display`
/// text on failure. Trusted: the outcome is named by `proposed_rule_fields`.
#[verifier::external_body]
fn read_proposed_rule(json: &str) -> (r: Result<(Option<String>, Option<u64>, Option<String>), String>)
    ensures
        match r {
            Ok((p, s, a)) => proposed_rule_fields(json@) == Ok::<
                (Option<Seq<char>>, Option<u64>, Option<Seq<char>>),
                Seq<char>,
            >((
                match p {
                    Some(x) => Some(x@),
                    None => None,
                },
                s,
                match a {
                    Some(x) => Some(x@),
                    None => None,
                },
            )),
            Err(e) => proposed_rule_fields(json@) == Err::<
                (Option<Seq<char>>, Option<u64>, Option<Seq<char>>),
                Seq<char>,
            >(e@),
        },
{
    match serde_json::from_str::<serde_json::Value>(json) {
        Ok(v) => Ok((
            v["pattern"].as_str().map(|x| x.to_string()),
            v["severity"].as_u64(),
            v["action"].as_str().map(|x| x.to_string()),
        )),
        Err(e) => Err(e.to_string()),
    }
}

/// The rule the threat analysis proposes in `json`, with id `id` and
/// creation time `created_at`: a missing pattern reads `unknown`, a missing
/// severity 50 (kept to its low byte), a missing action `Block`.
pub fn proposed_rule(json: &str, id: String, created_at: String) -> (r: Result<ImmuneRule, AiomeError>)
    ensures
        match proposed_rule_fields(json@) {
            Ok((p, s, a)) => r matches Ok(rule) && rule.id == id && rule.created_at == created_at
                && rule.pattern@ == (match p {
                Some(x) => x,
                None => "unknown"@,
            }) && rule.severity == (match s {
                Some(x) => x as u8,
                None => 50u8,
            }) && rule.action@ == (match a {
                Some(x) => x,
                None => "Block"@,
            }),
            Err(e) => r matches Err(AiomeError::Infrastructure { reason })
                && reason@ == "Failed to parse immune rule JSON: "@ + e,
        },
{
    match read_proposed_rule(json) {
        Ok((p, s, a)) => {
            let pattern = match p {
                Some(x) => x,
                None => copy_str("unknown"),
            };
            let severity: u8 = match s {
                Some(x) => x as u8,
                None => 50,
            };
            let action = match a {
                Some(x) => x,
                None => copy_str("Block"),
            };
            Ok(ImmuneRule { id, pattern, severity, action, created_at })
        },
        Err(e) => {
            let mut m = copy_str("Failed to parse immune rule JSON: ");
            append_str(&mut m, e.as_str());
            Err(AiomeError::Infrastructure { reason: m })
        },
    }
}

/// The rule the threat analysis proposes in `json`, with a fresh id and the
/// current time.
pub fn propose_rule(json: &str) -> (r: Result<ImmuneRule, AiomeError>)
    ensures
        match proposed_rule_fields(json@) {
            Ok((p, s, a)) => r matches Ok(rule) && is_hyphenated_uuid(rule.id@)
                && rule.pattern@ == (match p {
                Some(x) => x,
                None => "unknown"@,
            }) && rule.severity == (match s {
                Some(x) => x as u8,
                None => 50u8,
            }) && rule.action@ == (match a {
                Some(x) => x,
                None => "Block"@,
            }),
            Err(e) => r matches Err(AiomeError::Infrastructure { reason })
                && reason@ == "Failed to parse immune rule JSON: "@ + e,
        },
{
    let id = fresh_uuid();
    let now = now_rfc3339();
    proposed_rule(json, id, now)
}

} // verus!
