//! Hierarchical classification of lessons.
use vstd::prelude::*;
use crate::knowledge::{strip_all, strip_prefix_all};
use crate::text::{append_str, chars_of, copy_str, has_suffix, string_from_chars, trim, trim_str};

verus! {

/// A lesson's place in the taxonomy.
#[derive(Debug, Clone, PartialEq, Eq)]
pub struct KarmaClassification {
    pub domain: String,
    pub subtopic: String,
    pub reasoning: String,
}

/// Classifies lessons.
pub struct KarmaTaxonomy;

/// `str::trim_end_matches(p)`: every trailing copy of `p` removed.
pub open spec fn strip_all_end(s: Seq<char>, p: Seq<char>) -> Seq<char>
    decreases s.len(),
{
    if p.len() > 0 && has_suffix(s, p) {
        strip_all_end(s.take(s.len() - p.len()), p)
    } else {
        s
    }
}

/// The JSON text of a classification reply: trimmed, leading code fences
/// (```` ```json ````, then ```` ``` ````) and trailing ```` ``` ```` removed,
/// trimmed again.
pub open spec fn cleaned_reply(reply: Seq<char>) -> Seq<char> {
    trim(strip_all_end(strip_all(strip_all(trim(reply), "```json"@), "```"@), "```"@))
}

fn strip_suffix_all(s: &[char], p: &[char]) -> (r: Vec<char>)
    ensures
        r@ == strip_all_end(s@, p@),
{
    let mut end: usize = s.len();
    if p.len() > 0 {
        proof {
            assert(s@.take(end as int) =~= s@);
        }
        loop
            invariant_except_break
                end <= s@.len(),
                p@.len() > 0,
                strip_all_end(s@, p@) == strip_all_end(s@.take(end as int), p@),
            ensures
                end <= s@.len(),
                strip_all_end(s@, p@) == s@.take(end as int),
            decreases end,
        {
            if p.len() <= end && ends_with_at(s, p, end) {
                proof {
                    let t = s@.take(end as int);
                    assert(t.take(t.len() - p@.len()) =~= s@.take(end - p@.len()));
                }
                end = end - p.len();
            } else {
                proof {
                    let t = s@.take(end as int);
                    if p@.len() <= end {
                        assert(t.skip(t.len() - p@.len()) =~= s@.subrange(end - p@.len(), end as int));
                    }
                }
                break;
            }
        }
    }
    let mut r: Vec<char> = Vec::new();
    let mut k: usize = 0;
    while k < end
        invariant
            k <= end <= s@.len(),
            r@ == s@.take(k as int),
        decreases end - k,
    {
        r.push(s[k]);
        k = k + 1;
        proof {
            assert(r@ =~= s@.take(k as int));
        }
    }
    proof {
        if p@.len() == 0 {
            assert(s@.take(s@.len() as int) =~= s@);
        }
    }
    r
}

fn ends_with_at(s: &[char], p: &[char], end: usize) -> (r: bool)
    requires
        p@.len() <= end <= s@.len(),
    ensures
        r == (s@.subrange(end - p@.len(), end as int) == p@),
        r == has_suffix(s@.take(end as int), p@),
{
    let start = end - p.len();
    let mut i: usize = 0;
    while i < p.len()
        invariant
            start + p@.len() == end <= s@.len(),
            i <= p@.len(),
            forall|k: int| 0 <= k < i ==> s@[start + k] == p@[k],
        decreases p.len() - i,
    {
        if s[start + i] != p[i] {
            proof {
                assert(s@.subrange(start as int, end as int)[i as int] != p@[i as int]);
                assert(s@.take(end as int).skip(start as int) =~= s@.subrange(start as int, end as int));
            }
            return false;
        }
        i = i + 1;
    }
    proof {
        assert(s@.subrange(start as int, end as int) =~= p@);
        assert(s@.take(end as int).skip(start as int) =~= s@.subrange(start as int, end as int));
    }
    true
}

impl KarmaTaxonomy {
    /// The classification used when the model fails.
    pub fn fallback() -> (r: KarmaClassification)
        ensures
            r.domain@ == "general"@,
            r.subtopic@ == "uncategorized"@,
            r.reasoning@ == "LLM classification failed, using fallback."@,
    {
        KarmaClassification {
            domain: copy_str("general"),
            subtopic: copy_str("uncategorized"),
            reasoning: copy_str("LLM classification failed, using fallback."),
        }
    }

    /// The JSON text inside a classification reply.
    pub fn clean_reply(reply: &str) -> (r: String)
        ensures
            r@ == cleaned_reply(reply@),
    {
        let t = trim_str(reply);
        let tv = chars_of(t.as_str());
        let a = strip_prefix_all(tv.as_slice(), chars_of("```json").as_slice());
        let b = strip_prefix_all(a.as_slice(), chars_of("```").as_slice());
        let c = strip_suffix_all(b.as_slice(), chars_of("```").as_slice());
        let cs = string_from_chars(c.as_slice());
        trim_str(cs.as_str())
    }

    /// The user prompt for classifying `lesson`.
    pub fn prompt(lesson: &str) -> (r: String)
        ensures
            r@ == "Lesson: \""@ + lesson@ + "\""@,
    {
        let mut r = copy_str("Lesson: \"");
        append_str(&mut r, lesson);
        append_str(&mut r, "\"");
        r
    }
}

} // verus!
