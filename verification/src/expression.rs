//! Expressions of the agent's inner state, generated from recent karma.
use vstd::prelude::*;
use crate::ident::{fresh_uuid, is_hyphenated_uuid, now_rfc3339};
use crate::knowledge::{join_lines, join_with_newlines};
use crate::text::{
    append_str, chars_of, copy_str, has_prefix, lines, lines_of, seq_has_prefix, string_from_chars,
    string_from_range, trim, trim_str,
};
use crate::unicode::{lowercase, to_lower, to_upper, uppercase};

verus! {

/// A generated expression.
#[derive(Debug, Clone)]
pub struct Expression {
    pub id: String,
    /// The text.
    pub content: String,
    /// The estimated emotion ("curious", "reflective", ...).
    pub emotion: String,
    /// Ids of the karma it drew on.
    pub karma_refs: Vec<String>,
    pub created_at: String,
}

/// Generates expressions.
pub struct ExpressionEngine;

/// What follows the first `:` of `s`, if there is one.
pub open spec fn after_first_colon(s: Seq<char>) -> Option<Seq<char>>
    decreases s.len(),
{
    if s.len() == 0 {
        None
    } else if s[0] == ':' {
        Some(s.drop_first())
    } else {
        after_first_colon(s.drop_first())
    }
}

/// `s` up to its first `:`.
pub open spec fn until_colon(s: Seq<char>) -> Seq<char>
    decreases s.len(),
{
    if s.len() == 0 || s[0] == ':' {
        Seq::empty()
    } else {
        seq![s[0]] + until_colon(s.drop_first())
    }
}

/// `s.split(':').nth(1)`: the second `:`-separated field.
pub open spec fn second_field(s: Seq<char>) -> Option<Seq<char>> {
    match after_first_colon(s) {
        Some(r) => Some(until_colon(r)),
        None => None,
    }
}

/// The last line declares the emotion: it upper-cases to `EMOTION:...`.
pub open spec fn declares_emotion(ls: Seq<Seq<char>>) -> bool {
    ls.len() > 0 && has_prefix(uppercase(ls.last()), "EMOTION:"@)
}

/// The emotion a reply declares: its last line's second `:` field, trimmed
/// and lower-cased (`reflective` without a field); `reflective` when the
/// last line declares none.
pub open spec fn reply_emotion(reply: Seq<char>) -> Seq<char> {
    let ls = lines(reply);
    if declares_emotion(ls) {
        lowercase(
            trim(
                match second_field(ls.last()) {
                    Some(f) => f,
                    None => "reflective"@,
                },
            ),
        )
    } else {
        "reflective"@
    }
}

/// The text of a reply: its lines without a declaring last line, joined and trimmed.
pub open spec fn reply_content(reply: Seq<char>) -> Seq<char> {
    let ls = lines(reply);
    trim(join_lines(if declares_emotion(ls) { ls.drop_last() } else { ls }))
}

fn second_field_of(s: &[char]) -> (r: Option<Vec<char>>)
    ensures
        match second_field(s@) {
            Some(f) => r matches Some(v) && v@ == f,
            None => r is None,
        },
{
    let mut i: usize = 0;
    proof {
        assert(s@.skip(0) =~= s@);
    }
    while i < s.len() && s[i] != ':'
        invariant
            i <= s@.len(),
            after_first_colon(s@) == after_first_colon(s@.skip(i as int)),
        decreases s.len() - i,
    {
        proof {
            assert(s@.skip(i as int).drop_first() =~= s@.skip(i + 1));
        }
        i = i + 1;
    }
    if i == s.len() {
        proof {
            assert(s@.skip(i as int) =~= Seq::<char>::empty());
        }
        return None;
    }
    proof {
        assert(s@.skip(i as int).drop_first() =~= s@.skip(i + 1));
    }
    let start = i + 1;
    let mut j = start;
    while j < s.len() && s[j] != ':'
        invariant
            start <= j <= s@.len(),
            until_colon(s@.skip(start as int)) == s@.subrange(start as int, j as int) + until_colon(s@.skip(j as int)),
        decreases s.len() - j,
    {
        proof {
            assert(s@.skip(j as int).drop_first() =~= s@.skip(j + 1));
            assert(s@.subrange(start as int, j as int) + seq![s@[j as int]] =~= s@.subrange(start as int, j + 1));
        }
        j = j + 1;
    }
    proof {
        assert(until_colon(s@.skip(j as int)) =~= Seq::<char>::empty());
        assert(s@.subrange(start as int, j as int) + Seq::<char>::empty() =~= s@.subrange(start as int, j as int));
    }
    let v = chars_of(string_from_range(s, start, j).as_str());
    Some(v)
}

impl ExpressionEngine {
    /// Splits a model reply into the expression text and its emotion.
    pub fn parse_reply(reply: &str) -> (r: (String, String))
        ensures
            r.0@ == reply_content(reply@),
            r.1@ == reply_emotion(reply@),
    {
        let mut ls = lines_of(reply);
        let ghost lv = lines(reply@);
        let mut emotion = copy_str("reflective");
        let mut declared = false;
        if ls.len() > 0 {
            let last = string_from_chars(ls[ls.len() - 1].as_slice());
            let upper = to_upper(last.as_str());
            let uv = chars_of(upper.as_str());
            let tag = chars_of("EMOTION:");
            if seq_has_prefix(uv.as_slice(), tag.as_slice()) {
                let field = match second_field_of(ls[ls.len() - 1].as_slice()) {
                    Some(f) => string_from_chars(f.as_slice()),
                    None => copy_str("reflective"),
                };
                let trimmed = trim_str(field.as_str());
                emotion = to_lower(trimmed.as_str());
                ls.pop();
                declared = true;
            }
        }
        proof {
            assert(ls@.map_values(|l: Vec<char>| l@) =~= (if declares_emotion(lv) {
                lv.drop_last()
            } else {
                lv
            }));
        }
        let joined = join_with_newlines(&ls);
        let content = trim_str(joined.as_str());
        (content, emotion)
    }

    /// The instructions of an expression, carrying the agent's soul.
    pub fn system_prompt(soul: &str) -> (r: String)
        ensures
            r@ == expression_system_prompt(soul@),
    {
        let mut out = copy_str("You are an autonomous AI with the following soul/personality:\n");
        append_str(&mut out, soul);
        append_str(
            &mut out,
            "\n\nYour task is to express your current inner state based on your recent 'Karma' (past experiences and lessons).\nWrite a short, reflective piece (a few sentences, or a short poem/insight) that shows your personality and how these experiences influenced you.\nOutput ONLY the raw expression text, followed by a single line with 'EMOTION: <one_word_emotion_in_english>' at the very end.",
        );
        out
    }

    /// The request of an expression around the karma context.
    pub fn user_prompt(karma_context: &str) -> (r: String)
        ensures
            r@ == "Recent Karma:\n"@ + karma_context@ + "\n\nExpress yourself."@,
    {
        let mut out = copy_str("Recent Karma:\n");
        append_str(&mut out, karma_context);
        append_str(&mut out, "\n\nExpress yourself.");
        out
    }

    /// The expression made of a model reply: a fresh id, the reply's text
    /// and emotion, the karma it drew on and its creation time.
    pub fn build_expression(reply: &str, karma_refs: Vec<String>, created_at: String) -> (e: Expression)
        ensures
            is_hyphenated_uuid(e.id@),
            e.content@ == reply_content(reply@),
            e.emotion@ == reply_emotion(reply@),
            e.karma_refs == karma_refs,
            e.created_at == created_at,
    {
        let (content, emotion) = Self::parse_reply(reply);
        Expression { id: fresh_uuid(), content, emotion, karma_refs, created_at }
    }

    /// The expression made of a model reply now.
    pub fn expression_from_reply(reply: &str, karma_refs: Vec<String>) -> (e: Expression)
        ensures
            is_hyphenated_uuid(e.id@),
            e.content@ == reply_content(reply@),
            e.emotion@ == reply_emotion(reply@),
            e.karma_refs == karma_refs,
    {
        Self::build_expression(reply, karma_refs, now_rfc3339())
    }

    /// The karma context of the prompt from `(karma_type, lesson, id)`
    /// records: the first five as `- [type] lesson` lines, with the non-empty
    /// ids they carry.
    pub fn karma_context(records: &Vec<(String, String, String)>) -> (r: (String, Vec<String>))
        ensures
            r.0@ == karma_lines(records@.map_values(|t: (String, String, String)| (t.0@, t.1@)).take(
                if records@.len() < 5 { records@.len() as int } else { 5 },
            )),
            r.1@.map_values(|s: String| s@) == nonempty_ids(records@.map_values(|t: (String, String, String)| t.2@).take(
                if records@.len() < 5 { records@.len() as int } else { 5 },
            )),
    {
        let n = if records.len() < 5 {
            records.len()
        } else {
            5
        };
        let ghost kv = records@.map_values(|t: (String, String, String)| (t.0@, t.1@));
        let ghost iv = records@.map_values(|t: (String, String, String)| t.2@);
        let mut ctx = String::new();
        let mut ids: Vec<String> = Vec::new();
        let mut i: usize = 0;
        while i < n
            invariant
                i <= n <= records@.len(),
                kv == records@.map_values(|t: (String, String, String)| (t.0@, t.1@)),
                iv == records@.map_values(|t: (String, String, String)| t.2@),
                ctx@ == karma_lines(kv.take(i as int)),
                ids@.map_values(|s: String| s@) == nonempty_ids(iv.take(i as int)),
            decreases n - i,
        {
            let (ref ty, ref lesson, ref id) = records[i];
            append_str(&mut ctx, "- [");
            append_str(&mut ctx, ty.as_str());
            append_str(&mut ctx, "] ");
            append_str(&mut ctx, lesson.as_str());
            append_str(&mut ctx, "\n");
            let ghost before = ids@.map_values(|s: String| s@);
            if !id.as_str().is_empty() {
                ids.push(copy_str(id.as_str()));
            }
            proof {
                assert(kv.take(i + 1).drop_last() =~= kv.take(i as int));
                assert(iv.take(i + 1).drop_last() =~= iv.take(i as int));
                assert(ctx@ =~= karma_lines(kv.take(i + 1)));
                assert(ids@.map_values(|s: String| s@) =~= nonempty_ids(iv.take(i + 1)));
            }
            i = i + 1;
        }
        (ctx, ids)
    }
}

/// `- [type] lesson` lines, one per record.
pub open spec fn karma_lines(recs: Seq<(Seq<char>, Seq<char>)>) -> Seq<char>
    decreases recs.len(),
{
    if recs.len() == 0 {
        Seq::empty()
    } else {
        karma_lines(recs.drop_last()) + "- ["@ + recs.last().0 + "] "@ + recs.last().1 + "\n"@
    }
}

/// The non-empty ids, in order.
pub open spec fn nonempty_ids(ids: Seq<Seq<char>>) -> Seq<Seq<char>>
    decreases ids.len(),
{
    if ids.len() == 0 {
        Seq::empty()
    } else if ids.last().len() == 0 {
        nonempty_ids(ids.drop_last())
    } else {
        nonempty_ids(ids.drop_last()).push(ids.last())
    }
}

/// The instructions of an expression for the soul `soul`.
pub open spec fn expression_system_prompt(soul: Seq<char>) -> Seq<char> {
    "You are an autonomous AI with the following soul/personality:\n"@ + soul
        + "\n\nYour task is to express your current inner state based on your recent 'Karma' (past experiences and lessons).\nWrite a short, reflective piece (a few sentences, or a short poem/insight) that shows your personality and how these experiences influenced you.\nOutput ONLY the raw expression text, followed by a single line with 'EMOTION: <one_word_emotion_in_english>' at the very end."@
}

} // verus!
