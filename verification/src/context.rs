//! Compression of a channel's chat history into a running summary.
use vstd::prelude::*;
use crate::text::{append_str, copy_str};

verus! {

/// How many of the oldest `len` messages to fold into the summary once the
/// history is longer than `threshold`: all but the newest `threshold / 2`.
pub open spec fn compression_count(len: int, threshold: int) -> Option<int> {
    if len > threshold {
        Some(len - threshold / 2)
    } else {
        None
    }
}

pub fn plan_compression(len: usize, threshold: usize) -> (r: Option<usize>)
    ensures
        r matches Some(n) ==> compression_count(len as int, threshold as int) == Some(n as int),
        r is None <==> compression_count(len as int, threshold as int) is None,
{
    if len > threshold {
        Some(len - threshold / 2)
    } else {
        None
    }
}

/// The lines `role: content` of a history, joined by newlines.
pub open spec fn history_text(turns: Seq<(Seq<char>, Seq<char>)>) -> Seq<char>
    decreases turns.len(),
{
    if turns.len() == 0 {
        Seq::empty()
    } else if turns.len() == 1 {
        turns[0].0 + ": "@ + turns[0].1
    } else {
        history_text(turns.drop_last()) + "\n"@ + turns.last().0 + ": "@ + turns.last().1
    }
}

/// The two views of a rendered turn.
pub open spec fn turn_views(turns: Seq<(String, String)>) -> Seq<(Seq<char>, Seq<char>)> {
    turns.map_values(|t: (String, String)| (t.0@, t.1@))
}

/// Joins rendered turns `(role, content)` as `role: content` lines.
pub fn render_history(turns: &Vec<(String, String)>) -> (r: String)
    ensures
        r@ == history_text(turn_views(turns@)),
{
    let mut out = String::new();
    let mut i: usize = 0;
    proof {
        assert(turn_views(turns@).take(0) =~= Seq::<(Seq<char>, Seq<char>)>::empty());
    }
    while i < turns.len()
        invariant
            i <= turns@.len(),
            out@ == history_text(turn_views(turns@).take(i as int)),
        decreases turns.len() - i,
    {
        if i > 0 {
            append_str(&mut out, "\n");
        }
        append_str(&mut out, turns[i].0.as_str());
        append_str(&mut out, ": ");
        append_str(&mut out, turns[i].1.as_str());
        proof {
            let t = turn_views(turns@).take(i + 1);
            assert(t.drop_last() =~= turn_views(turns@).take(i as int));
            if i == 0 {
                assert(out@ =~= t[0].0 + ": "@ + t[0].1);
            } else {
                assert(out@ =~= history_text(t.drop_last()) + "\n"@ + t.last().0 + ": "@ + t.last().1);
            }
        }
        i = i + 1;
    }
    proof {
        assert(turn_views(turns@).take(turns@.len() as int) =~= turn_views(turns@));
    }
    out
}

/// The summary used before any exists.
pub open spec fn no_summary() -> Seq<char> {
    "なし"@
}

/// The request that folds `history` into `summary`.
pub open spec fn compression_prompt_text(summary: Seq<char>, history: Seq<char>) -> Seq<char> {
    "以下のこれまでの要約と新しい会話履歴の内容を統合し、簡潔かつ重要なコンテキストを保持した新しい要約を作成してください。\n\n現在の要約:\n"@
        + summary + "\n\n追加の会話履歴:\n"@ + history
        + "\n\n出力形式: 重要な事実、ユーザーの意図、現在の状況をまとめた日本語の段落。余計な挨拶は不要。"@
}

/// The compression request for the current summary (if any) and the rendered history.
pub fn compression_prompt(summary: Option<&str>, history: &str) -> (r: String)
    ensures
        r@ == compression_prompt_text(
            match summary {
                Some(s) => s@,
                None => no_summary(),
            },
            history@,
        ),
{
    let mut out = copy_str(
        "以下のこれまでの要約と新しい会話履歴の内容を統合し、簡潔かつ重要なコンテキストを保持した新しい要約を作成してください。\n\n現在の要約:\n",
    );
    match summary {
        Some(s) => append_str(&mut out, s),
        None => append_str(&mut out, "なし"),
    }
    append_str(&mut out, "\n\n追加の会話履歴:\n");
    append_str(&mut out, history);
    append_str(&mut out, "\n\n出力形式: 重要な事実、ユーザーの意図、現在の状況をまとめた日本語の段落。余計な挨拶は不要。");
    out
}

} // verus!
