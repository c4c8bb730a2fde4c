//! Wakeup pings driven by a HEARTBEAT.md task file.
use vstd::prelude::*;
use vstd::utf8::encode_utf8;
use crate::text::{
    append_str, copy_str, has_prefix, is_whitespace, is_ws, lines, lines_of,
    seq_has_prefix, str_eq, string_from_chars, trim, trim_bounds,
};

verus! {

/// A markdown heading marker: a run of one or more `#` that ends the line or
/// is followed by whitespace (`#`, `## Tasks`, `###`).
pub open spec fn is_heading_marker(t: Seq<char>) -> bool {
    exists|k: int| #[trigger] heading_of_length(t, k)
}

/// The first `k` characters of `t` are `#`, and the next (if any) is whitespace.
pub open spec fn heading_of_length(t: Seq<char>, k: int) -> bool {
    1 <= k <= t.len() && (forall|i: int| 0 <= i < k ==> #[trigger] t[i] == '#') && (k == t.len()
        || is_ws(t[k]))
}

/// A trimmed line that asks for nothing: blank, a markdown heading marker,
/// an empty checklist item (`- [ ]`, `* [ ]`, `+ [ ]` of at most five bytes)
/// or a bare list marker (`-`, `*`, `+`).
pub open spec fn is_filler(t: Seq<char>) -> bool {
    ||| t.len() == 0
    ||| is_heading_marker(t)
    ||| ((has_prefix(t, "- [ ]"@) || has_prefix(t, "* [ ]"@) || has_prefix(t, "+ [ ]"@))
        && encode_utf8(t).len() <= 5)
    ||| t == "-"@
    ||| t == "*"@
    ||| t == "+"@
}

/// Every line of the file is filler.
pub open spec fn effectively_empty(content: Seq<char>) -> bool {
    forall|i: int| 0 <= i < lines(content).len() ==> #[trigger] is_filler(trim(lines(content)[i]))
}

/// What a wakeup reply amounts to: nothing when it is (after trimming)
/// `HEARTBEAT_OK` or empty, otherwise the trimmed text.
pub open spec fn wakeup_outcome(reply: Seq<char>) -> Option<Seq<char>> {
    let t = trim(reply);
    if t == "HEARTBEAT_OK"@ || t.len() == 0 {
        None
    } else {
        Some(t)
    }
}

/// The opening of the wakeup prompt, before the file contents.
pub open spec fn prompt_head() -> Seq<char> {
    "[System: Wakeup Ping]\nRead HEARTBEAT.md and check for pending tasks.\nもし現在やるべきことがなければ、絶対に何もしないで 'HEARTBEAT_OK' とだけ答えよ。\n\nHEARTBEAT.md:\n"@
}

/// The rules after the file contents.
pub open spec fn prompt_tail() -> Seq<char> {
    "\n\nRULES:\n1. If nothing needs attention, reply exactly 'HEARTBEAT_OK'.\n2. If there are tasks (marked with [ ]), execute them or notify the user.\n3. Never repeat information unless specifically asked."@
}

fn line_is_filler(t: &[char]) -> (r: bool)
    ensures
        r == is_filler(t@),
{
    if t.len() == 0 {
        return true;
    }
    if heading_marker(t) {
        return true;
    }
    let s = string_from_chars(t);
    let bytes = s.as_str().as_bytes().len();
    let a = crate::text::chars_of("- [ ]");
    let b = crate::text::chars_of("* [ ]");
    let c = crate::text::chars_of("+ [ ]");
    if (seq_has_prefix(t, a.as_slice()) || seq_has_prefix(t, b.as_slice()) || seq_has_prefix(
        t,
        c.as_slice(),
    )) && bytes <= 5 {
        return true;
    }
    str_eq(s.as_str(), "-") || str_eq(s.as_str(), "*") || str_eq(s.as_str(), "+")
}

fn heading_marker(t: &[char]) -> (r: bool)
    ensures
        r == is_heading_marker(t@),
{
    let mut k: usize = 0;
    while k < t.len() && t[k] == '#'
        invariant
            k <= t@.len(),
            forall|i: int| 0 <= i < k ==> #[trigger] t@[i] == '#',
        decreases t.len() - k,
    {
        k = k + 1;
    }
    let r = k >= 1 && (k == t.len() || is_whitespace(t[k]));
    proof {
        if r {
            assert(heading_of_length(t@, k as int));
        } else if is_heading_marker(t@) {
            let j = choose|j: int| #[trigger] heading_of_length(t@, j);
            if j < k {
                assert(t@[j] == '#');
            } else if j > k {
                assert(t@[k as int] == '#');
            } else {
                assert(t@[0] == '#');
            }
        }
    }
    r
}

/// Whether the task file asks for nothing, so no ping is needed.
pub fn is_effectively_empty(content: &str) -> (r: bool)
    ensures
        r == effectively_empty(content@),
{
    let ls = lines_of(content);
    let mut i: usize = 0;
    while i < ls.len()
        invariant
            i <= ls@.len(),
            ls@.len() == lines(content@).len(),
            forall|k: int| 0 <= k < ls@.len() ==> #[trigger] ls@[k]@ == lines(content@)[k],
            forall|k: int| 0 <= k < i ==> #[trigger] is_filler(trim(lines(content@)[k])),
        decreases ls.len() - i,
    {
        let line = &ls[i];
        let (a, b) = trim_bounds(line.as_slice());
        let mut w: Vec<char> = Vec::new();
        let mut k = a;
        while k < b
            invariant
                a <= k <= b <= line@.len(),
                w@ == line@.subrange(a as int, k as int),
            decreases b - k,
        {
            w.push(line[k]);
            k = k + 1;
            proof {
                assert(w@ =~= line@.subrange(a as int, k as int));
            }
        }
        if !line_is_filler(w.as_slice()) {
            return false;
        }
        i = i + 1;
    }
    true
}

/// The reply of a wakeup ping, or nothing when the model reports no work.
pub fn interpret_wakeup_reply(reply: &str) -> (r: Option<String>)
    ensures
        match wakeup_outcome(reply@) {
            None => r is None,
            Some(t) => r matches Some(s) && s@ == t,
        },
{
    let t = crate::text::trim_str(reply);
    if str_eq(t.as_str(), "HEARTBEAT_OK") || t.as_str().is_empty() {
        None
    } else {
        Some(t)
    }
}

/// The wakeup prompt around the task file's contents.
pub fn wakeup_prompt(content: &str) -> (r: String)
    ensures
        r@ == prompt_head() + content@ + prompt_tail(),
{
    let mut p = copy_str("[System: Wakeup Ping]\nRead HEARTBEAT.md and check for pending tasks.\nもし現在やるべきことがなければ、絶対に何もしないで 'HEARTBEAT_OK' とだけ答えよ。\n\nHEARTBEAT.md:\n");
    append_str(&mut p, content);
    append_str(&mut p, "\n\nRULES:\n1. If nothing needs attention, reply exactly 'HEARTBEAT_OK'.\n2. If there are tasks (marked with [ ]), execute them or notify the user.\n3. Never repeat information unless specifically asked.");
    p
}

} // verus!
