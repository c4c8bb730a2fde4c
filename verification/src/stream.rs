//! Framing of streamed model replies: newline-delimited JSON and the two
//! server-sent-event layouts the providers use. Each drain function takes
//! the text received so far and returns the complete frames in it and the
//! text left for the next chunk.
use vstd::prelude::*;
use vstd::utf8::{decode_utf8, valid_utf8};
use crate::crypto::utf8_to_string;
use crate::text::{append_str, chars_of, copy_str, occurs_at, seq_eq, seq_occurs_at, string_from_range, trim, trim_bounds};

verus! {

/// The first index at or after `k` where `needle` occurs in `s`.
pub open spec fn find_from(s: Seq<char>, needle: Seq<char>, k: int) -> Option<int>
    decreases s.len() + 1 - k,
{
    if k < 0 || k + needle.len() > s.len() {
        None
    } else if occurs_at(s, needle, k) {
        Some(k)
    } else {
        find_from(s, needle, k + 1)
    }
}

/// `str::find`: the first index where `needle` occurs in `s`.
pub open spec fn find(s: Seq<char>, needle: Seq<char>) -> Option<int> {
    find_from(s, needle, 0)
}

/// The marker that starts a server-sent event's data.
pub open spec fn data_marker() -> Seq<char> {
    seq!['d', 'a', 't', 'a', ':', ' ']
}

/// The payload that ends an event stream.
pub open spec fn done_marker() -> Seq<char> {
    seq!['[', 'D', 'O', 'N', 'E', ']']
}

/// Newline-delimited frames: each complete line that is not blank, and the
/// unfinished last line.
pub open spec fn ndjson_drain(s: Seq<char>) -> (Seq<Seq<char>>, Seq<char>)
    decreases s.len(),
{
    match find(s, seq!['\n']) {
        Some(k) => if 0 <= k < s.len() {
            let line = s.take(k);
            let (fs, rest) = ndjson_drain(s.skip(k + 1));
            (if trim(line).len() == 0 {
                fs
            } else {
                seq![line] + fs
            }, rest)
        } else {
            (Seq::empty(), s)
        },
        None => (Seq::empty(), s),
    }
}

/// Events `data: <payload>` ended by a blank line: each complete payload,
/// and the text from which no complete event can yet be read. Text before
/// a `data: ` marker is dropped.
pub open spec fn sse_event_drain(s: Seq<char>) -> (Seq<Seq<char>>, Seq<char>)
    decreases s.len(),
{
    match find(s, data_marker()) {
        Some(i) => {
            let r = s.skip(i + 6);
            match find(r, seq!['\n', '\n']) {
                Some(e) => if 0 <= i && i + 6 <= s.len() && 0 <= e && e + 2 <= r.len() {
                    let (fs, rest) = sse_event_drain(r.skip(e + 2));
                    (seq![r.take(e)] + fs, rest)
                } else {
                    (Seq::empty(), s)
                },
                None => (Seq::empty(), s),
            }
        },
        None => (Seq::empty(), s),
    }
}

/// Lines `data: <payload>`: each complete payload, trimmed, and the text
/// from which no complete line can yet be read. With `stop_at_done`, a
/// `[DONE]` payload ends the draining and is not a frame.
pub open spec fn sse_line_drain(s: Seq<char>, stop_at_done: bool) -> (Seq<Seq<char>>, Seq<char>)
    decreases s.len(),
{
    match find(s, data_marker()) {
        Some(i) => {
            let r = s.skip(i + 6);
            match find(r, seq!['\n']) {
                Some(e) => if 0 <= i && i + 6 <= s.len() && 0 <= e && e + 1 <= r.len() {
                    let line = trim(r.take(e));
                    let rest = r.skip(e + 1);
                    if stop_at_done && line == done_marker() {
                        (Seq::empty(), rest)
                    } else {
                        let (fs, fin) = sse_line_drain(rest, stop_at_done);
                        (seq![line] + fs, fin)
                    }
                } else {
                    (Seq::empty(), s)
                },
                None => (Seq::empty(), s),
            }
        },
        None => (Seq::empty(), s),
    }
}

proof fn lemma_find_from_bounds(s: Seq<char>, needle: Seq<char>, k: int)
    ensures
        find_from(s, needle, k) matches Some(i) ==> k <= i && 0 <= i && i + needle.len() <= s.len()
            && occurs_at(s, needle, i),
    decreases s.len() + 1 - k,
{
    if !(k < 0 || k + needle.len() > s.len()) && !occurs_at(s, needle, k) {
        lemma_find_from_bounds(s, needle, k + 1);
    }
}

fn find_seq(s: &[char], needle: &[char]) -> (r: Option<usize>)
    ensures
        match r {
            Some(i) => find(s@, needle@) == Some(i as int),
            None => find(s@, needle@) is None,
        },
{
    if needle.len() == 0 {
        proof {
            assert(s@.subrange(0, 0) =~= needle@);
        }
        return Some(0);
    }
    let mut k: usize = 0;
    while k < s.len() && needle.len() <= s.len() - k
        invariant
            needle@.len() > 0,
            k <= s@.len(),
            find(s@, needle@) == find_from(s@, needle@, k as int),
        decreases s.len() + 1 - k,
    {
        if seq_occurs_at(s, needle, k) {
            return Some(k);
        }
        k = k + 1;
    }
    None
}

fn segment(v: &Vec<char>, from: usize, to: usize) -> (r: Vec<char>)
    requires
        from <= to <= v@.len(),
    ensures
        r@ == v@.subrange(from as int, to as int),
{
    let mut out: Vec<char> = Vec::new();
    let mut i: usize = from;
    while i < to
        invariant
            from <= i <= to <= v@.len(),
            out@ == v@.subrange(from as int, i as int),
        decreases to - i,
    {
        out.push(v[i]);
        proof {
            assert(out@ =~= v@.subrange(from as int, i + 1));
        }
        i = i + 1;
    }
    out
}

/// The views of some strings.
pub open spec fn frame_views(v: Seq<String>) -> Seq<Seq<char>> {
    v.map_values(|s: String| s@)
}

proof fn lemma_frame_push(v: Seq<String>, s: String)
    ensures
        frame_views(v.push(s)) == frame_views(v).push(s@),
{
    assert(frame_views(v.push(s)) =~= frame_views(v).push(s@));
}

/// Drains newline-delimited JSON frames from `buffer`.
pub fn drain_ndjson(buffer: &str) -> (r: (Vec<String>, String))
    ensures
        frame_views(r.0@) == ndjson_drain(buffer@).0,
        r.1@ == ndjson_drain(buffer@).1,
{
    let mut buf = chars_of(buffer);
    let nl: Vec<char> = vec!['\n'];
    let mut frames: Vec<String> = Vec::new();
    proof {
        assert(nl@ =~= seq!['\n']);
        assert(frame_views(frames@) + ndjson_drain(buf@).0 =~= ndjson_drain(buffer@).0);
    }
    loop
        invariant_except_break
            nl@ == seq!['\n'],
            frame_views(frames@) + ndjson_drain(buf@).0 == ndjson_drain(buffer@).0,
            ndjson_drain(buf@).1 == ndjson_drain(buffer@).1,
        ensures
            frame_views(frames@) == ndjson_drain(buffer@).0,
            buf@ == ndjson_drain(buffer@).1,
        decreases buf@.len(),
    {
        match find_seq(buf.as_slice(), nl.as_slice()) {
            Some(k) => {
                let n = buf.len();
                proof {
                    lemma_find_from_bounds(buf@, seq!['\n'], 0);
                    assert(find(buf@, seq!['\n']) == Some(k as int));
                    assert(seq!['\n'].len() == 1);
                    assert(k + 1 <= n);
                }
                let line_v = segment(&buf, 0, k);
                let (a, b) = trim_bounds(line_v.as_slice());
                let ghost old_frames = frame_views(frames@);
                let ghost line = buf@.take(k as int);
                proof {
                    assert(line_v@ =~= line);
                }
                if a < b {
                    let s = string_from_range(buf.as_slice(), 0, k);
                    frames.push(s);
                    proof {
                        lemma_frame_push(frames@.drop_last(), s);
                        assert(frames@.drop_last().push(s) =~= frames@);
                    }
                }
                let next = segment(&buf, k + 1, n);
                proof {
                    assert(next@ =~= buf@.skip(k + 1));
                    let (fs, rest) = ndjson_drain(next@);
                    if a < b {
                        assert(trim(line).len() > 0);
                        assert(frame_views(frames@) + fs =~= old_frames + (seq![line] + fs));
                    } else {
                        assert(trim(line).len() == 0);
                    }
                }
                buf = next;
            },
            None => {
                proof {
                    assert(frame_views(frames@) + Seq::<Seq<char>>::empty() =~= frame_views(frames@));
                }
                break;
            },
        }
    }
    (frames, string_from_range(buf.as_slice(), 0, buf.len()))
}

/// Drains `data: ...` events, each ended by a blank line, from `buffer`.
pub fn drain_sse_events(buffer: &str) -> (r: (Vec<String>, String))
    ensures
        frame_views(r.0@) == sse_event_drain(buffer@).0,
        r.1@ == sse_event_drain(buffer@).1,
{
    let mut buf = chars_of(buffer);
    let marker: Vec<char> = vec!['d', 'a', 't', 'a', ':', ' '];
    let end_marker: Vec<char> = vec!['\n', '\n'];
    let mut frames: Vec<String> = Vec::new();
    proof {
        assert(marker@ =~= data_marker());
        assert(end_marker@ =~= seq!['\n', '\n']);
        assert(frame_views(frames@) + sse_event_drain(buf@).0 =~= sse_event_drain(buffer@).0);
    }
    loop
        invariant_except_break
            marker@ == data_marker(),
            end_marker@ == seq!['\n', '\n'],
            frame_views(frames@) + sse_event_drain(buf@).0 == sse_event_drain(buffer@).0,
            sse_event_drain(buf@).1 == sse_event_drain(buffer@).1,
        ensures
            frame_views(frames@) == sse_event_drain(buffer@).0,
            buf@ == sse_event_drain(buffer@).1,
        decreases buf@.len(),
    {
        match find_seq(buf.as_slice(), marker.as_slice()) {
            Some(i) => {
                let n = buf.len();
                proof {
                    lemma_find_from_bounds(buf@, data_marker(), 0);
                    assert(i + 6 <= n);
                }
                let r = segment(&buf, i + 6, n);
                proof {
                    assert(r@ =~= buf@.skip(i + 6));
                }
                match find_seq(r.as_slice(), end_marker.as_slice()) {
                    Some(e) => {
                        let m = r.len();
                        proof {
                            lemma_find_from_bounds(r@, seq!['\n', '\n'], 0);
                            assert(e + 2 <= m);
                        }
                        let payload = string_from_range(r.as_slice(), 0, e);
                        let ghost old_frames = frame_views(frames@);
                        frames.push(payload);
                        proof {
                            lemma_frame_push(frames@.drop_last(), payload);
                            assert(frames@.drop_last().push(payload) =~= frames@);
                        }
                        let next = segment(&r, e + 2, m);
                        proof {
                            assert(next@ =~= r@.skip(e + 2));
                            assert(payload@ =~= r@.take(e as int));
                            let (fs, rest) = sse_event_drain(next@);
                            assert(frame_views(frames@) + fs =~= old_frames + (seq![r@.take(e as int)] + fs));
                        }
                        buf = next;
                    },
                    None => {
                        proof {
                            assert(frame_views(frames@) + Seq::<Seq<char>>::empty() =~= frame_views(frames@));
                        }
                        break;
                    },
                }
            },
            None => {
                proof {
                    assert(frame_views(frames@) + Seq::<Seq<char>>::empty() =~= frame_views(frames@));
                }
                break;
            },
        }
    }
    (frames, string_from_range(buf.as_slice(), 0, buf.len()))
}

/// Drains `data: ...` lines from `buffer`; with `stop_at_done` a `[DONE]`
/// line ends the draining.
pub fn drain_sse_lines(buffer: &str, stop_at_done: bool) -> (r: (Vec<String>, String))
    ensures
        frame_views(r.0@) == sse_line_drain(buffer@, stop_at_done).0,
        r.1@ == sse_line_drain(buffer@, stop_at_done).1,
{
    let mut buf = chars_of(buffer);
    let marker: Vec<char> = vec!['d', 'a', 't', 'a', ':', ' '];
    let nl: Vec<char> = vec!['\n'];
    let done: Vec<char> = vec!['[', 'D', 'O', 'N', 'E', ']'];
    let mut frames: Vec<String> = Vec::new();
    proof {
        assert(marker@ =~= data_marker());
        assert(nl@ =~= seq!['\n']);
        assert(done@ =~= done_marker());
        assert(frame_views(frames@) + sse_line_drain(buf@, stop_at_done).0 =~= sse_line_drain(
            buffer@,
            stop_at_done,
        ).0);
    }
    loop
        invariant_except_break
            marker@ == data_marker(),
            nl@ == seq!['\n'],
            done@ == done_marker(),
            frame_views(frames@) + sse_line_drain(buf@, stop_at_done).0 == sse_line_drain(
                buffer@,
                stop_at_done,
            ).0,
            sse_line_drain(buf@, stop_at_done).1 == sse_line_drain(buffer@, stop_at_done).1,
        ensures
            frame_views(frames@) == sse_line_drain(buffer@, stop_at_done).0,
            buf@ == sse_line_drain(buffer@, stop_at_done).1,
        decreases buf@.len(),
    {
        match find_seq(buf.as_slice(), marker.as_slice()) {
            Some(i) => {
                let n = buf.len();
                proof {
                    lemma_find_from_bounds(buf@, data_marker(), 0);
                    assert(i + 6 <= n);
                }
                let r = segment(&buf, i + 6, n);
                proof {
                    assert(r@ =~= buf@.skip(i + 6));
                }
                match find_seq(r.as_slice(), nl.as_slice()) {
                    Some(e) => {
                        let m = r.len();
                        proof {
                            lemma_find_from_bounds(r@, seq!['\n'], 0);
                            assert(e + 1 <= m);
                        }
                        let raw = segment(&r, 0, e);
                        let (a, b) = trim_bounds(raw.as_slice());
                        let line = segment(&raw, a, b);
                        let next = segment(&r, e + 1, m);
                        proof {
                            assert(raw@ =~= r@.take(e as int));
                            assert(next@ =~= r@.skip(e + 1));
                        }
                        if stop_at_done && seq_eq(line.as_slice(), done.as_slice()) {
                            buf = next;
                            proof {
                                assert(frame_views(frames@) + Seq::<Seq<char>>::empty() =~= frame_views(frames@));
                            }
                            break;
                        }
                        let payload = string_from_range(line.as_slice(), 0, line.len());
                        let ghost old_frames = frame_views(frames@);
                        frames.push(payload);
                        proof {
                            lemma_frame_push(frames@.drop_last(), payload);
                            assert(frames@.drop_last().push(payload) =~= frames@);
                            let (fs, fin) = sse_line_drain(next@, stop_at_done);
                            assert(payload@ =~= trim(r@.take(e as int)));
                            assert(frame_views(frames@) + fs =~= old_frames + (seq![trim(r@.take(e as int))] + fs));
                        }
                        buf = next;
                    },
                    None => {
                        proof {
                            assert(frame_views(frames@) + Seq::<Seq<char>>::empty() =~= frame_views(frames@));
                        }
                        break;
                    },
                }
            },
            None => {
                proof {
                    assert(frame_views(frames@) + Seq::<Seq<char>>::empty() =~= frame_views(frames@));
                }
                break;
            },
        }
    }
    (frames, string_from_range(buf.as_slice(), 0, buf.len()))
}

proof fn lemma_find_from_extend(a: Seq<char>, b: Seq<char>, needle: Seq<char>, j: int)
    requires
        find_from(a, needle, j) is Some,
    ensures
        find_from(a + b, needle, j) == find_from(a, needle, j),
    decreases a.len() + 1 - j,
{
    if !(j < 0 || j + needle.len() > a.len()) {
        assert((a + b).subrange(j, j + needle.len()) =~= a.subrange(j, j + needle.len()));
        if !occurs_at(a, needle, j) {
            lemma_find_from_extend(a, b, needle, j + 1);
        }
    }
}

/// Framing does not depend on how the stream was cut into chunks: draining
/// `a` and then the rest of `a` followed by `b` yields the frames, and the
/// rest, of draining `a + b` at once.
pub proof fn law_ndjson_chunking(a: Seq<char>, b: Seq<char>)
    ensures
        ndjson_drain(a).0 + ndjson_drain(ndjson_drain(a).1 + b).0 == ndjson_drain(a + b).0,
        ndjson_drain(ndjson_drain(a).1 + b).1 == ndjson_drain(a + b).1,
    decreases a.len(),
{
    match find(a, seq!['\n']) {
        Some(k) => {
            lemma_find_from_bounds(a, seq!['\n'], 0);
            lemma_find_from_extend(a, b, seq!['\n'], 0);
            let t = a.skip(k + 1);
            assert((a + b).take(k) =~= a.take(k));
            assert((a + b).skip(k + 1) =~= t + b);
            law_ndjson_chunking(t, b);
            let (fs, rest) = ndjson_drain(t);
            if trim(a.take(k)).len() == 0 {
            } else {
                assert(seq![a.take(k)] + fs + ndjson_drain(rest + b).0 =~= seq![a.take(k)] + (fs + ndjson_drain(rest + b).0));
            }
        },
        None => {
            assert(Seq::<Seq<char>>::empty() + ndjson_drain(a + b).0 =~= ndjson_drain(a + b).0);
        },
    }
}

/// Event framing does not depend on how the stream was cut into chunks.
pub proof fn law_sse_event_chunking(a: Seq<char>, b: Seq<char>)
    ensures
        sse_event_drain(a).0 + sse_event_drain(sse_event_drain(a).1 + b).0 == sse_event_drain(a + b).0,
        sse_event_drain(sse_event_drain(a).1 + b).1 == sse_event_drain(a + b).1,
    decreases a.len(),
{
    match find(a, data_marker()) {
        Some(i) => {
            lemma_find_from_bounds(a, data_marker(), 0);
            lemma_find_from_extend(a, b, data_marker(), 0);
            let r = a.skip(i + 6);
            assert((a + b).skip(i + 6) =~= r + b);
            match find(r, seq!['\n', '\n']) {
                Some(e) => {
                    lemma_find_from_bounds(r, seq!['\n', '\n'], 0);
                    lemma_find_from_extend(r, b, seq!['\n', '\n'], 0);
                    assert((r + b).take(e) =~= r.take(e));
                    assert((r + b).skip(e + 2) =~= r.skip(e + 2) + b);
                    law_sse_event_chunking(r.skip(e + 2), b);
                    let (fs, rest) = sse_event_drain(r.skip(e + 2));
                    assert(seq![r.take(e)] + fs + sse_event_drain(rest + b).0 =~= seq![r.take(e)] + (fs
                        + sse_event_drain(rest + b).0));
                },
                None => {
                    assert(Seq::<Seq<char>>::empty() + sse_event_drain(a + b).0 =~= sse_event_drain(a + b).0);
                },
            }
        },
        None => {
            assert(Seq::<Seq<char>>::empty() + sse_event_drain(a + b).0 =~= sse_event_drain(a + b).0);
        },
    }
}

/// Line framing without a stop marker does not depend on how the stream
/// was cut into chunks. (With the `[DONE]` stop it does: lines after the
/// marker wait for the next chunk.)
pub proof fn law_sse_line_chunking(a: Seq<char>, b: Seq<char>)
    ensures
        sse_line_drain(a, false).0 + sse_line_drain(sse_line_drain(a, false).1 + b, false).0
            == sse_line_drain(a + b, false).0,
        sse_line_drain(sse_line_drain(a, false).1 + b, false).1 == sse_line_drain(a + b, false).1,
    decreases a.len(),
{
    match find(a, data_marker()) {
        Some(i) => {
            lemma_find_from_bounds(a, data_marker(), 0);
            lemma_find_from_extend(a, b, data_marker(), 0);
            let r = a.skip(i + 6);
            assert((a + b).skip(i + 6) =~= r + b);
            match find(r, seq!['\n']) {
                Some(e) => {
                    lemma_find_from_bounds(r, seq!['\n'], 0);
                    lemma_find_from_extend(r, b, seq!['\n'], 0);
                    assert((r + b).take(e) =~= r.take(e));
                    assert((r + b).skip(e + 1) =~= r.skip(e + 1) + b);
                    law_sse_line_chunking(r.skip(e + 1), b);
                    let (fs, rest) = sse_line_drain(r.skip(e + 1), false);
                    let line = trim(r.take(e));
                    assert(seq![line] + fs + sse_line_drain(rest + b, false).0 =~= seq![line] + (fs
                        + sse_line_drain(rest + b, false).0));
                },
                None => {
                    assert(Seq::<Seq<char>>::empty() + sse_line_drain(a + b, false).0 =~= sse_line_drain(
                        a + b,
                        false,
                    ).0);
                },
            }
        },
        None => {
            assert(Seq::<Seq<char>>::empty() + sse_line_drain(a + b, false).0 =~= sse_line_drain(
                a + b,
                false,
            ).0);
        },
    }
}

/// What `serde_json` reads from an Ollama frame: the string at
/// `message.content`, if the frame is JSON with a string there.
pub uninterp spec fn ollama_text(frame: Seq<char>) -> Option<Seq<char>>;

/// What `serde_json` reads from a Gemini event: the string at
/// `candidates[0].content.parts[0].text`.
pub uninterp spec fn gemini_text(frame: Seq<char>) -> Option<Seq<char>>;

/// What `serde_json` reads from an OpenAI-style line: the string at
/// `choices[0].delta.content`.
pub uninterp spec fn openai_text(frame: Seq<char>) -> Option<Seq<char>>;

/// What `serde_json` reads from an Anthropic messages line: the string at `delta.text`.
pub uninterp spec fn anthropic_text(frame: Seq<char>) -> Option<Seq<char>>;

/// `serde_json::from_str::<Value>` on `frame`, then `get("message")`,
/// `get("content")`, `as_str()`. Trusted: the result is named by
/// `ollama_text`, a function of the frame alone; nothing more is said of it.
#[verifier::external_body]
fn read_ollama_text(frame: &str) -> (r: Option<String>)
    ensures
        r matches Some(t) ==> ollama_text(frame@) == Some(t@),
        r is None ==> ollama_text(frame@) is None,
{
    let v: serde_json::Value = serde_json::from_str(frame).ok()?;
    v.get("message").and_then(|m| m.get("content")).and_then(|c| c.as_str()).map(|t| t.to_string())
}

/// `serde_json::from_str::<Value>` on `frame`, then
/// `v["candidates"][0]["content"]["parts"][0]["text"].as_str()`. Trusted:
/// the result is named by `gemini_text`.
#[verifier::external_body]
fn read_gemini_text(frame: &str) -> (r: Option<String>)
    ensures
        r matches Some(t) ==> gemini_text(frame@) == Some(t@),
        r is None ==> gemini_text(frame@) is None,
{
    let v: serde_json::Value = serde_json::from_str(frame).ok()?;
    v["candidates"][0]["content"]["parts"][0]["text"].as_str().map(|t| t.to_string())
}

/// `serde_json::from_str::<Value>` on `frame`, then
/// `v["choices"][0]["delta"]["content"].as_str()`. Trusted: the result is
/// named by `openai_text`.
#[verifier::external_body]
fn read_openai_text(frame: &str) -> (r: Option<String>)
    ensures
        r matches Some(t) ==> openai_text(frame@) == Some(t@),
        r is None ==> openai_text(frame@) is None,
{
    let v: serde_json::Value = serde_json::from_str(frame).ok()?;
    v["choices"][0]["delta"]["content"].as_str().map(|t| t.to_string())
}

/// `serde_json::from_str::<Value>` on `frame`, then
/// `v["delta"]["text"].as_str()`. Trusted: the result is named by `anthropic_text`.
#[verifier::external_body]
fn read_anthropic_text(frame: &str) -> (r: Option<String>)
    ensures
        r matches Some(t) ==> anthropic_text(frame@) == Some(t@),
        r is None ==> anthropic_text(frame@) is None,
{
    let v: serde_json::Value = serde_json::from_str(frame).ok()?;
    v["delta"]["text"].as_str().map(|t| t.to_string())
}

/// The wire formats of the providers' streams.
#[derive(Debug, Clone, Copy, PartialEq, Eq, Structural)]
pub enum StreamFormat {
    /// Ollama: newline-delimited JSON.
    Ollama,
    /// Gemini, directly or through the vault proxy: blank-line-ended events.
    Gemini,
    /// OpenAI and LM Studio: `data:` lines, ended by `[DONE]`.
    OpenAi,
    /// Anthropic messages API: `data:` lines.
    Anthropic,
}

/// The frames and rest of `s` in `format`.
pub open spec fn drain_in(format: StreamFormat, s: Seq<char>) -> (Seq<Seq<char>>, Seq<char>) {
    match format {
        StreamFormat::Ollama => ndjson_drain(s),
        StreamFormat::Gemini => sse_event_drain(s),
        StreamFormat::OpenAi => sse_line_drain(s, true),
        StreamFormat::Anthropic => sse_line_drain(s, false),
    }
}

/// The text a frame of `format` carries, if any.
pub open spec fn frame_text(format: StreamFormat, frame: Seq<char>) -> Option<Seq<char>> {
    match format {
        StreamFormat::Ollama => ollama_text(frame),
        StreamFormat::Gemini => gemini_text(frame),
        StreamFormat::OpenAi => openai_text(frame),
        StreamFormat::Anthropic => anthropic_text(frame),
    }
}

/// The texts carried by the first `n` frames, in order.
pub open spec fn texts_of(format: StreamFormat, frames: Seq<Seq<char>>, n: int) -> Seq<Seq<char>>
    decreases n,
{
    if n <= 0 {
        Seq::empty()
    } else {
        match frame_text(format, frames[n - 1]) {
            Some(t) => texts_of(format, frames, n - 1).push(t),
            None => texts_of(format, frames, n - 1),
        }
    }
}

/// The result of feeding a chunk to a stream decoder.
pub struct Decoded {
    /// Texts to hand on, in order.
    pub texts: Vec<String>,
    /// What stays buffered for the next chunk.
    pub rest: String,
    /// The chunk was not UTF-8 and the format reports that as an error (Ollama).
    pub invalid_utf8: bool,
}

fn read_text(format: StreamFormat, frame: &str) -> (r: Option<String>)
    ensures
        r matches Some(t) ==> frame_text(format, frame@) == Some(t@),
        r is None ==> frame_text(format, frame@) is None,
{
    match format {
        StreamFormat::Ollama => read_ollama_text(frame),
        StreamFormat::Gemini => read_gemini_text(frame),
        StreamFormat::OpenAi => read_openai_text(frame),
        StreamFormat::Anthropic => read_anthropic_text(frame),
    }
}

/// Feeds `chunk` to a decoder of `format` that holds `buffer`: a UTF-8
/// chunk is appended and the complete frames are drained and read; a chunk
/// that is not UTF-8 is dropped, and for Ollama reported.
pub fn decode_chunk(format: StreamFormat, buffer: &str, chunk: Vec<u8>) -> (r: Decoded)
    ensures
        valid_utf8(chunk@) ==> {
            let d = drain_in(format, buffer@ + decode_utf8(chunk@));
            &&& frame_views(r.texts@) == texts_of(format, d.0, d.0.len() as int)
            &&& r.rest@ == d.1
            &&& !r.invalid_utf8
        },
        !valid_utf8(chunk@) ==> r.texts@.len() == 0 && r.rest@ == buffer@ && r.invalid_utf8 == (format
            == StreamFormat::Ollama),
{
    match utf8_to_string(chunk) {
        Ok(text) => {
            let mut all = copy_str(buffer);
            append_str(&mut all, text.as_str());
            let (frames, rest) = match format {
                StreamFormat::Ollama => drain_ndjson(all.as_str()),
                StreamFormat::Gemini => drain_sse_events(all.as_str()),
                StreamFormat::OpenAi => drain_sse_lines(all.as_str(), true),
                StreamFormat::Anthropic => drain_sse_lines(all.as_str(), false),
            };
            let ghost fv = frame_views(frames@);
            let mut texts: Vec<String> = Vec::new();
            let mut i: usize = 0;
            while i < frames.len()
                invariant
                    i <= frames@.len(),
                    fv == frame_views(frames@),
                    frame_views(texts@) == texts_of(format, fv, i as int),
                decreases frames.len() - i,
            {
                match read_text(format, frames[i].as_str()) {
                    Some(t) => {
                        proof {
                            lemma_frame_push(texts@, t);
                        }
                        texts.push(t);
                    },
                    None => {},
                }
                i = i + 1;
            }
            Decoded { texts, rest, invalid_utf8: false }
        },
        Err(_) => {
            let is_ollama = match format {
                StreamFormat::Ollama => true,
                _ => false,
            };
            Decoded { texts: Vec::new(), rest: copy_str(buffer), invalid_utf8: is_ollama }
        },
    }
}

} // verus!
