//! Splitting project documentation into titled chunks for retrieval.
use vstd::prelude::*;
use crate::text::{
    append_decimal, append_str, copy_str, decimal, has_prefix, lines, lines_of, push_char,
    seq_has_prefix, str_eq, string_from_chars,
};

verus! {

/// `str::trim_start_matches(p)`: every leading copy of `p` removed.
pub open spec fn strip_all(s: Seq<char>, p: Seq<char>) -> Seq<char>
    decreases s.len(),
{
    if p.len() > 0 && has_prefix(s, p) {
        strip_all(s.skip(p.len() as int), p)
    } else {
        s
    }
}

/// The lines joined with `\n` between them.
pub open spec fn join_lines(ls: Seq<Seq<char>>) -> Seq<char>
    decreases ls.len(),
{
    if ls.len() == 0 {
        Seq::empty()
    } else if ls.len() == 1 {
        ls[0]
    } else {
        join_lines(ls.drop_last()) + seq!['\n'] + ls.last()
    }
}

/// The finished chunk `(title, text)` for the pending lines, if any.
pub open spec fn flush(title: Seq<char>, cur: Seq<Seq<char>>) -> Seq<(Seq<char>, Seq<char>)> {
    if cur.len() > 0 {
        seq![(title, join_lines(cur))]
    } else {
        Seq::empty()
    }
}

/// Chunks of the remaining lines `ls`, with the current title and the lines
/// of the unfinished chunk: a `## ` line starts a new chunk titled by it; a
/// `# ` line titles the document while no title is set; every line belongs
/// to the chunk it appears in.
pub open spec fn chunks_acc(ls: Seq<Seq<char>>, title: Seq<char>, cur: Seq<Seq<char>>) -> Seq<
    (Seq<char>, Seq<char>),
>
    decreases ls.len(),
{
    if ls.len() == 0 {
        flush(title, cur)
    } else {
        let l = ls[0];
        if has_prefix(l, "## "@) {
            flush(title, cur) + chunks_acc(ls.drop_first(), strip_all(l, "## "@), seq![l])
        } else if has_prefix(l, "# "@) && title.len() == 0 {
            chunks_acc(ls.drop_first(), strip_all(l, "# "@), cur.push(l))
        } else {
            chunks_acc(ls.drop_first(), title, cur.push(l))
        }
    }
}

/// The chunks of a markdown document.
pub open spec fn markdown_chunks(content: Seq<char>) -> Seq<(Seq<char>, Seq<char>)> {
    chunks_acc(lines(content), Seq::empty(), Seq::empty())
}

/// Removes every leading copy of `p` from `s`.
pub fn strip_prefix_all(s: &[char], p: &[char]) -> (r: Vec<char>)
    ensures
        r@ == strip_all(s@, p@),
{
    let mut i: usize = 0;
    let ghost n = p@.len();
    if p.len() > 0 {
        proof {
            assert(s@.skip(0) =~= s@);
        }
        loop
            invariant_except_break
                i <= s@.len(),
                n == p@.len(),
                n > 0,
                strip_all(s@, p@) == strip_all(s@.skip(i as int), p@),
            ensures
                i <= s@.len(),
                strip_all(s@, p@) == s@.skip(i as int),
            decreases s@.len() - i,
        {
            let rest = tail_of(s, i);
            if seq_has_prefix(rest.as_slice(), p) {
                proof {
                    assert(s@.skip(i as int).skip(n as int) =~= s@.skip(i + n));
                    assert(i + p@.len() <= s@.len());
                    assert(s@.len() == s.len());
                }
                i = i + p.len();
            } else {
                break;
            }
        }
    } else {
        proof {
            assert(s@.skip(0) =~= s@);
        }
    }
    tail_of(s, i)
}

fn tail_of(s: &[char], i: usize) -> (r: Vec<char>)
    requires
        i <= s@.len(),
    ensures
        r@ == s@.skip(i as int),
{
    let mut r: Vec<char> = Vec::new();
    let mut k = i;
    while k < s.len()
        invariant
            i <= k <= s@.len(),
            r@ == s@.subrange(i as int, k as int),
        decreases s.len() - k,
    {
        r.push(s[k]);
        k = k + 1;
        proof {
            assert(r@ =~= s@.subrange(i as int, k as int));
        }
    }
    proof {
        assert(r@ =~= s@.skip(i as int));
    }
    r
}

/// Joins lines with `\n`.
pub fn join_with_newlines(ls: &Vec<Vec<char>>) -> (r: String)
    ensures
        r@ == join_lines(ls@.map_values(|l: Vec<char>| l@)),
{
    let ghost views = ls@.map_values(|l: Vec<char>| l@);
    let mut out = String::new();
    let mut i: usize = 0;
    while i < ls.len()
        invariant
            i <= ls@.len(),
            views == ls@.map_values(|l: Vec<char>| l@),
            out@ == join_lines(views.take(i as int)),
        decreases ls.len() - i,
    {
        if i > 0 {
            push_char(&mut out, '\n');
        }
        let piece = string_from_chars(ls[i].as_slice());
        append_str(&mut out, piece.as_str());
        proof {
            let t = views.take(i + 1);
            assert(t.drop_last() =~= views.take(i as int));
            assert(t.last() == ls@[i as int]@);
            if i == 0 {
                assert(out@ =~= join_lines(t));
            } else {
                assert(out@ =~= join_lines(t));
            }
        }
        i = i + 1;
    }
    proof {
        assert(views.take(ls@.len() as int) =~= views);
    }
    out
}

/// Splits a markdown document into `(title, text)` chunks at `## ` headings.
pub fn chunk_markdown(content: &str) -> (r: Vec<(String, String)>)
    ensures
        r@.len() == markdown_chunks(content@).len(),
        forall|k: int|
            0 <= k < r@.len() ==> (#[trigger] r@[k]).0@ == markdown_chunks(content@)[k].0 && r@[k].1@
                == markdown_chunks(content@)[k].1,
{
    let ls = lines_of(content);
    let ghost lv = lines(content@);
    let mut out: Vec<(String, String)> = Vec::new();
    let ghost done: Seq<(Seq<char>, Seq<char>)> = Seq::empty();
    let mut title: Vec<char> = Vec::new();
    let mut cur: Vec<Vec<char>> = Vec::new();
    let h2 = crate::text::chars_of("## ");
    let h1 = crate::text::chars_of("# ");
    let mut i: usize = 0;
    proof {
        assert(lv.skip(0) =~= lv);
        assert(title@ =~= Seq::<char>::empty());
        assert(cur@.map_values(|l: Vec<char>| l@) =~= Seq::<Seq<char>>::empty());
        assert(done + chunks_acc(lv.skip(0), title@, cur@.map_values(|l: Vec<char>| l@))
            =~= markdown_chunks(content@));
    }
    while i < ls.len()
        invariant
            i <= ls@.len(),
            lv == lines(content@),
            ls@.len() == lv.len(),
            forall|k: int| 0 <= k < ls@.len() ==> #[trigger] ls@[k]@ == lv[k],
            h2@ == "## "@,
            h1@ == "# "@,
            out@.len() == done.len(),
            forall|k: int|
                0 <= k < out@.len() ==> (#[trigger] out@[k]).0@ == done[k].0 && out@[k].1@
                    == done[k].1,
            markdown_chunks(content@) == done + chunks_acc(
                lv.skip(i as int),
                title@,
                cur@.map_values(|l: Vec<char>| l@),
            ),
        decreases ls.len() - i,
    {
        let line = &ls[i];
        let ghost curv = cur@.map_values(|l: Vec<char>| l@);
        proof {
            assert(lv.skip(i as int)[0] == line@);
            assert(lv.skip(i as int).drop_first() =~= lv.skip(i + 1));
        }
        if seq_has_prefix(line.as_slice(), h2.as_slice()) {
            if cur.len() > 0 {
                let text = join_with_newlines(&cur);
                let t = string_from_chars(title.as_slice());
                proof {
                    assert(flush(title@, curv) =~= seq![(t@, text@)]);
                    done = done.push((t@, text@));
                }
                out.push((t, text));
            } else {
                proof {
                    assert(flush(title@, curv) =~= Seq::<(Seq<char>, Seq<char>)>::empty());
                }
            }
            title = strip_prefix_all(line.as_slice(), h2.as_slice());
            cur = Vec::new();
            cur.push(copy_chars(line));
            proof {
                assert(cur@.map_values(|l: Vec<char>| l@) =~= seq![line@]);
                assert(done + chunks_acc(lv.skip(i + 1), title@, cur@.map_values(|l: Vec<char>| l@))
                    =~= markdown_chunks(content@));
            }
        } else {
            if seq_has_prefix(line.as_slice(), h1.as_slice()) && title.len() == 0 {
                title = strip_prefix_all(line.as_slice(), h1.as_slice());
            }
            cur.push(copy_chars(line));
            proof {
                assert(cur@.map_values(|l: Vec<char>| l@) =~= curv.push(line@));
            }
        }
        i = i + 1;
    }
    proof {
        assert(lv.skip(i as int) =~= Seq::<Seq<char>>::empty());
    }
    if cur.len() > 0 {
        let text = join_with_newlines(&cur);
        let t = string_from_chars(title.as_slice());
        proof {
            done = done.push((t@, text@));
        }
        out.push((t, text));
    } else {
        proof {
            assert(done + Seq::<(Seq<char>, Seq<char>)>::empty() =~= done);
        }
    }
    out
}

fn copy_chars(v: &Vec<char>) -> (r: Vec<char>)
    ensures
        r@ == v@,
{
    tail_of(v.as_slice(), 0)
}

/// The title of the `index`-th chunk of file `rel_path`.
pub open spec fn artifact_title(rel_path: Seq<char>, index: nat, title: Seq<char>) -> Seq<char> {
    if title.len() == 0 {
        "Knowledge: "@ + rel_path + " (Part "@ + decimal(index + 1) + ")"@
    } else {
        "Knowledge: "@ + title + " ("@ + rel_path + ")"@
    }
}

/// Names the `index`-th chunk of `rel_path`.
pub fn chunk_title(rel_path: &str, index: u64, title: &str) -> (r: String)
    requires
        index < u64::MAX,
    ensures
        r@ == artifact_title(rel_path@, index as nat, title@),
{
    let mut r = copy_str("Knowledge: ");
    if title.is_empty() {
        append_str(&mut r, rel_path);
        append_str(&mut r, " (Part ");
        append_decimal(&mut r, index + 1);
        append_str(&mut r, ")");
    } else {
        append_str(&mut r, title);
        append_str(&mut r, " (");
        append_str(&mut r, rel_path);
        append_str(&mut r, ")");
    }
    r
}

/// The key under which the indexed hash of a file is kept.
pub fn knowledge_state_key(rel_path: &str) -> (r: String)
    ensures
        r@ == "knowledge_hash_"@ + rel_path@,
{
    let mut r = copy_str("knowledge_hash_");
    append_str(&mut r, rel_path);
    r
}

/// The tag that marks the chunks of a file.
pub fn source_tag(rel_path: &str) -> (r: String)
    ensures
        r@ == "source:"@ + rel_path@,
{
    let mut r = copy_str("source:");
    append_str(&mut r, rel_path);
    r
}

/// A file is indexed again unless the stored hash equals its current one.
pub fn needs_reindex(stored_hash: Option<&str>, hash: &str) -> (r: bool)
    ensures
        r == match stored_hash {
            Some(h) => h@ != hash@,
            None => true,
        },
{
    match stored_hash {
        Some(h) => !str_eq(h, hash),
        None => true,
    }
}

/// The file name of the `index`-th chunk.
pub fn chunk_file_name(index: u64) -> (r: String)
    ensures
        r@ == "chunk_"@ + decimal(index as nat) + ".md"@,
{
    let mut r = copy_str("chunk_");
    append_decimal(&mut r, index);
    append_str(&mut r, ".md");
    r
}

/// The texts of some chunks, in order.
pub open spec fn chunk_texts(cs: Seq<(Seq<char>, Seq<char>)>) -> Seq<Seq<char>> {
    cs.map_values(|c: (Seq<char>, Seq<char>)| c.1)
}

proof fn lemma_join_concat(a: Seq<Seq<char>>, b: Seq<Seq<char>>)
    requires
        a.len() > 0,
        b.len() > 0,
    ensures
        join_lines(a + b) == join_lines(a) + seq!['\n'] + join_lines(b),
    decreases b.len(),
{
    if b.len() == 1 {
        assert((a + b).drop_last() =~= a);
        assert((a + b).last() == b[0]);
    } else {
        lemma_join_concat(a, b.drop_last());
        assert((a + b).drop_last() =~= a + b.drop_last());
        assert((a + b).last() == b.last());
    }
}

proof fn lemma_chunks_nonempty(ls: Seq<Seq<char>>, title: Seq<char>, cur: Seq<Seq<char>>)
    requires
        cur.len() + ls.len() > 0,
    ensures
        chunks_acc(ls, title, cur).len() > 0,
    decreases ls.len(),
{
    if ls.len() > 0 {
        let l = ls[0];
        if has_prefix(l, "## "@) {
            lemma_chunks_nonempty(ls.drop_first(), strip_all(l, "## "@), seq![l]);
        } else if has_prefix(l, "# "@) && title.len() == 0 {
            lemma_chunks_nonempty(ls.drop_first(), strip_all(l, "# "@), cur.push(l));
        } else {
            lemma_chunks_nonempty(ls.drop_first(), title, cur.push(l));
        }
    }
}

proof fn lemma_chunks_join(ls: Seq<Seq<char>>, title: Seq<char>, cur: Seq<Seq<char>>)
    ensures
        join_lines(chunk_texts(chunks_acc(ls, title, cur))) == join_lines(cur + ls),
    decreases ls.len(),
{
    if ls.len() == 0 {
        assert(cur + ls =~= cur);
        if cur.len() > 0 {
            assert(chunk_texts(flush(title, cur)) =~= seq![join_lines(cur)]);
        } else {
            assert(chunk_texts(flush(title, cur)) =~= Seq::<Seq<char>>::empty());
            assert(cur =~= Seq::<Seq<char>>::empty());
        }
    } else {
        let l = ls[0];
        let rest = ls.drop_first();
        assert(ls =~= seq![l] + rest);
        if has_prefix(l, "## "@) {
            let t2 = strip_all(l, "## "@);
            lemma_chunks_join(rest, t2, seq![l]);
            let tail = chunks_acc(rest, t2, seq![l]);
            assert(chunk_texts(flush(title, cur) + tail) =~= chunk_texts(flush(title, cur)) + chunk_texts(tail));
            if cur.len() > 0 {
                lemma_chunks_nonempty(rest, t2, seq![l]);
                assert(chunk_texts(flush(title, cur)) =~= seq![join_lines(cur)]);
                assert(seq![join_lines(cur)].len() == 1);
                lemma_join_concat(seq![join_lines(cur)], chunk_texts(tail));
                assert(join_lines(seq![join_lines(cur)]) == join_lines(cur));
                lemma_join_concat(cur, seq![l] + rest);
                assert(cur + ls =~= cur + (seq![l] + rest));
            } else {
                assert(chunk_texts(flush(title, cur)) =~= Seq::<Seq<char>>::empty());
                assert(chunk_texts(flush(title, cur)) + chunk_texts(tail) =~= chunk_texts(tail));
                assert(cur + ls =~= seq![l] + rest);
            }
        } else if has_prefix(l, "# "@) && title.len() == 0 {
            lemma_chunks_join(rest, strip_all(l, "# "@), cur.push(l));
            assert(cur.push(l) + rest =~= cur + ls);
        } else {
            lemma_chunks_join(rest, title, cur.push(l));
            assert(cur.push(l) + rest =~= cur + ls);
        }
    }
}

/// Chunking loses and reorders nothing: the chunks' texts, joined by
/// newlines, are the document's lines joined by newlines.
pub proof fn law_chunks_cover_document(content: Seq<char>)
    ensures
        join_lines(chunk_texts(markdown_chunks(content))) == join_lines(lines(content)),
{
    lemma_chunks_join(lines(content), Seq::empty(), Seq::empty());
    assert(Seq::<Seq<char>>::empty() + lines(content) =~= lines(content));
}

} // verus!
