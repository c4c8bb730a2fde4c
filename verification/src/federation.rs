//! Import rules of federated data: lesson truncation and last-writer-wins merging.
use vstd::prelude::*;
use vstd::utf8::encode_utf8;
use crate::text::{append_str, string_from_range, chars_of};

verus! {

/// Longest lesson, in bytes, kept as it is.
pub const SWARM_LESSON_LIMIT: usize = 2000;

/// A lesson as it is stored on import: one longer than `SWARM_LESSON_LIMIT`
/// bytes keeps its first 2000 characters and a truncation notice.
pub open spec fn cleaned_lesson(lesson: Seq<char>) -> Seq<char> {
    if encode_utf8(lesson).len() > SWARM_LESSON_LIMIT {
        (if lesson.len() > 2000 {
            lesson.take(2000)
        } else {
            lesson
        }) + "... [Truncated for Swarm Safety]"@
    } else {
        lesson
    }
}

pub fn clean_lesson(lesson: &str) -> (r: String)
    ensures
        r@ == cleaned_lesson(lesson@),
{
    let bytes = lesson.as_bytes();
    let v = chars_of(lesson);
    if bytes.len() > SWARM_LESSON_LIMIT {
        let end: usize = if v.len() > 2000 {
            2000
        } else {
            v.len()
        };
        let mut out = string_from_range(v.as_slice(), 0, end);
        append_str(&mut out, "... [Truncated for Swarm Safety]");
        proof {
            assert(v@.subrange(0, end as int) =~= (if lesson@.len() > 2000 {
                lesson@.take(2000)
            } else {
                lesson@
            }));
        }
        out
    } else {
        string_from_range(v.as_slice(), 0, v.len())
    }
}

/// Byte-wise lexicographic order (shorter prefix first), as SQLite's
/// binary collation compares text.
pub open spec fn bytes_lt(a: Seq<u8>, b: Seq<u8>) -> bool
    decreases a.len(),
{
    if b.len() == 0 {
        false
    } else if a.len() == 0 {
        true
    } else if a[0] != b[0] {
        a[0] < b[0]
    } else {
        bytes_lt(a.drop_first(), b.drop_first())
    }
}

/// Version `(clock, node)` (a Lamport clock and the node that wrote it) is
/// newer than the stored `(cur_clock, cur_node)`.
pub open spec fn newer(clock: int, node: Seq<u8>, cur_clock: int, cur_node: Seq<u8>) -> bool {
    clock > cur_clock || (clock == cur_clock && bytes_lt(cur_node, node))
}

/// Whether an incoming version `(clock, node)` replaces the stored one
/// `(cur_clock, cur_node)`: a later clock wins, and on equal clocks the
/// greater node id.
pub fn incoming_wins(clock: i64, node: &str, cur_clock: i64, cur_node: &str) -> (r: bool)
    ensures
        r == newer(clock as int, encode_utf8(node@), cur_clock as int, encode_utf8(cur_node@)),
{
    if clock > cur_clock {
        true
    } else if clock < cur_clock {
        false
    } else {
        bytes_less(cur_node.as_bytes(), node.as_bytes())
    }
}

fn bytes_less(a: &[u8], b: &[u8]) -> (r: bool)
    ensures
        r == bytes_lt(a@, b@),
{
    let mut i: usize = 0;
    proof {
        assert(a@.skip(0) =~= a@);
        assert(b@.skip(0) =~= b@);
    }
    while i < a.len() && i < b.len()
        invariant_except_break
            i <= a@.len(),
            i <= b@.len(),
            bytes_lt(a@, b@) == bytes_lt(a@.skip(i as int), b@.skip(i as int)),
        ensures
            bytes_lt(a@, b@) == bytes_lt(a@.skip(i as int), b@.skip(i as int)),
            i <= a@.len(),
            i <= b@.len(),
            (i < a@.len() && i < b@.len()) ==> a@[i as int] != b@[i as int],
        decreases a.len() - i,
    {
        if a[i] != b[i] {
            break;
        }
        proof {
            assert(a@.skip(i as int).drop_first() =~= a@.skip(i + 1));
            assert(b@.skip(i as int).drop_first() =~= b@.skip(i + 1));
        }
        i = i + 1;
    }
    if i < a.len() && i < b.len() {
        a[i] < b[i]
    } else {
        i < b.len()
    }
}

proof fn lemma_bytes_lt_irreflexive(a: Seq<u8>)
    ensures
        !bytes_lt(a, a),
    decreases a.len(),
{
    if a.len() > 0 {
        lemma_bytes_lt_irreflexive(a.drop_first());
    }
}

proof fn lemma_bytes_lt_asymmetric(a: Seq<u8>, b: Seq<u8>)
    ensures
        !(bytes_lt(a, b) && bytes_lt(b, a)),
    decreases a.len(),
{
    if a.len() > 0 && b.len() > 0 && a[0] == b[0] {
        lemma_bytes_lt_asymmetric(a.drop_first(), b.drop_first());
    }
}

proof fn lemma_bytes_lt_total(a: Seq<u8>, b: Seq<u8>)
    ensures
        a != b ==> bytes_lt(a, b) || bytes_lt(b, a),
    decreases a.len(),
{
    if a.len() > 0 && b.len() > 0 && a[0] == b[0] {
        lemma_bytes_lt_total(a.drop_first(), b.drop_first());
        if a != b {
            assert(a.drop_first() != b.drop_first()) by {
                if a.drop_first() == b.drop_first() {
                    assert(a =~= seq![a[0]] + a.drop_first());
                    assert(b =~= seq![b[0]] + b.drop_first());
                }
            }
        }
    } else if a.len() == 0 && b.len() == 0 {
        assert(a =~= b);
    }
}

proof fn lemma_bytes_lt_transitive(a: Seq<u8>, b: Seq<u8>, c: Seq<u8>)
    requires
        bytes_lt(a, b),
        bytes_lt(b, c),
    ensures
        bytes_lt(a, c),
    decreases a.len(),
{
    if a.len() > 0 && a[0] == b[0] && b[0] == c[0] {
        lemma_bytes_lt_transitive(a.drop_first(), b.drop_first(), c.drop_first());
    }
}

/// Merging is a strict total order on versions: a stored version is never
/// replaced by itself (so importing the same data twice changes nothing),
/// two versions never replace each other, any two different versions are
/// ordered one way, and the order is transitive, so the winner of a set of
/// imports does not depend on their order.
pub proof fn law_last_writer_wins(
    c1: int,
    n1: Seq<u8>,
    c2: int,
    n2: Seq<u8>,
    c3: int,
    n3: Seq<u8>,
)
    ensures
        !newer(c1, n1, c1, n1),
        !(newer(c1, n1, c2, n2) && newer(c2, n2, c1, n1)),
        (c1 != c2 || n1 != n2) ==> newer(c1, n1, c2, n2) || newer(c2, n2, c1, n1),
        newer(c1, n1, c2, n2) && newer(c2, n2, c3, n3) ==> newer(c1, n1, c3, n3),
{
    lemma_bytes_lt_irreflexive(n1);
    lemma_bytes_lt_asymmetric(n1, n2);
    lemma_bytes_lt_total(n1, n2);
    if newer(c1, n1, c2, n2) && newer(c2, n2, c3, n3) && c1 == c2 && c2 == c3 {
        lemma_bytes_lt_transitive(n3, n2, n1);
    }
}

} // verus!
