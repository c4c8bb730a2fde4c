//! The hash chain of the audit log.
use vstd::prelude::*;
use vstd::utf8::encode_utf8;
use crate::crypto::{sha256, sha256_digest};
use crate::text::{append_signed_decimal, append_str, copy_str, push_char, signed_decimal};

verus! {

/// The previous hash used for the first entry of the chain.
pub open spec fn genesis_hash() -> Seq<char> {
    "AIOME_GENESIS_HASH_2026"@
}

/// The lowercase hexadecimal digit for `d < 16`.
pub open spec fn hex_digit(d: int) -> char {
    if d < 10 {
        ((d + 48) as u32) as char
    } else {
        ((d + 87) as u32) as char
    }
}

/// Lowercase hex of `bytes`, two digits per byte (what `{:x}` prints for a digest).
pub open spec fn lower_hex(bytes: Seq<u8>) -> Seq<char>
    decreases bytes.len(),
{
    if bytes.len() == 0 {
        Seq::empty()
    } else {
        lower_hex(bytes.drop_last()) + seq![
            hex_digit(bytes.last() as int / 16),
            hex_digit(bytes.last() as int % 16),
        ]
    }
}

/// An optional field as logged: absent fields count as empty.
pub open spec fn or_empty(o: Option<Seq<char>>) -> Seq<char> {
    match o {
        Some(s) => s,
        None => Seq::empty(),
    }
}

/// The hash of a log entry: SHA-256 over the UTF-8 of the previous hash,
/// the event type, the artifact id, the output path and the detail, in that
/// order, written in lowercase hex.
pub open spec fn entry_hash(
    prev: Seq<char>,
    event: Seq<char>,
    artifact: Option<Seq<char>>,
    path: Option<Seq<char>>,
    detail: Option<Seq<char>>,
) -> Seq<char> {
    lower_hex(
        sha256(
            encode_utf8(prev) + encode_utf8(event) + encode_utf8(or_empty(artifact)) + encode_utf8(
                or_empty(path),
            ) + encode_utf8(or_empty(detail)),
        ),
    )
}

/// The view of an optional string.
pub open spec fn opt_view(o: Option<&str>) -> Option<Seq<char>> {
    match o {
        Some(s) => Some(s@),
        None => None,
    }
}

fn hex_char(d: u8) -> (c: char)
    requires
        d < 16,
    ensures
        c == hex_digit(d as int),
{
    let c = if d < 10 {
        (d + 48) as char
    } else {
        (d + 87) as char
    };
    c
}

/// Lowercase hex of `bytes`.
pub fn to_lower_hex(bytes: &[u8]) -> (r: String)
    ensures
        r@ == lower_hex(bytes@),
{
    let mut out = String::new();
    let mut i: usize = 0;
    while i < bytes.len()
        invariant
            i <= bytes@.len(),
            out@ == lower_hex(bytes@.take(i as int)),
        decreases bytes.len() - i,
    {
        let b = bytes[i];
        push_char(&mut out, hex_char(b / 16));
        push_char(&mut out, hex_char(b % 16));
        proof {
            assert(bytes@.take(i + 1).drop_last() =~= bytes@.take(i as int));
            assert(out@ =~= lower_hex(bytes@.take(i + 1)));
        }
        i = i + 1;
    }
    proof {
        assert(bytes@.take(bytes@.len() as int) =~= bytes@);
    }
    out
}

pub(crate) fn append_bytes(out: &mut Vec<u8>, s: &str)
    ensures
        final(out)@ == old(out)@ + encode_utf8(s@),
{
    let b = s.as_bytes();
    let mut i: usize = 0;
    while i < b.len()
        invariant
            i <= b@.len(),
            b@ == encode_utf8(s@),
            out@ == old(out)@ + b@.take(i as int),
        decreases b.len() - i,
    {
        out.push(b[i]);
        i = i + 1;
        proof {
            assert(out@ =~= old(out)@ + b@.take(i as int));
        }
    }
    proof {
        assert(b@.take(b@.len() as int) =~= b@);
    }
}

/// The chained hash of a log entry.
pub fn compute_hash(
    prev_hash: &str,
    event_type: &str,
    artifact: Option<&str>,
    path: Option<&str>,
    detail: Option<&str>,
) -> (r: String)
    ensures
        r@ == entry_hash(prev_hash@, event_type@, opt_view(artifact), opt_view(path), opt_view(detail)),
{
    let mut data: Vec<u8> = Vec::new();
    append_bytes(&mut data, prev_hash);
    append_bytes(&mut data, event_type);
    append_bytes(&mut data, match artifact { Some(a) => a, None => "" });
    append_bytes(&mut data, match path { Some(p) => p, None => "" });
    append_bytes(&mut data, match detail { Some(d) => d, None => "" });
    proof {
        reveal_strlit("");
        assert(encode_utf8(Seq::<char>::empty()) =~= Seq::<u8>::empty());
        assert(data@ =~= encode_utf8(prev_hash@) + encode_utf8(event_type@) + encode_utf8(
            or_empty(opt_view(artifact)),
        ) + encode_utf8(or_empty(opt_view(path))) + encode_utf8(or_empty(opt_view(detail))));
    }
    let digest = sha256_digest(data.as_slice());
    to_lower_hex(digest.as_slice())
}

/// The hash to chain from: the last stored one, or the genesis hash.
pub fn previous_hash(last: Option<String>) -> (r: String)
    ensures
        r@ == match last {
            Some(h) => h@,
            None => genesis_hash(),
        },
{
    match last {
        Some(h) => h,
        None => copy_str("AIOME_GENESIS_HASH_2026"),
    }
}

/// The daily summary line for `count` successful artifacts.
pub fn daily_summary_text(count: i64) -> (r: String)
    ensures
        r@ == "本日の成果物生成成功数: "@ + signed_decimal(count as int) + " 本"@,
{
    let mut r = copy_str("本日の成果物生成成功数: ");
    append_signed_decimal(&mut r, count);
    append_str(&mut r, " 本");
    r
}

/// The daily summary line of the video factory's log for `count` successes.
pub fn factory_summary_text(count: i64) -> (r: String)
    ensures
        r@ == "本日の動画生成成功数: "@ + signed_decimal(count as int) + " 本"@,
{
    let mut r = copy_str("本日の動画生成成功数: ");
    append_signed_decimal(&mut r, count);
    append_str(&mut r, " 本");
    r
}

} // verus!
