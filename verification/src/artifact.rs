//! Integrity data of stored artifacts: file hashes, the manifest signature,
//! the directory name and the metadata size limit.
use vstd::prelude::*;
use vstd::utf8::{decode_utf8, encode_utf8, valid_utf8};
use crate::aiome_log::{append_bytes, lower_hex, to_lower_hex};
use crate::crypto::{sha256, sha256_digest, utf8_to_string};
use crate::error::AiomeError;
use crate::text::{append_str, copy_str};

verus! {

/// Largest total size, in bytes, of an artifact's metadata (its file
/// manifest, tags and karma references, as JSON).
pub const METADATA_LIMIT: usize = 512000;

/// The hash recorded for a file: its SHA-256 digest in lowercase hex.
pub open spec fn content_hash(content: Seq<u8>) -> Seq<char> {
    lower_hex(sha256(content))
}

pub fn file_hash(content: &[u8]) -> (r: String)
    ensures
        r@ == content_hash(content@),
{
    let d = sha256_digest(content);
    to_lower_hex(d.as_slice())
}

/// The bytes of the file hashes, one after the other.
pub open spec fn joined_hash_bytes(hashes: Seq<Seq<char>>) -> Seq<u8>
    decreases hashes.len(),
{
    if hashes.len() == 0 {
        Seq::empty()
    } else {
        joined_hash_bytes(hashes.drop_last()) + encode_utf8(hashes.last())
    }
}

/// The views of some strings.
pub open spec fn hash_views(v: Seq<String>) -> Seq<Seq<char>> {
    v.map_values(|s: String| s@)
}

/// The signature of an artifact: the SHA-256, in lowercase hex, of its file
/// hashes fed one after the other.
pub fn manifest_signature(hashes: &Vec<String>) -> (r: String)
    ensures
        r@ == lower_hex(sha256(joined_hash_bytes(hash_views(hashes@)))),
{
    let mut data: Vec<u8> = Vec::new();
    let ghost hv = hash_views(hashes@);
    let mut i: usize = 0;
    proof {
        assert(hv.take(0) =~= Seq::<Seq<char>>::empty());
    }
    while i < hashes.len()
        invariant
            i <= hashes@.len(),
            hv == hash_views(hashes@),
            data@ == joined_hash_bytes(hv.take(i as int)),
        decreases hashes.len() - i,
    {
        append_bytes(&mut data, hashes[i].as_str());
        proof {
            assert(hv.take(i + 1).drop_last() =~= hv.take(i as int));
        }
        i = i + 1;
    }
    proof {
        assert(hv.take(hv.len() as int) =~= hv);
    }
    let d = sha256_digest(data.as_slice());
    to_lower_hex(d.as_slice())
}

/// The directory of an artifact created on `date` (`YYYY-MM-DD`) with id
/// `id`: the date, `_` and the id's first eight bytes (eight characters for
/// a UUID), which must end on a character boundary.
pub fn artifact_dir_name(date: &str, id: &str) -> (r: String)
    requires
        encode_utf8(id@).len() >= 8,
        valid_utf8(encode_utf8(id@).take(8)),
    ensures
        r@ == date@ + "_"@ + decode_utf8(encode_utf8(id@).take(8)),
{
    let b = id.as_bytes();
    let mut head: Vec<u8> = Vec::new();
    let mut i: usize = 0;
    while i < 8
        invariant
            i <= 8,
            8 <= b@.len(),
            b@ == encode_utf8(id@),
            head@ == b@.take(i as int),
        decreases 8 - i,
    {
        head.push(b[i]);
        proof {
            assert(head@ =~= b@.take(i + 1));
        }
        i = i + 1;
    }
    let mut out = copy_str(date);
    append_str(&mut out, "_");
    match utf8_to_string(head) {
        Ok(h) => append_str(&mut out, h.as_str()),
        Err(_) => {},
    }
    out
}

/// The metadata of an artifact fits when its three JSON texts, in bytes,
/// add up to at most `METADATA_LIMIT`.
pub fn check_metadata_size(manifest_len: usize, tags_len: usize, refs_len: usize) -> (r: Result<(), AiomeError>)
    ensures
        manifest_len + tags_len + refs_len <= METADATA_LIMIT ==> r is Ok,
        manifest_len + tags_len + refs_len > METADATA_LIMIT ==> (r matches Err(AiomeError::SecurityViolation { reason })
            && reason@ == "Artifact metadata exceeds safety limits (500KB)"@),
{
    let total: u128 = manifest_len as u128 + tags_len as u128 + refs_len as u128;
    if total > METADATA_LIMIT as u128 {
        Err(AiomeError::SecurityViolation { reason: copy_str("Artifact metadata exceeds safety limits (500KB)") })
    } else {
        Ok(())
    }
}

} // verus!
