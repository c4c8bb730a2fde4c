//! Calls into the cryptographic and encoding crates, with what their
//! documentation promises.
use vstd::prelude::*;
use vstd::utf8::*;
use base64::Engine;
use chacha20poly1305::aead::{Aead, KeyInit};
use rand::RngCore;
use sha2::Digest;

verus! {

/// The AEAD error of `chacha20poly1305` (`aead::Error`).
#[verifier::external_type_specification]
#[verifier::external_body]
pub struct ExAeadError(chacha20poly1305::Error);

/// The decoding error of `base64`.
#[verifier::external_type_specification]
#[verifier::external_body]
pub struct ExBase64DecodeError(base64::DecodeError);

/// The error of `String::from_utf8`.
#[verifier::external_type_specification]
#[verifier::external_body]
pub struct ExFromUtf8Error(std::string::FromUtf8Error);

/// The ChaCha20-Poly1305 ciphertext (with its 16-byte tag) of `plaintext`
/// under `key` and `nonce`, or `None` when the cipher refuses the input.
pub uninterp spec fn sealed(key: Seq<u8>, nonce: Seq<u8>, plaintext: Seq<u8>) -> Option<Seq<u8>>;

/// The plaintext ChaCha20-Poly1305 recovers from `ciphertext` under `key`
/// and `nonce`, or `None` when authentication fails.
pub uninterp spec fn opened(key: Seq<u8>, nonce: Seq<u8>, ciphertext: Seq<u8>) -> Option<Seq<u8>>;

/// The standard, padded base64 text of `bytes`.
pub uninterp spec fn base64_text(bytes: Seq<u8>) -> Seq<char>;

/// The bytes standard base64 decoding gives for `text`, or `None` when it is
/// not valid base64.
pub uninterp spec fn base64_bytes(text: Seq<char>) -> Option<Seq<u8>>;

/// The SHA-256 digest of `bytes`.
pub uninterp spec fn sha256(bytes: Seq<u8>) -> Seq<u8>;

/// Twelve bytes from `rand::thread_rng`. Trusted to return; nothing is
/// claimed about the bytes.
#[verifier::external_body]
pub(crate) fn fresh_nonce() -> (r: [u8; 12]) {
    let mut n = [0u8; 12];
    rand::thread_rng().fill_bytes(&mut n);
    n
}

/// `ChaCha20Poly1305::new(key).encrypt(nonce, plaintext)`.
/// Trusted: the outcome is the named `sealed` value, a ciphertext is the
/// plaintext's length plus the 16-byte tag, and the cipher refuses only a
/// plaintext of `u32::MAX` blocks of 64 bytes or more (its block counter's limit).
#[verifier::external_body]
pub(crate) fn aead_encrypt(key: &[u8; 32], nonce: &[u8; 12], plaintext: &[u8]) -> (r: Result<
    Vec<u8>,
    chacha20poly1305::Error,
>)
    ensures
        r is Ok <==> sealed(key@, nonce@, plaintext@) is Some,
        r matches Ok(c) ==> sealed(key@, nonce@, plaintext@) == Some(c@) && c@.len()
            == plaintext@.len() + 16,
        plaintext@.len() < 64 * 4294967295 ==> r is Ok,
{
    let cipher = chacha20poly1305::ChaCha20Poly1305::new(chacha20poly1305::Key::from_slice(key));
    cipher.encrypt(chacha20poly1305::Nonce::from_slice(nonce), plaintext)
}

/// `ChaCha20Poly1305::new(key).decrypt(nonce, ciphertext)`.
/// Trusted: the outcome is the named `opened` value, and (AEAD correctness)
/// a ciphertext that `encrypt` produced for a plaintext under the same key
/// and nonce decrypts to that plaintext.
#[verifier::external_body]
pub(crate) fn aead_decrypt(key: &[u8; 32], nonce: &[u8], ciphertext: &[u8]) -> (r: Result<
    Vec<u8>,
    chacha20poly1305::Error,
>)
    requires
        nonce@.len() == 12,
    ensures
        r is Ok <==> opened(key@, nonce@, ciphertext@) is Some,
        r matches Ok(p) ==> opened(key@, nonce@, ciphertext@) == Some(p@),
        r is Err ==> forall|p: Seq<u8>| sealed(key@, nonce@, p) != Some(ciphertext@),
        r matches Ok(x) ==> forall|p: Seq<u8>|
            #[trigger] sealed(key@, nonce@, p) == Some(ciphertext@) ==> x@ == p,
{
    let cipher = chacha20poly1305::ChaCha20Poly1305::new(chacha20poly1305::Key::from_slice(key));
    cipher.decrypt(chacha20poly1305::Nonce::from_slice(nonce), ciphertext)
}

/// `base64::engine::general_purpose::STANDARD.encode(bytes)`.
/// Trusted: the text is the named `base64_text` of the bytes.
#[verifier::external_body]
pub(crate) fn base64_encode(bytes: &[u8]) -> (r: String)
    requires
        bytes@.len() <= usize::MAX / 2,
    ensures
        r@ == base64_text(bytes@),
{
    base64::engine::general_purpose::STANDARD.encode(bytes)
}

/// `base64::engine::general_purpose::STANDARD.decode(text)`.
/// Trusted: the outcome is the named `base64_bytes` value, and decoding the
/// encoding of some bytes gives those bytes back.
#[verifier::external_body]
pub(crate) fn base64_decode(text: &str) -> (r: Result<Vec<u8>, base64::DecodeError>)
    ensures
        r is Ok <==> base64_bytes(text@) is Some,
        r matches Ok(b) ==> base64_bytes(text@) == Some(b@),
        r is Err ==> forall|b: Seq<u8>| base64_text(b) != text@,
        r matches Ok(x) ==> forall|b: Seq<u8>| #[trigger] base64_text(b) == text@ ==> x@ == b,
{
    base64::engine::general_purpose::STANDARD.decode(text)
}

/// `String::from_utf8`: succeeds exactly on valid UTF-8, with the decoded text.
#[verifier::external_body]
pub(crate) fn utf8_to_string(bytes: Vec<u8>) -> (r: Result<String, std::string::FromUtf8Error>)
    ensures
        r is Ok <==> valid_utf8(bytes@),
        r matches Ok(s) ==> s@ == decode_utf8(bytes@),
{
    String::from_utf8(bytes)
}

/// `sha2::Sha256::digest(bytes)`.
/// Trusted: the digest is the named `sha256` of the bytes, 32 bytes long.
#[verifier::external_body]
pub(crate) fn sha256_digest(bytes: &[u8]) -> (r: Vec<u8>)
    ensures
        r@ == sha256(bytes@),
        r@.len() == 32,
{
    sha2::Sha256::digest(bytes).to_vec()
}

} // verus!
