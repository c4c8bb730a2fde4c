//! Biome protocol messages and the encryption of their bodies.
use vstd::prelude::*;
use vstd::utf8::*;
use crate::crypto::{
    aead_decrypt, aead_encrypt, base64_bytes, base64_decode, base64_encode, base64_text,
    fresh_nonce, opened, sealed, utf8_to_string,
};
use crate::text::{copy_str, str_eq};

verus! {

broadcast use vstd::utf8::group_utf8_lib;

/// A message between two nodes.
#[derive(Debug, Clone)]
pub struct BiomeMessage {
    /// Sender public key (base64).
    pub sender_pubkey: String,
    /// Recipient public key (base64).
    pub recipient_pubkey: String,
    /// Dialogue id.
    pub topic_id: String,
    /// Body; ciphertext once encrypted.
    pub content: String,
    /// CID of the sender's karma state.
    pub karma_root_cid: String,
    /// Ed25519 signature.
    pub signature: String,
    /// Logical (Lamport) time.
    pub lamport_clock: u64,
    /// Timestamp.
    pub timestamp: String,
    /// Encryption scheme: `"none"` or `"chacha20-poly1305"`.
    pub encryption: String,
}

/// A dialogue's summary and state.
#[derive(Debug, Clone)]
pub struct BiomeDialogue {
    pub topic_id: String,
    pub peer_pubkey: String,
    pub last_message_at: String,
    pub message_count: u32,
    pub summary: Option<String>,
    pub status: DialogueStatus,
}

/// Whether a dialogue goes on.
#[derive(Debug, Clone, Copy, PartialEq, Eq, Structural)]
pub enum DialogueStatus {
    Active,
    Archived,
    Blocked,
}

/// A distilled dialogue: summary plus the participants' signatures.
#[derive(Debug, Clone)]
pub struct DialogueDistillation {
    pub topic_id: String,
    pub summary: String,
    pub participants: Vec<String>,
    pub signatures: Vec<String>,
    pub timestamp: String,
}

/// Why encrypting or decrypting a body failed.
#[derive(Debug, Clone, Copy, PartialEq, Eq, Structural)]
pub enum BiomeCryptoError {
    /// The cipher refused the plaintext.
    EncryptionFailed,
    /// The body is not valid base64.
    InvalidBase64,
    /// The decoded body is shorter than a nonce.
    TooShortForNonce,
    /// Authentication failed.
    DecryptionFailed,
    /// The plaintext is not UTF-8.
    InvalidUtf8,
}

/// The encryption tag written by `encrypt`.
pub open spec fn chacha_tag() -> Seq<char> {
    "chacha20-poly1305"@
}

/// `content` is the base64 of a 12-byte nonce followed by the
/// ChaCha20-Poly1305 sealing of `plain`'s UTF-8 bytes under `key` and that nonce.
pub open spec fn is_encryption_of(key: Seq<u8>, plain: Seq<char>, content: Seq<char>) -> bool {
    exists|nonce: Seq<u8>, ct: Seq<u8>|
        nonce.len() == 12 && sealed(key, nonce, encode_utf8(plain)) == Some(ct) && content
            == base64_text(nonce + ct)
}

/// The outcome of decrypting `content` under `key`: the plaintext, or the
/// stage at which it failed.
pub open spec fn decryption(key: Seq<u8>, content: Seq<char>) -> Result<Seq<char>, BiomeCryptoError> {
    match base64_bytes(content) {
        None => Err(BiomeCryptoError::InvalidBase64),
        Some(b) => if b.len() < 12 {
            Err(BiomeCryptoError::TooShortForNonce)
        } else {
            match opened(key, b.take(12), b.skip(12)) {
                None => Err(BiomeCryptoError::DecryptionFailed),
                Some(p) => if valid_utf8(p) {
                    Ok(decode_utf8(p))
                } else {
                    Err(BiomeCryptoError::InvalidUtf8)
                },
            }
        },
    }
}

/// All fields but `content` and `encryption` agree.
pub open spec fn same_header(a: BiomeMessage, b: BiomeMessage) -> bool {
    &&& a.sender_pubkey@ == b.sender_pubkey@
    &&& a.recipient_pubkey@ == b.recipient_pubkey@
    &&& a.topic_id@ == b.topic_id@
    &&& a.karma_root_cid@ == b.karma_root_cid@
    &&& a.signature@ == b.signature@
    &&& a.lamport_clock == b.lamport_clock
    &&& a.timestamp@ == b.timestamp@
}

impl BiomeMessage {
    /// Encrypts the body with ChaCha20-Poly1305 under `key` and a fresh
    /// random nonce; the body becomes base64(nonce ‖ ciphertext) and the
    /// scheme `"chacha20-poly1305"`. On failure the message is unchanged.
    /// Encryption fails only on a body of `u32::MAX` ChaCha20 blocks or more.
    pub fn encrypt(&mut self, key: &[u8; 32]) -> (r: Result<(), BiomeCryptoError>)
        requires
            encode_utf8(old(self).content@).len() + 28 <= usize::MAX / 2,
        ensures
            same_header(*final(self), *old(self)),
            encode_utf8(old(self).content@).len() < 274877906880 ==> r is Ok,
            r is Ok ==> is_encryption_of(key@, old(self).content@, final(self).content@)
                && final(self).encryption@ == chacha_tag(),
            r is Err ==> r == Err::<(), BiomeCryptoError>(BiomeCryptoError::EncryptionFailed)
                && final(self).content@ == old(self).content@
                && final(self).encryption@ == old(self).encryption@,
    {
        let nonce = fresh_nonce();
        let plain = self.content.as_str().as_bytes();
        let ct = match aead_encrypt(key, &nonce, plain) {
            Ok(c) => c,
            Err(_) => return Err(BiomeCryptoError::EncryptionFailed),
        };
        let mut combined: Vec<u8> = Vec::new();
        let mut i: usize = 0;
        while i < 12
            invariant
                i <= 12,
                combined@ == nonce@.take(i as int),
            decreases 12 - i,
        {
            combined.push(nonce[i]);
            i = i + 1;
            proof {
                assert(combined@ =~= nonce@.take(i as int));
            }
        }
        let mut j: usize = 0;
        while j < ct.len()
            invariant
                j <= ct@.len(),
                combined@ == nonce@ + ct@.take(j as int),
            decreases ct.len() - j,
        {
            combined.push(ct[j]);
            j = j + 1;
            proof {
                assert(combined@ =~= nonce@ + ct@.take(j as int));
            }
        }
        proof {
            assert(nonce@.take(12) =~= nonce@);
            assert(ct@.take(ct@.len() as int) =~= ct@);
        }
        let ghost old_content = self.content@;
        self.content = base64_encode(combined.as_slice());
        self.encryption = copy_str("chacha20-poly1305");
        proof {
            assert(is_encryption_of(key@, old_content, self.content@));
        }
        Ok(())
    }

    /// Decrypts a body encrypted by `encrypt`. A message whose scheme is
    /// `"none"` is left as it is. On failure the message is unchanged.
    pub fn decrypt(&mut self, key: &[u8; 32]) -> (r: Result<(), BiomeCryptoError>)
        ensures
            same_header(*final(self), *old(self)),
            final(self).encryption@ == old(self).encryption@,
            old(self).encryption@ == "none"@ ==> r is Ok && final(self).content@ == old(self).content@,
            old(self).encryption@ != "none"@ ==> (match decryption(key@, old(self).content@) {
                Ok(p) => r is Ok && final(self).content@ == p,
                Err(e) => r == Err::<(), BiomeCryptoError>(e) && final(self).content@ == old(self).content@,
            }),
            old(self).encryption@ != "none"@ ==> forall|p: Seq<char>|
                #[trigger] is_encryption_of(key@, p, old(self).content@)
                    ==> r is Ok && final(self).content@ == p,
    {
        if str_eq(self.encryption.as_str(), "none") {
            return Ok(());
        }
        let ghost content = self.content@;
        let ghost has_w = exists|p: Seq<char>| #[trigger] is_encryption_of(key@, p, content);
        let ghost mut wp: Seq<char> = Seq::empty();
        let ghost mut wn: Seq<u8> = Seq::empty();
        let ghost mut wct: Seq<u8> = Seq::empty();
        proof {
            if has_w {
                wp = choose|p: Seq<char>| #[trigger] is_encryption_of(key@, p, content);
                let (n, c) = choose|nonce: Seq<u8>, ct: Seq<u8>|
                    nonce.len() == 12 && sealed(key@, nonce, encode_utf8(wp)) == Some(ct) && content
                        == base64_text(nonce + ct);
                wn = n;
                wct = c;
                assert(base64_text(wn + wct) == content);
            }
        }
        let combined = match base64_decode(self.content.as_str()) {
            Ok(b) => b,
            Err(_) => {
                return Err(BiomeCryptoError::InvalidBase64);
            },
        };
        proof {
            if has_w {
                assert(combined@ == wn + wct);
            }
        }
        if combined.len() < 12 {
            return Err(BiomeCryptoError::TooShortForNonce);
        }
        let (nonce, ciphertext) = combined.as_slice().split_at(12);
        proof {
            assert(nonce@ =~= combined@.take(12));
            assert(ciphertext@ =~= combined@.skip(12));
            if has_w {
                assert(nonce@ =~= wn);
                assert(ciphertext@ =~= wct);
                assert(sealed(key@, nonce@, encode_utf8(wp)) == Some(ciphertext@));
            }
        }
        let ghost g_nonce = nonce@;
        let ghost g_ct = ciphertext@;
        let ghost g_comb = combined@;
        let plain = match aead_decrypt(key, nonce, ciphertext) {
            Ok(p) => p,
            Err(_) => {
                return Err(BiomeCryptoError::DecryptionFailed);
            },
        };
        let ghost g_plain = plain@;
        proof {
            if has_w {
                assert(plain@ == encode_utf8(wp));
                encode_utf8_valid_utf8(wp);
                encode_utf8_decode_utf8(wp);
            }
        }
        let text = match utf8_to_string(plain) {
            Ok(s) => s,
            Err(_) => {
                return Err(BiomeCryptoError::InvalidUtf8);
            },
        };
        proof {
            assert forall|p: Seq<char>| #[trigger] is_encryption_of(key@, p, content) implies text@
                == p by {
                let (n, c) = choose|nonce: Seq<u8>, ct: Seq<u8>|
                    nonce.len() == 12 && sealed(key@, nonce, encode_utf8(p)) == Some(ct) && content
                        == base64_text(nonce + ct);
                assert(base64_text(n + c) == content);
                assert(g_comb == n + c);
                assert(g_nonce =~= n);
                assert(g_ct =~= c);
                assert(sealed(key@, g_nonce, encode_utf8(p)) == Some(g_ct));
                assert(g_plain == encode_utf8(p));
                encode_utf8_decode_utf8(p);
            }
        }
        self.content = text;
        Ok(())
    }
}

} // verus!
