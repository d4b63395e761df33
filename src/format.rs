//! The wire format of a token, stated over byte and character sequences.

use vstd::prelude::*;

use crate::error::Error;

verus! {

/// Width in bytes of an AES-256 key.
pub const KEY_LEN: usize = 32;

/// Width in bytes of the nonce that opens every token.
pub const NONCE_LEN: usize = 12;

/// Width in bytes of the authentication tag that AES-GCM appends.
pub const TAG_LEN: usize = 16;

/// The longest plaintext, in bytes, that AES-GCM agrees to seal.
pub const MAX_PLAINTEXT: u64 = 0x10_0000_0000;

/// The longest plaintext, in bytes, whose token text is sure to fit in memory.
pub const MAX_TOKEN_INPUT: usize = usize::MAX / 8 * 3 - NONCE_LEN - TAG_LEN;

/// The characters of the URL-safe base64 alphabet.
pub open spec fn is_token_char(c: char) -> bool {
    ('A' <= c && c <= 'Z') || ('a' <= c && c <= 'z') || ('0' <= c && c <= '9') || c == '-'
        || c == '_'
}

/// Every character of `s` belongs to the URL-safe base64 alphabet.
pub open spec fn all_token_chars(s: Seq<char>) -> bool {
    forall|i: int| 0 <= i < s.len() ==> is_token_char(#[trigger] s[i])
}

/// Length of the unpadded base64 text of `n` bytes: four characters for each
/// full group of three bytes, and two or three for a last group of one or two.
pub open spec fn base64_len(n: nat) -> nat {
    ((4 * n + 2) / 3) as nat
}

/// A plaintext of `n` bytes is one that AES-GCM seals and whose token fits
/// in memory.
pub open spec fn sealable(n: nat) -> bool {
    n <= MAX_PLAINTEXT && n <= MAX_TOKEN_INPUT
}

/// Length of the text of a token that seals `n` bytes: it depends on `n`
/// alone, never on what the bytes hold.
pub open spec fn token_len(n: nat) -> nat {
    base64_len((n + NONCE_LEN + TAG_LEN) as nat)
}

/// Unpadded URL-safe base64 text of `bytes`.
pub uninterp spec fn base64_text(bytes: Seq<u8>) -> Seq<char>;

/// The bytes that unpadded URL-safe base64 `text` stands for, if it is well formed.
pub uninterp spec fn base64_bytes(text: Seq<char>) -> Option<Seq<u8>>;

/// AES-256-GCM ciphertext, tag appended, of `plaintext` under `key` and `nonce`.
pub uninterp spec fn sealed(key: Seq<u8>, nonce: Seq<u8>, plaintext: Seq<u8>) -> Seq<u8>;

/// The plaintext that AES-256-GCM recovers from `ciphertext` under `key` and
/// `nonce`, or `None` when the tag does not verify.
pub uninterp spec fn opened(key: Seq<u8>, nonce: Seq<u8>, ciphertext: Seq<u8>) -> Option<Seq<u8>>;

/// The bytes of a token: the nonce followed by the sealed plaintext.
pub open spec fn token_bytes(key: Seq<u8>, nonce: Seq<u8>, plaintext: Seq<u8>) -> Seq<u8> {
    nonce + sealed(key, nonce, plaintext)
}

/// The text of the token that seals `plaintext` under `key` and `nonce`.
pub open spec fn token_text(key: Seq<u8>, nonce: Seq<u8>, plaintext: Seq<u8>) -> Seq<char> {
    base64_text(token_bytes(key, nonce, plaintext))
}

/// What decoding `text` under `key` yields, checked in order: the text must
/// be base64, then long enough to hold a nonce, then carry a tag that verifies.
pub open spec fn open_outcome(key: Seq<u8>, text: Seq<char>) -> Result<Seq<u8>, Error> {
    match base64_bytes(text) {
        None => Err(Error::InvalidBase64),
        Some(bytes) => if bytes.len() < NONCE_LEN {
            Err(Error::InvalidToken)
        } else {
            match opened(key, bytes.take(NONCE_LEN as int), bytes.skip(NONCE_LEN as int)) {
                None => Err(Error::Decryption),
                Some(plaintext) => Ok(plaintext),
            }
        },
    }
}

} // verus!
