//! The codec: a key held for its lifetime, and the encode and decode pipelines.

use vstd::prelude::*;

use aes_gcm::aead::Aead;
use aes_gcm::{Aes256Gcm, KeyInit, Nonce};
use serde::de::DeserializeOwned;
use serde::Serialize;

use crate::error::Error;
use crate::format::{
    all_token_chars, base64_bytes, open_outcome, opened, sealable, sealed, token_bytes, token_len,
    token_text, KEY_LEN, MAX_PLAINTEXT, MAX_TOKEN_INPUT, NONCE_LEN, TAG_LEN,
};
use crate::outside::{
    decode_base64, deserialize_value, encode_base64, random_nonce, serialize_value,
};

verus! {

/// An AES-256-GCM cipher with its key schedule; opaque to proofs. It is held
/// in a struct of its own because Verus cannot declare `AesGcm`, whose
/// `TagSize` bound is a sealed trait.
#[verifier::external_body]
struct Cipher {
    inner: Aes256Gcm,
}

/// Relies on `KeyInit::new_from_slice` for `Aes256Gcm`: it fails exactly when
/// the slice is not 32 bytes long.
#[verifier::external_body]
fn cipher_from_key(key: &[u8]) -> (r: Result<Cipher, aes_gcm::aes::cipher::InvalidLength>)
    ensures
        r is Ok <==> key@.len() == KEY_LEN,
{
    Aes256Gcm::new_from_slice(key).map(|inner| Cipher { inner })
}

/// Seals values into tokens and opens tokens under one AES-256 key.
///
/// The codec holds no state besides the key, so any number of calls may run
/// at once.
pub struct Encrypter {
    // Built from `key` by `new`, the only constructor.
    cipher: Cipher,
    key: Ghost<Seq<u8>>,
}

impl Encrypter {
    /// The key that the codec was built from.
    pub closed spec fn key(&self) -> Seq<u8> {
        self.key@
    }

    /// Builds a codec from the raw key bytes, which must be 32 bytes long.
    pub fn new(key: &[u8]) -> (r: Result<Encrypter, Error>)
        ensures
            match r {
                Ok(codec) => key@.len() == KEY_LEN && codec.key() == key@,
                Err(e) => key@.len() != KEY_LEN && e == Error::InvalidKey,
            },
    {
        match cipher_from_key(key) {
            Ok(cipher) => Ok(Encrypter { cipher, key: Ghost(key@) }),
            Err(_) => Err(Error::InvalidKey),
        }
    }

    /// Relies on `Aead::encrypt` of `Aes256Gcm`, with no associated data: it
    /// fails only on a plaintext longer than `MAX_PLAINTEXT`; else it returns
    /// the ciphertext with the 16-byte tag appended, a function of the key,
    /// the nonce and the plaintext, which `Aead::decrypt` under the same key
    /// and nonce turns back into the plaintext. It panics only where the
    /// length of its buffer overflows, which the bound rules out.
    #[verifier::external_body]
    fn seal(&self, nonce: &[u8; NONCE_LEN], plaintext: &[u8]) -> (r: Option<Vec<u8>>)
        requires
            plaintext@.len() + TAG_LEN <= isize::MAX,
        ensures
            r is Some <==> plaintext@.len() <= MAX_PLAINTEXT,
            r matches Some(c) ==> c@ == sealed(self.key(), nonce@, plaintext@),
            r matches Some(c) ==> c@.len() == plaintext@.len() + TAG_LEN,
            r matches Some(c) ==> opened(self.key(), nonce@, c@) == Some(plaintext@),
    {
        self.cipher.inner.encrypt(Nonce::from_slice(nonce), plaintext).ok()
    }

    /// Relies on `Aead::decrypt` of `Aes256Gcm`, with no associated data: it
    /// returns the plaintext exactly when the tag verifies, as a function of
    /// the key, the nonce and the ciphertext, and fails on a ciphertext too
    /// short to hold the 16-byte tag. It panics on a nonce that is not 12
    /// bytes long.
    #[verifier::external_body]
    fn open(&self, nonce: &[u8], ciphertext: &[u8]) -> (r: Option<Vec<u8>>)
        requires
            nonce@.len() == NONCE_LEN,
        ensures
            match r {
                Some(p) => opened(self.key(), nonce@, ciphertext@) == Some(p@),
                None => opened(self.key(), nonce@, ciphertext@) is None,
            },
            ciphertext@.len() < TAG_LEN ==> r is None,
    {
        self.cipher.inner.decrypt(Nonce::from_slice(nonce), ciphertext).ok()
    }

    /// Seals `plaintext` under the given nonce and writes the token as text.
    ///
    /// The token is the URL-safe base64 text of the nonce, the ciphertext and
    /// the 16-byte tag; its length depends on the length of `plaintext` alone,
    /// and it opens, under this codec, to exactly `plaintext`. The only
    /// failure is a plaintext longer than AES-GCM or memory accepts.
    pub fn encrypt_with_nonce(&self, plaintext: &[u8], nonce: &[u8; NONCE_LEN]) -> (r: Result<
        String,
        Error,
    >)
        ensures
            match r {
                Ok(token) => {
                    &&& sealable(plaintext@.len())
                    &&& token@ == token_text(self.key(), nonce@, plaintext@)
                    &&& sealed(self.key(), nonce@, plaintext@).len() == plaintext@.len() + TAG_LEN
                    &&& base64_bytes(token@) == Some(token_bytes(self.key(), nonce@, plaintext@))
                    &&& all_token_chars(token@)
                    &&& token@.len() == token_len(plaintext@.len())
                    &&& open_outcome(self.key(), token@) == Ok::<Seq<u8>, Error>(plaintext@)
                },
                Err(e) => !sealable(plaintext@.len()) && e == Error::Encryption,
            },
    {
        // Far beyond what AES-GCM seals on a 64-bit machine; refused here so
        // that no buffer length overflows.
        if plaintext.len() > MAX_TOKEN_INPUT {
            return Err(Error::Encryption);
        }
        let sealed_bytes = match self.seal(nonce, plaintext) {
            Some(c) => c,
            None => return Err(Error::Encryption),
        };
        let mut bytes: Vec<u8> = Vec::new();
        let mut i: usize = 0;
        while i < NONCE_LEN
            invariant
                i <= NONCE_LEN,
                bytes@ == nonce@.take(i as int),
            decreases NONCE_LEN - i,
        {
            bytes.push(nonce[i]);
            i = i + 1;
        }
        let mut j: usize = 0;
        while j < sealed_bytes.len()
            invariant
                j <= sealed_bytes@.len(),
                bytes@ == nonce@ + sealed_bytes@.take(j as int),
            decreases sealed_bytes@.len() - j,
        {
            bytes.push(sealed_bytes[j]);
            j = j + 1;
        }
        proof {
            assert(nonce@.take(NONCE_LEN as int) =~= nonce@);
            assert(sealed_bytes@.take(sealed_bytes@.len() as int) =~= sealed_bytes@);
            assert(bytes@.take(NONCE_LEN as int) =~= nonce@);
            assert(bytes@.skip(NONCE_LEN as int) =~= sealed_bytes@);
        }
        let token = encode_base64(bytes.as_slice());
        Ok(token)
    }

    /// Opens a token and returns the plaintext that it seals.
    ///
    /// The checks run in order: base64 text, long enough for a nonce, tag
    /// verified under this codec's key. No plaintext leaves before the tag
    /// has verified.
    pub fn decrypt_bytes(&self, token: &str) -> (r: Result<Vec<u8>, Error>)
        ensures
            match r {
                Ok(p) => open_outcome(self.key(), token@) == Ok::<Seq<u8>, Error>(p@),
                Err(e) => open_outcome(self.key(), token@) == Err::<Seq<u8>, Error>(e),
            },
            !all_token_chars(token@) ==> r == Err::<Vec<u8>, Error>(Error::InvalidBase64),
            (base64_bytes(token@) matches Some(b) && b.len() < NONCE_LEN) ==> r == Err::<
                Vec<u8>,
                Error,
            >(Error::InvalidToken),
    {
        let bytes = match decode_base64(token) {
            Ok(b) => b,
            Err(_) => return Err(Error::InvalidBase64),
        };
        if bytes.len() < NONCE_LEN {
            return Err(Error::InvalidToken);
        }
        let (nonce, ciphertext) = bytes.as_slice().split_at(NONCE_LEN);
        proof {
            assert(nonce@ =~= bytes@.take(NONCE_LEN as int));
            assert(ciphertext@ =~= bytes@.skip(NONCE_LEN as int));
        }
        match self.open(nonce, ciphertext) {
            Some(p) => Ok(p),
            None => Err(Error::Decryption),
        }
    }

    /// Serializes `data`, seals it under a fresh random nonce and returns the
    /// token text.
    ///
    /// A token that comes back opens, under this codec, to the serialized
    /// bytes of `data`; two calls draw two nonces.
    pub fn encrypt<T: Serialize>(&self, data: &T) -> (r: Result<String, Error>)
        ensures
            match r {
                Ok(token) => exists|nonce: Seq<u8>, plaintext: Seq<u8>|
                    {
                        &&& nonce.len() == NONCE_LEN
                        &&& #[trigger] token_text(self.key(), nonce, plaintext) == token@
                        &&& base64_bytes(token@) == Some(token_bytes(self.key(), nonce, plaintext))
                        &&& token_bytes(self.key(), nonce, plaintext).len() == NONCE_LEN
                            + plaintext.len() + TAG_LEN
                        &&& all_token_chars(token@)
                        &&& token@.len() == token_len(plaintext.len())
                        &&& open_outcome(self.key(), token@) == Ok::<Seq<u8>, Error>(plaintext)
                    },
                Err(e) => e == Error::Serialization || e == Error::Encryption,
            },
    {
        let plaintext = match serialize_value(data) {
            Ok(b) => b,
            Err(_) => return Err(Error::Serialization),
        };
        let nonce = match random_nonce() {
            Some(n) => n,
            None => return Err(Error::Encryption),
        };
        let token = self.encrypt_with_nonce(plaintext.as_slice(), &nonce)?;
        assert(token_text(self.key(), nonce@, plaintext@) == token@);
        Ok(token)
    }

    /// Opens a token and reads back the value that it seals.
    ///
    /// The checks run in order: base64 text, long enough for a nonce, tag
    /// verified under this codec's key, and last the bytes read as a `T`.
    pub fn decrypt<T: DeserializeOwned>(&self, token: &str) -> (r: Result<T, Error>)
        ensures
            match open_outcome(self.key(), token@) {
                Err(e) => r == Err::<T, Error>(e),
                Ok(_) => r is Ok || r == Err::<T, Error>(Error::Deserialization),
            },
            !all_token_chars(token@) ==> r == Err::<T, Error>(Error::InvalidBase64),
            (base64_bytes(token@) matches Some(b) && b.len() < NONCE_LEN) ==> r == Err::<T, Error>(
                Error::InvalidToken,
            ),
    {
        let plaintext = self.decrypt_bytes(token)?;
        match deserialize_value(plaintext.as_slice()) {
            Ok(value) => Ok(value),
            Err(_) => Err(Error::Deserialization),
        }
    }
}

} // verus!
