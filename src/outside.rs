//! The calls into outside crates that the codec makes, with what it relies on.

use vstd::prelude::*;

use aes_gcm::aead::rand_core::RngCore;
use aes_gcm::aead::OsRng;
use base64::prelude::BASE64_URL_SAFE_NO_PAD;
use base64::Engine;
use serde::de::DeserializeOwned;
use serde::Serialize;

use crate::format::{all_token_chars, base64_bytes, base64_len, base64_text, NONCE_LEN};

verus! {

#[verifier::external_type_specification]
#[verifier::external_body]
pub struct ExInvalidLength(aes_gcm::aes::cipher::InvalidLength);

#[verifier::external_type_specification]
#[verifier::external_body]
pub struct ExDecodeError(base64::DecodeError);

#[verifier::external_type_specification]
#[verifier::external_body]
pub struct ExBincodeErrorKind(bincode::ErrorKind);

/// Relies on `Engine::encode` of `BASE64_URL_SAFE_NO_PAD`: it writes the
/// unpadded URL-safe base64 text of the bytes, drawn from the URL-safe
/// alphabet, four characters for each three bytes and two or three for the
/// rest, which `Engine::decode` of the same engine turns back into them. It
/// panics only when the length of the text overflows, which the bound on the
/// input rules out.
#[verifier::external_body]
pub(crate) fn encode_base64(bytes: &[u8]) -> (r: String)
    requires
        bytes@.len() <= usize::MAX / 8 * 3,
    ensures
        r@ == base64_text(bytes@),
        base64_bytes(r@) == Some(bytes@),
        all_token_chars(r@),
        r@.len() == base64_len(bytes@.len()),
{
    BASE64_URL_SAFE_NO_PAD.encode(bytes)
}

/// Relies on `Engine::decode` of `BASE64_URL_SAFE_NO_PAD`: a function of the
/// text, which refuses every byte outside the URL-safe alphabet, padding `=`
/// included.
#[verifier::external_body]
pub(crate) fn decode_base64(text: &str) -> (r: Result<Vec<u8>, base64::DecodeError>)
    ensures
        match r {
            Ok(bytes) => base64_bytes(text@) == Some(bytes@),
            Err(_) => base64_bytes(text@) is None,
        },
        !all_token_chars(text@) ==> r is Err,
{
    BASE64_URL_SAFE_NO_PAD.decode(text)
}

/// Relies on `RngCore::try_fill_bytes` of `OsRng`, the operating system's
/// generator: `None` when it reports a failure. Nothing is known of the
/// bytes it draws.
#[verifier::external_body]
pub(crate) fn random_nonce() -> (r: Option<[u8; NONCE_LEN]>) {
    let mut nonce = [0u8; NONCE_LEN];
    OsRng.try_fill_bytes(&mut nonce).ok().map(|_| nonce)
}

/// Relies on `bincode::serialize`; nothing is stated of the bytes it writes.
#[verifier::external_body]
pub(crate) fn serialize_value<T: Serialize>(value: &T) -> (r: Result<Vec<u8>, bincode::Error>) {
    bincode::serialize(value)
}

/// Relies on `bincode::deserialize`; nothing is stated of the value it reads.
#[verifier::external_body]
pub(crate) fn deserialize_value<T: DeserializeOwned>(bytes: &[u8]) -> (r: Result<T, bincode::Error>) {
    bincode::deserialize(bytes)
}

} // verus!
