use vstd::prelude::*;

verus! {

/// The ways in which building a codec, encoding a value or decoding a token can fail.
///
/// Each variant names one stage of the pipeline and carries nothing from the
/// libraries underneath, so callers can tell malformed input from tampering.
#[derive(Debug, Clone, Copy, PartialEq, Eq, Structural)]
pub enum Error {
    /// The key does not have the width that AES-256-GCM requires.
    InvalidKey,
    /// The value could not be turned into bytes.
    Serialization,
    /// The cipher refused to seal the bytes, or no nonce could be drawn.
    Encryption,
    /// The token is not unpadded URL-safe base64.
    InvalidBase64,
    /// The decoded token is too short to hold a nonce.
    InvalidToken,
    /// The authentication tag did not verify: wrong key, or altered token.
    Decryption,
    /// The authenticated bytes do not describe a value of the requested type.
    Deserialization,
}

} // verus!
