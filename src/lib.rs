//! An authenticated token codec: a value is serialized, sealed with
//! AES-256-GCM under a fresh random nonce, and carried as unpadded URL-safe
//! base64 text that only the holder of the key can read or forge.

use vstd::prelude::*;

pub mod codec;
pub mod error;
pub mod format;
mod outside;

pub use codec::Encrypter;
pub use error::Error;
