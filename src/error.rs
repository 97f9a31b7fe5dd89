use vstd::prelude::*;

verus! {

/// The closed set of failures that the cryptographic core reports.
#[derive(Debug, Clone, Copy, PartialEq, Eq, Structural)]
pub enum CryptoError {
    /// The operating system's random source could not be read.
    EntropyFailure,
    /// A buffer has the wrong length, or bytes do not encode a curve point.
    FormatError,
    /// The padding did not check out: wrong key, wrong passphrase or corrupted data.
    DecryptionError,
    /// The identity store could not read or write an artifact.
    StorageError,
}

impl CryptoError {
    /// A short human-readable description of the failure.
    pub fn describe(&self) -> (r: &'static str) {
        match self {
            CryptoError::EntropyFailure => "the random source is not available",
            CryptoError::FormatError => "malformed key material or buffer",
            CryptoError::DecryptionError => "decryption failed",
            CryptoError::StorageError => "identity store failure",
        }
    }
}

} // verus!
