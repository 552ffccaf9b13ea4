use vstd::prelude::*;

verus! {

/// Every way in which a call into the library can fail.
#[derive(Debug, Clone, Copy, PartialEq, Eq, Structural)]
pub enum WalletError {
    InvalidWordCount,
    InvalidMnemonic,
    DerivationError,
    UnsupportedChain,
    KeyEncodingError,
    MalformedBlob,
    DecryptionFailed,
    UnsupportedFormat,
    InvalidUtf8,
    PayloadTooLarge,
}

} // verus!
