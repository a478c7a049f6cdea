//! A hybrid public-key encryption engine: a key-exchange capability
//! establishes a shared secret, a key schedule turns it into symmetric key
//! material, and an encryption context manages a sequence of authenticated
//! seal/open operations with monotonically advancing nonces.
use vstd::prelude::*;

pub mod aead;
pub mod bytes;
pub mod dh;
pub mod kdf;
pub mod op_mode;
pub mod rng;
pub mod setup;
pub mod test_util;

verus! {

/// Every failure the engine can report, returned to the immediate caller;
/// nothing is retried or recovered internally.
#[derive(Debug, Clone, Copy, PartialEq, Eq, Structural)]
pub enum HpkeError {
    /// PSK or identity-key material inconsistent with the requested mode kind.
    InvalidMode,
    /// The asymmetric primitive rejected its inputs or produced a degenerate
    /// shared secret.
    KeyExchangeFailure,
    /// A requested output length exceeds what the KDF can expand in one call.
    InvalidKeyLength,
    /// A malformed pre-shared key reached the key schedule.
    InvalidPsk,
    /// The authentication tag did not verify during `open`.
    AeadAuthFailure,
    /// The sequence counter is exhausted; the context is permanently dead.
    SequenceOverflow,
}

} // verus!
