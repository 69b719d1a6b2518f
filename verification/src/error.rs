use vstd::prelude::*;

verus! {

/// The closed set of failure kinds that the protocol engine can surface.
///
/// Parse failures, failed stealth-address recovery and failed decryption
/// abort the enclosing operation; shape violations are caller errors that
/// are rejected before any cryptographic work begins.
#[derive(Debug, Clone, Copy, PartialEq, Eq, Structural)]
pub enum Error {
    /// A byte buffer does not decode to a group element or scalar.
    ParseError,
    /// Stealth-address recovery failed: the caller is not the recipient.
    NotRecipient,
    /// The symmetric cipher rejected its input.
    CipherError,
    /// A decrypted token secret could not be reconstructed.
    DecryptError,
    /// Mismatched input, decoy or output shapes.
    ShapeError,
    /// A transfer asks for more than the input balance holds.
    InsufficientBalance,
    /// A balance sum does not fit in 64 bits.
    AmountOverflow,
}

} // verus!
